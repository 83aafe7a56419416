//! Movement geometry of each piece kind, ignoring what stands on the board.
//!
//! A displacement is `(dx, dy)`: destination minus source, per axis. Forward
//! is color-relative: Black's vertical component is mirrored before matching.

use vstd::prelude::*;

use crate::piece::{Color, PieceKind};

verus! {

pub open spec fn abs(x: int) -> int {
    if x < 0 {
        -x
    } else {
        x
    }
}

/// The vertical component as seen from `color`'s side of the board.
pub open spec fn forward(color: Color, dy: int) -> int {
    match color {
        Color::White => dy,
        Color::Black => -dy,
    }
}

/// The displacement `(dx, dy)` is a non-capturing move of `kind`. A pawn that
/// stands on its starting square may also advance two ranks.
pub open spec fn shape_ok(kind: PieceKind, color: Color, dx: int, dy: int, from_initial: bool) -> bool {
    let fy = forward(color, dy);
    &&& !(dx == 0 && dy == 0)
    &&& match kind {
        PieceKind::King => abs(dx) <= 1 && abs(fy) <= 1,
        PieceKind::Queen => dx == 0 || fy == 0 || abs(dx) == abs(fy),
        PieceKind::Rook => dx == 0 || fy == 0,
        PieceKind::Bishop => abs(dx) == abs(fy),
        PieceKind::Knight => (abs(dx) == 1 && abs(fy) == 2) || (abs(dx) == 2 && abs(fy) == 1),
        PieceKind::Pawn => dx == 0 && (fy == 1 || (from_initial && fy == 2)),
    }
}

/// The displacement `(dx, dy)` is a capture by `kind`: a pawn captures one
/// square diagonally forward, every other kind as it moves.
pub open spec fn capture_shape_ok(kind: PieceKind, color: Color, dx: int, dy: int) -> bool {
    match kind {
        PieceKind::Pawn => abs(dx) == 1 && forward(color, dy) == 1,
        _ => shape_ok(kind, color, dx, dy, false),
    }
}

fn abs16(x: i16) -> (r: i16)
    requires
        x > i16::MIN,
    ensures
        r == abs(x as int),
{
    if x < 0 {
        -x
    } else {
        x
    }
}

/// Whether `(dx, dy)` is a legal non-capturing shape for a `color` `kind`;
/// `from_initial` tells whether the piece stands where it started.
pub fn is_legal_shape(kind: PieceKind, color: Color, dx: i8, dy: i8, from_initial: bool) -> (r: bool)
    ensures
        r == shape_ok(kind, color, dx as int, dy as int, from_initial),
{
    if dx == 0 && dy == 0 {
        return false;
    }
    let x = dx as i16;
    let y: i16 = match color {
        Color::White => dy as i16,
        Color::Black => -(dy as i16),
    };
    let ax = abs16(x);
    let ay = abs16(y);
    match kind {
        PieceKind::King => ax <= 1 && ay <= 1,
        PieceKind::Queen => x == 0 || y == 0 || ax == ay,
        PieceKind::Rook => x == 0 || y == 0,
        PieceKind::Bishop => ax == ay,
        PieceKind::Knight => (ax == 1 && ay == 2) || (ax == 2 && ay == 1),
        PieceKind::Pawn => x == 0 && (y == 1 || (from_initial && y == 2)),
    }
}

/// Whether `(dx, dy)` is a legal capturing shape for a `color` `kind`.
pub fn is_legal_capture_shape(kind: PieceKind, color: Color, dx: i8, dy: i8) -> (r: bool)
    ensures
        r == capture_shape_ok(kind, color, dx as int, dy as int),
{
    match kind {
        PieceKind::Pawn => {
            let y: i16 = match color {
                Color::White => dy as i16,
                Color::Black => -(dy as i16),
            };
            abs16(dx as i16) == 1 && y == 1
        },
        _ => is_legal_shape(kind, color, dx, dy, false),
    }
}

} // verus!
