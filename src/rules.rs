//! Move acceptance: whether moving the piece on one square to another is a
//! legal quiet move, capture or castling, and committing a move.

use vstd::prelude::*;

use crate::board::{Board, BoardModel};
use crate::castling::{can_castle, castle_ok};
use crate::path::{is_blocked, path_blocked};
use crate::pattern::{capture_shape_ok, is_legal_capture_shape, is_legal_shape, shape_ok};
use crate::piece::{PieceKind, Square};
use crate::threat::{in_check, is_in_check};

verus! {

/// How an accepted move treats its destination.
#[derive(Clone, Copy, Debug, PartialEq, Eq, Structural)]
pub enum MoveKind {
    /// The destination was empty.
    Quiet,
    /// The destination held an enemy piece, which is removed.
    Capture,
    /// The king was dragged onto its own rook.
    Castle,
}

/// The board with the piece on `from` carried to `to`, whatever stood there.
pub open spec fn moved(b: BoardModel, from: Square, to: Square) -> BoardModel {
    b.with_piece(from, None).with_piece(to, b.piece(from))
}

/// The board after committing a quiet move or capture: the piece carried to
/// `to`, and both squares flagged as moved.
pub open spec fn committed(b: BoardModel, from: Square, to: Square) -> BoardModel {
    moved(b, from, to).with_flag(from, false).with_flag(to, false)
}

/// The verdict on moving the piece on `from` to `to`: `None` when there is
/// no piece on `from` or the move is illegal.
///
/// - To an empty square: the quiet-move pattern (a pawn still flagged as
///   never moved may advance two) and, but for a knight, a clear path.
/// - Onto a piece of the same color: only a king onto its rook, as castling.
/// - Onto an enemy piece: the capture pattern and, but for a knight, a clear
///   path.
/// A quiet move or capture must also not leave the mover's king in check.
pub open spec fn move_kind(b: BoardModel, from: Square, to: Square) -> Option<MoveKind> {
    match b.piece(from) {
        None => None,
        Some(p) => {
            let dx = to.file - from.file;
            let dy = to.rank - from.rank;
            let clear = p.kind == PieceKind::Knight || !path_blocked(b, from, to);
            let safe = !in_check(moved(b, from, to), p.color);
            match b.piece(to) {
                None => if shape_ok(p.kind, p.color, dx, dy, b.unmoved_at(from)) && clear && safe {
                    Some(MoveKind::Quiet)
                } else {
                    None
                },
                Some(q) => if q.color == p.color {
                    if p.kind == PieceKind::King && q.kind == PieceKind::Rook && castle_ok(b, from, to) {
                        Some(MoveKind::Castle)
                    } else {
                        None
                    }
                } else if capture_shape_ok(p.kind, p.color, dx, dy) && clear && safe {
                    Some(MoveKind::Capture)
                } else {
                    None
                },
            }
        },
    }
}

/// Judges moving the piece on `from` to `to` on `board`.
pub fn classify_move(board: &Board, from: Square, to: Square) -> (r: Option<MoveKind>)
    requires
        board.wf(),
        from.valid(),
        to.valid(),
    ensures
        r == move_kind(board@, from, to),
{
    let p = match board.get(from) {
        Some(p) => p,
        None => return None,
    };
    let dx = to.file as i8 - from.file as i8;
    let dy = to.rank as i8 - from.rank as i8;
    let capture = match board.get(to) {
        None => false,
        Some(q) => {
            if q.color == p.color {
                if p.kind == PieceKind::King && q.kind == PieceKind::Rook && can_castle(board, from, to) {
                    return Some(MoveKind::Castle);
                }
                return None;
            }
            true
        },
    };
    let shape = if capture {
        is_legal_capture_shape(p.kind, p.color, dx, dy)
    } else {
        is_legal_shape(p.kind, p.color, dx, dy, board.is_unmoved(from))
    };
    if !shape {
        return None;
    }
    if p.kind != PieceKind::Knight && is_blocked(board, from, to) {
        return None;
    }
    let mut trial = board.snapshot();
    trial.set(from, None);
    trial.set(to, Some(p));
    if is_in_check(&trial, p.color) {
        return None;
    }
    if capture {
        Some(MoveKind::Capture)
    } else {
        Some(MoveKind::Quiet)
    }
}

/// Commits a quiet move or capture: the piece on `from` goes to `to`,
/// removing whatever stood there, and both squares are flagged as moved.
pub fn commit_move(board: &mut Board, from: Square, to: Square)
    requires
        old(board).wf(),
        from.valid(),
        to.valid(),
    ensures
        final(board).wf(),
        final(board)@ == committed(old(board)@, from, to),
{
    let p = board.get(from);
    board.set(from, None);
    board.set(to, p);
    board.mark_moved(from);
    board.mark_moved(to);
}

} // verus!
