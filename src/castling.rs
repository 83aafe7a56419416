//! Castling: the king, dragged onto its own rook, moves two squares toward
//! it and the rook jumps to the square the king crossed.

use vstd::prelude::*;

use crate::board::{Board, BoardModel};
use crate::piece::{Color, Piece, PieceKind, Square};
use crate::threat::{in_check, is_in_check};

verus! {

/// Direction of the king's walk: toward the queen side when the rook stands
/// on file 0, else toward the king side.
pub open spec fn castle_dir(rook: Square) -> int {
    if rook.file == 0 {
        -1
    } else {
        1
    }
}

/// The `i`-th square the king crosses, counted from its own square.
pub open spec fn transit(king: Square, rook: Square, i: int) -> Square {
    Square { file: (king.file + i * castle_dir(rook)) as u8, rank: king.rank }
}

/// Where the king lands: file 2 on the queen side, file 6 on the king side.
pub open spec fn king_landing(rook: Square) -> Square {
    Square { file: if rook.file == 0 { 2 } else { 6 }, rank: rook.rank }
}

/// Where the rook lands: file 3 on the queen side, file 5 on the king side.
pub open spec fn rook_landing(rook: Square) -> Square {
    Square { file: if rook.file == 0 { 3 } else { 5 }, rank: rook.rank }
}

/// The board with the king of `c` taken from `from` and put on `s`.
pub open spec fn king_moved(b: BoardModel, from: Square, s: Square, c: Color) -> BoardModel {
    b.with_piece(from, None).with_piece(s, Some(Piece { color: c, kind: PieceKind::King }))
}

/// The king of `c` could stand on `s` on its way: `s` is empty, and with the
/// king moved there it would not be in check.
pub open spec fn transit_safe(b: BoardModel, from: Square, s: Square, c: Color) -> bool {
    b.piece(s) is None && !in_check(king_moved(b, from, s, c), c)
}

/// Castling with the king on `king` and the rook on `rook` is allowed: the
/// king stands on file 4 and its own rook on file 0 or 7 of the same rank,
/// both flagged as never moved; the two squares the king crosses are empty
/// and it is in check on neither; on the queen side file 1 is empty too.
pub open spec fn castle_ok(b: BoardModel, king: Square, rook: Square) -> bool {
    &&& b.piece(king) matches Some(k) && k.kind == PieceKind::King
    &&& b.piece(rook) == Some(Piece { color: b.piece(king)->Some_0.color, kind: PieceKind::Rook })
    &&& king.rank == rook.rank
    &&& king.file == 4
    &&& (rook.file == 0 || rook.file == 7)
    &&& b.unmoved_at(king)
    &&& b.unmoved_at(rook)
    &&& transit_safe(b, king, transit(king, rook, 1), b.piece(king)->Some_0.color)
    &&& transit_safe(b, king, transit(king, rook, 2), b.piece(king)->Some_0.color)
    &&& (rook.file == 0 ==> b.piece(Square { file: 1, rank: rook.rank }) is None)
}

/// The board after castling: king and rook on their landing squares, the
/// squares they left empty, and all four squares flagged as moved.
pub open spec fn castled(b: BoardModel, king: Square, rook: Square) -> BoardModel {
    let c = b.piece(king)->Some_0.color;
    b.with_piece(king, None).with_piece(rook, None).with_piece(
        king_landing(rook),
        Some(Piece { color: c, kind: PieceKind::King }),
    ).with_piece(rook_landing(rook), Some(Piece { color: c, kind: PieceKind::Rook })).with_flag(
        king,
        false,
    ).with_flag(rook, false).with_flag(king_landing(rook), false).with_flag(rook_landing(rook), false)
}

fn is_transit_safe(board: &Board, from: Square, s: Square, c: Color) -> (r: bool)
    requires
        board.wf(),
        from.valid(),
        s.valid(),
    ensures
        r == transit_safe(board@, from, s, c),
{
    if board.get(s).is_some() {
        return false;
    }
    let mut trial = board.snapshot();
    trial.set(from, None);
    trial.set(s, Some(Piece { color: c, kind: PieceKind::King }));
    !is_in_check(&trial, c)
}

/// Whether the king on `king` may castle with the rook on `rook`.
pub fn can_castle(board: &Board, king: Square, rook: Square) -> (r: bool)
    requires
        board.wf(),
        king.valid(),
        rook.valid(),
    ensures
        r == castle_ok(board@, king, rook),
{
    let k = match board.get(king) {
        Some(p) => p,
        None => return false,
    };
    if k.kind != PieceKind::King {
        return false;
    }
    match board.get(rook) {
        Some(p) => {
            if p.kind != PieceKind::Rook || p.color != k.color {
                return false;
            }
        },
        None => return false,
    }
    if king.rank != rook.rank || king.file != 4 || (rook.file != 0 && rook.file != 7) {
        return false;
    }
    if !board.is_unmoved(king) || !board.is_unmoved(rook) {
        return false;
    }
    let (first, second) = if rook.file == 0 {
        (Square { file: 3, rank: king.rank }, Square { file: 2, rank: king.rank })
    } else {
        (Square { file: 5, rank: king.rank }, Square { file: 6, rank: king.rank })
    };
    assert(first == transit(king, rook, 1) && second == transit(king, rook, 2));
    if !is_transit_safe(board, king, first, k.color) || !is_transit_safe(board, king, second, k.color) {
        return false;
    }
    if rook.file == 0 && board.get(Square { file: 1, rank: rook.rank }).is_some() {
        return false;
    }
    true
}

/// Castles: the king goes to file 2 or 6, the rook to file 3 or 5, and the
/// four squares involved are flagged as moved.
pub fn castle(board: &mut Board, king: Square, rook: Square)
    requires
        old(board).wf(),
        king.valid(),
        rook.valid(),
        castle_ok(old(board)@, king, rook),
    ensures
        final(board).wf(),
        final(board)@ == castled(old(board)@, king, rook),
{
    let c = board.get(king).unwrap().color;
    let king_to = Square { file: if rook.file == 0 { 2 } else { 6 }, rank: rook.rank };
    let rook_to = Square { file: if rook.file == 0 { 3 } else { 5 }, rank: rook.rank };
    board.set(king, None);
    board.set(rook, None);
    board.set(king_to, Some(Piece { color: c, kind: PieceKind::King }));
    board.set(rook_to, Some(Piece { color: c, kind: PieceKind::Rook }));
    board.mark_moved(king);
    board.mark_moved(rook);
    board.mark_moved(king_to);
    board.mark_moved(rook_to);
}

} // verus!
