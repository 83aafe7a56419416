//! Properties of the rules that relate several operations, proved over the
//! models that the operations' contracts use.

use vstd::prelude::*;

use crate::board::BoardModel;
use crate::castling::{king_landing, king_moved, rook_landing, transit};
use crate::game::{is_move, promotable, promotion_step, select_step, target_step, Effect, GameModel, Phase};
use crate::path::{distance, path_blocked, step_file, step_rank};
use crate::pattern::forward;
use crate::piece::{Color, Piece, PieceKind, Square};
use crate::rules::{move_kind, moved, MoveKind};
use crate::threat::in_check;

verus! {

/// A quiet move or capture that would leave the mover's own king in check
/// is rejected, whatever its shape and path, and changes nothing.
pub proof fn self_check_rejected(g: GameModel, src: Square, dst: Square)
    requires
        g.wf(),
        dst.valid(),
        g.phase == Phase::PieceSelected(src),
        !g.board.owned_by(dst, g.active),
        in_check(moved(g.board, src, dst), g.active),
    ensures
        move_kind(g.board, src, dst) is None,
        target_step(g, dst) == (g, Effect::MoveRejected),
{
}

/// With the king on file 4 and its own rook on file 0 or 7 of the same
/// rank, dragging the king onto the rook is refused, changing nothing, if
/// either square is flagged as moved, if a square the king crosses (or, on
/// the queen side, file 1) is occupied, or if the king would be in check on
/// a square it crosses. Otherwise king and rook both land on their castled
/// squares in one step, the four squares involved are flagged as moved, and
/// the turn passes.
pub proof fn castling_rule(g: GameModel, king: Square, rook: Square)
    requires
        g.wf(),
        rook.valid(),
        g.phase == Phase::PieceSelected(king),
        g.board.piece(king) == Some(Piece { color: g.active, kind: PieceKind::King }),
        g.board.piece(rook) == Some(Piece { color: g.active, kind: PieceKind::Rook }),
        king.file == 4,
        king.rank == rook.rank,
        rook.file == 0 || rook.file == 7,
    ensures
        ({
            let b = g.board;
            let t1 = transit(king, rook, 1);
            let t2 = transit(king, rook, 2);
            let refused = {
                ||| !b.unmoved_at(king)
                ||| !b.unmoved_at(rook)
                ||| b.piece(t1) is Some
                ||| b.piece(t2) is Some
                ||| (rook.file == 0 && b.piece(Square { file: 1, rank: rook.rank }) is Some)
                ||| in_check(king_moved(b, king, t1, g.active), g.active)
                ||| in_check(king_moved(b, king, t2, g.active), g.active)
            };
            let (g2, e) = target_step(g, rook);
            &&& refused ==> g2 == g && e == Effect::MoveRejected
            &&& !refused ==> {
                &&& e == Effect::CastlePerformed {
                    king_from: king,
                    king_to: king_landing(rook),
                    rook_from: rook,
                    rook_to: rook_landing(rook),
                }
                &&& g2.board.piece(king_landing(rook)) == Some(
                    Piece { color: g.active, kind: PieceKind::King },
                )
                &&& g2.board.piece(rook_landing(rook)) == Some(
                    Piece { color: g.active, kind: PieceKind::Rook },
                )
                &&& g2.board.piece(king) is None
                &&& g2.board.piece(rook) is None
                &&& !g2.board.unmoved_at(king)
                &&& !g2.board.unmoved_at(rook)
                &&& !g2.board.unmoved_at(king_landing(rook))
                &&& !g2.board.unmoved_at(rook_landing(rook))
                &&& g2.active == g.active.spec_opponent()
                &&& g2.phase == Phase::AwaitingSelection
            }
        }),
{
}

/// A pawn of `c` advances one square straight ahead onto an empty square.
/// It advances two when its square is flagged as never moved and both
/// squares ahead are empty, and never once it is flagged as moved. Advances
/// that would leave its own king in check are left out: those are refused
/// for that reason alone.
pub proof fn pawn_advance(b: BoardModel, from: Square, to: Square, c: Color)
    requires
        b.wf(),
        from.valid(),
        to.valid(),
        b.piece(from) == Some(Piece { color: c, kind: PieceKind::Pawn }),
        to.file == from.file,
        b.piece(to) is None,
        !in_check(moved(b, from, to), c),
    ensures
        forward(c, to.rank - from.rank) == 1 ==> move_kind(b, from, to) == Some(MoveKind::Quiet),
        forward(c, to.rank - from.rank) == 2 ==> (move_kind(b, from, to) == Some(MoveKind::Quiet)
            <==> (b.unmoved_at(from) && b.piece(
            Square { file: from.file, rank: ((from.rank + to.rank) / 2) as u8 },
        ) is None)),
{
    let mid = Square { file: from.file, rank: ((from.rank + to.rank) / 2) as u8 };
    if forward(c, to.rank - from.rank) == 1 {
        assert(!path_blocked(b, from, to));
    }
    if forward(c, to.rank - from.rank) == 2 {
        if b.piece(mid) is Some {
            assert(b.occupied(step_file(from, to, 1), step_rank(from, to, 1)));
        } else {
            assert forall|k: int| 0 < k < distance(from, to) implies
                !#[trigger] b.occupied(step_file(from, to, k), step_rank(from, to, k)) by {
                assert(k == 1);
            }
        }
    }
}

/// After a target event in a phase other than a pending promotion, the game
/// waits for a promotion choice exactly when a move was accepted that
/// brought a pawn to the last rank of its color.
pub proof fn promotion_trigger(g: GameModel, dst: Square)
    requires
        g.wf(),
        dst.valid(),
        !(g.phase is AwaitingPromotionChoice),
    ensures
        (target_step(g, dst).0.phase is AwaitingPromotionChoice) <==> (g.phase is PieceSelected
            && move_kind(g.board, g.phase->PieceSelected_0, dst) is Some && g.board.piece(
            g.phase->PieceSelected_0,
        )->Some_0.kind == PieceKind::Pawn && dst.rank == g.board.piece(
            g.phase->PieceSelected_0,
        )->Some_0.color.spec_last_rank()),
{
}

/// While a promotion is pending, selection and target events change nothing.
pub proof fn promotion_suspends(g: GameModel, s: Square)
    requires
        g.phase is AwaitingPromotionChoice,
    ensures
        select_step(g, s) == (g, Effect::Ignored),
        target_step(g, s) == (g, Effect::Ignored),
{
}

/// Choosing a queen, rook, bishop or knight for the waiting pawn replaces it
/// by a piece of that kind and the pawn's color, flagged as moved, and ends
/// the wait.
pub proof fn promotion_result(g: GameModel, s: Square, c: Color, kind: PieceKind)
    requires
        g.wf(),
        g.phase == Phase::AwaitingPromotionChoice(s, c),
        promotable(kind),
    ensures
        promotion_step(g, kind).0.board.piece(s) == Some(Piece { color: c, kind }),
        !promotion_step(g, kind).0.board.unmoved_at(s),
        promotion_step(g, kind).0.phase == Phase::AwaitingSelection,
        promotion_step(g, kind).1 == Effect::PromotionResolved(s, kind),
{
}

/// The side to move changes exactly once per accepted move, castling
/// included; a rejected move changes nothing, and selections and promotion
/// choices never change the side to move.
pub proof fn turn_alternation(g: GameModel, s: Square, kind: PieceKind)
    requires
        g.wf(),
        s.valid(),
    ensures
        target_step(g, s).0.active == if is_move(target_step(g, s).1) {
            g.active.spec_opponent()
        } else {
            g.active
        },
        !is_move(target_step(g, s).1) ==> target_step(g, s).0 == g,
        select_step(g, s).0.active == g.active,
        promotion_step(g, kind).0.active == g.active,
{
}

} // verus!
