//! The turn controller: a state machine over the board, the side to move and
//! the current phase, driven by selection, target and promotion events.

use vstd::prelude::*;

use crate::board::{Board, BoardModel};
use crate::castling::{castle, castled, king_landing, rook_landing};
use crate::piece::{Color, Piece, PieceKind, Square};
use crate::rules::{classify_move, commit_move, committed, move_kind, MoveKind};

verus! {

/// What the controller waits for.
#[derive(Clone, Copy, Debug, PartialEq, Eq, Structural)]
pub enum Phase {
    /// A piece of the side to move must be selected.
    AwaitingSelection,
    /// The piece on this square is selected; a target is awaited.
    PieceSelected(Square),
    /// The pawn of this color on this square waits for its new kind.
    AwaitingPromotionChoice(Square, Color),
}

/// What an event did, for the presentation layer.
#[derive(Clone, Copy, Debug, PartialEq, Eq, Structural)]
pub enum Effect {
    /// The piece on this square is now selected.
    Selected(Square),
    /// A quiet move or capture was committed; `captured` is the square of the
    /// removed piece.
    MoveCommitted { from: Square, to: Square, captured: Option<Square> },
    /// A move was committed that brought a pawn to its last rank; the game now
    /// waits for the pawn's new kind.
    PromotionPending { from: Square, to: Square, captured: Option<Square>, color: Color },
    /// King and rook were relocated by castling.
    CastlePerformed { king_from: Square, king_to: Square, rook_from: Square, rook_to: Square },
    /// The pawn on this square became a piece of this kind.
    PromotionResolved(Square, PieceKind),
    /// The proposed move is illegal; nothing changed.
    MoveRejected,
    /// The event does not apply in this phase; nothing changed.
    Ignored,
}

/// Mathematical model of a game.
pub struct GameModel {
    pub board: BoardModel,
    pub active: Color,
    pub phase: Phase,
}

impl GameModel {
    /// The board is well formed, a selected square holds a piece of the side
    /// to move, and a pending promotion names a square of the board.
    pub open spec fn wf(self) -> bool {
        &&& self.board.wf()
        &&& match self.phase {
            Phase::AwaitingSelection => true,
            Phase::PieceSelected(s) => s.valid() && self.board.owned_by(s, self.active),
            Phase::AwaitingPromotionChoice(s, c) => s.valid(),
        }
    }

    pub open spec fn with_phase(self, phase: Phase) -> GameModel {
        GameModel { board: self.board, active: self.active, phase }
    }
}

/// The effect reports an accepted move.
pub open spec fn is_move(e: Effect) -> bool {
    e is MoveCommitted || e is PromotionPending || e is CastlePerformed
}

/// The kinds a pawn may become.
pub open spec fn promotable(kind: PieceKind) -> bool {
    kind == PieceKind::Queen || kind == PieceKind::Rook || kind == PieceKind::Bishop || kind
        == PieceKind::Knight
}

/// A selection event on `s`: outside a pending promotion, a piece of the
/// side to move becomes the selected piece; anything else changes nothing.
pub open spec fn select_step(g: GameModel, s: Square) -> (GameModel, Effect) {
    match g.phase {
        Phase::AwaitingPromotionChoice(_, _) => (g, Effect::Ignored),
        _ => if g.board.owned_by(s, g.active) {
            (g.with_phase(Phase::PieceSelected(s)), Effect::Selected(s))
        } else {
            (g, Effect::Ignored)
        },
    }
}

/// The effect and phase after the piece on `from` moved to `to` as `kind`
/// on board `b` (the board before the move).
pub open spec fn after_move(b: BoardModel, from: Square, to: Square, kind: MoveKind) -> (Phase, Effect) {
    let p = b.piece(from)->Some_0;
    let captured = if kind == MoveKind::Capture {
        Some(to)
    } else {
        None
    };
    if p.kind == PieceKind::Pawn && to.rank == p.color.spec_last_rank() {
        (
            Phase::AwaitingPromotionChoice(to, p.color),
            Effect::PromotionPending { from, to, captured, color: p.color },
        )
    } else {
        (Phase::AwaitingSelection, Effect::MoveCommitted { from, to, captured })
    }
}

/// A target event on `dst`: with a piece selected, the move is judged; a
/// rejected move changes nothing and keeps the selection, an accepted one is
/// committed and passes the turn. In other phases nothing changes.
pub open spec fn target_step(g: GameModel, dst: Square) -> (GameModel, Effect) {
    match g.phase {
        Phase::PieceSelected(src) => match move_kind(g.board, src, dst) {
            None => (g, Effect::MoveRejected),
            Some(MoveKind::Castle) => (
                GameModel {
                    board: castled(g.board, src, dst),
                    active: g.active.spec_opponent(),
                    phase: Phase::AwaitingSelection,
                },
                Effect::CastlePerformed {
                    king_from: src,
                    king_to: king_landing(dst),
                    rook_from: dst,
                    rook_to: rook_landing(dst),
                },
            ),
            Some(kind) => (
                GameModel {
                    board: committed(g.board, src, dst),
                    active: g.active.spec_opponent(),
                    phase: after_move(g.board, src, dst, kind).0,
                },
                after_move(g.board, src, dst, kind).1,
            ),
        },
        _ => (g, Effect::Ignored),
    }
}

/// A promotion choice: while a pawn waits, a queen, rook, bishop or knight
/// of the pawn's color replaces it, flagged as moved. Otherwise nothing
/// changes.
pub open spec fn promotion_step(g: GameModel, kind: PieceKind) -> (GameModel, Effect) {
    match g.phase {
        Phase::AwaitingPromotionChoice(s, c) => if promotable(kind) {
            (
                GameModel {
                    board: g.board.with_piece(s, Some(Piece { color: c, kind })).with_flag(s, false),
                    active: g.active,
                    phase: Phase::AwaitingSelection,
                },
                Effect::PromotionResolved(s, kind),
            )
        } else {
            (g, Effect::Ignored)
        },
        _ => (g, Effect::Ignored),
    }
}

/// A game in progress.
pub struct Game {
    board: Board,
    active: Color,
    phase: Phase,
}

impl View for Game {
    type V = GameModel;

    closed spec fn view(&self) -> GameModel {
        GameModel { board: self.board@, active: self.active, phase: self.phase }
    }
}

impl Game {
    pub open spec fn wf(&self) -> bool {
        self@.wf()
    }

    /// The standard starting position, White to move.
    pub fn new() -> (g: Game)
        ensures
            g.wf(),
            g@ == (GameModel {
                board: BoardModel::initial(),
                active: Color::White,
                phase: Phase::AwaitingSelection,
            }),
    {
        Game { board: Board::standard(), active: Color::White, phase: Phase::AwaitingSelection }
    }

    /// A game from the given position with `active` to move.
    pub fn from_position(board: Board, active: Color) -> (g: Game)
        requires
            board.wf(),
        ensures
            g.wf(),
            g@ == (GameModel { board: board@, active, phase: Phase::AwaitingSelection }),
    {
        Game { board, active, phase: Phase::AwaitingSelection }
    }

    pub fn board(&self) -> (b: &Board)
        ensures
            b@ == self@.board,
    {
        &self.board
    }

    /// The side to move.
    pub fn active(&self) -> (c: Color)
        ensures
            c == self@.active,
    {
        self.active
    }

    pub fn phase(&self) -> (p: Phase)
        ensures
            p == self@.phase,
    {
        self.phase
    }

    /// Handles a selection event on `s`.
    pub fn select(&mut self, s: Square) -> (e: Effect)
        requires
            old(self).wf(),
            s.valid(),
        ensures
            final(self).wf(),
            (final(self)@, e) == select_step(old(self)@, s),
    {
        if let Phase::AwaitingPromotionChoice(_, _) = self.phase {
            return Effect::Ignored;
        }
        match self.board.get(s) {
            Some(p) => {
                if p.color == self.active {
                    self.phase = Phase::PieceSelected(s);
                    Effect::Selected(s)
                } else {
                    Effect::Ignored
                }
            },
            None => Effect::Ignored,
        }
    }

    /// Handles a target event on `dst`: runs the move-acceptance rules on the
    /// selected piece and commits the move if it is legal.
    pub fn propose_target(&mut self, dst: Square) -> (e: Effect)
        requires
            old(self).wf(),
            dst.valid(),
        ensures
            final(self).wf(),
            (final(self)@, e) == target_step(old(self)@, dst),
    {
        let src = match self.phase {
            Phase::PieceSelected(src) => src,
            _ => return Effect::Ignored,
        };
        let kind = match classify_move(&self.board, src, dst) {
            Some(kind) => kind,
            None => return Effect::MoveRejected,
        };
        let p = self.board.get(src).unwrap();
        match kind {
            MoveKind::Castle => {
                let king_to = Square { file: if dst.file == 0 { 2 } else { 6 }, rank: dst.rank };
                let rook_to = Square { file: if dst.file == 0 { 3 } else { 5 }, rank: dst.rank };
                castle(&mut self.board, src, dst);
                self.active = self.active.opponent();
                self.phase = Phase::AwaitingSelection;
                Effect::CastlePerformed { king_from: src, king_to, rook_from: dst, rook_to }
            },
            _ => {
                let captured = if kind == MoveKind::Capture {
                    Some(dst)
                } else {
                    None
                };
                commit_move(&mut self.board, src, dst);
                self.active = self.active.opponent();
                if p.kind == PieceKind::Pawn && dst.rank == p.color.last_rank() {
                    self.phase = Phase::AwaitingPromotionChoice(dst, p.color);
                    Effect::PromotionPending { from: src, to: dst, captured, color: p.color }
                } else {
                    self.phase = Phase::AwaitingSelection;
                    Effect::MoveCommitted { from: src, to: dst, captured }
                }
            },
        }
    }

    /// Handles a promotion choice of `kind`.
    pub fn choose_promotion(&mut self, kind: PieceKind) -> (e: Effect)
        requires
            old(self).wf(),
        ensures
            final(self).wf(),
            (final(self)@, e) == promotion_step(old(self)@, kind),
    {
        let (s, c) = match self.phase {
            Phase::AwaitingPromotionChoice(s, c) => (s, c),
            _ => return Effect::Ignored,
        };
        match kind {
            PieceKind::Queen | PieceKind::Rook | PieceKind::Bishop | PieceKind::Knight => {
                self.board.set(s, Some(Piece { color: c, kind }));
                self.board.mark_moved(s);
                self.phase = Phase::AwaitingSelection;
                Effect::PromotionResolved(s, kind)
            },
            _ => Effect::Ignored,
        }
    }
}

} // verus!
