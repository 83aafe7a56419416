//! Board storage: the 8x8 grid of pieces and, per square, whether the piece
//! standing there has never moved. No operation here judges legality.

use vstd::prelude::*;

use crate::piece::{Color, Piece, PieceKind, Square};

verus! {

/// Both coordinates lie on the board.
pub open spec fn on_board(f: int, r: int) -> bool {
    0 <= f < 8 && 0 <= r < 8
}

/// Mathematical model of a board: 64 cells and 64 "never moved" flags,
/// listed rank by rank (the cell of file `f`, rank `r` is at `8 * r + f`).
pub struct BoardModel {
    pub cells: Seq<Option<Piece>>,
    pub unmoved: Seq<bool>,
}

impl BoardModel {
    pub open spec fn wf(self) -> bool {
        self.cells.len() == 64 && self.unmoved.len() == 64
    }

    /// The content of the cell at `(f, r)`.
    pub open spec fn at(self, f: int, r: int) -> Option<Piece> {
        self.cells[r * 8 + f]
    }

    pub open spec fn piece(self, s: Square) -> Option<Piece> {
        self.at(s.file as int, s.rank as int)
    }

    /// `(f, r)` is on the board and holds a piece.
    pub open spec fn occupied(self, f: int, r: int) -> bool {
        on_board(f, r) && self.at(f, r) is Some
    }

    /// A piece of `c` stands on `s`.
    pub open spec fn owned_by(self, s: Square, c: Color) -> bool {
        self.piece(s) matches Some(p) && p.color == c
    }

    /// The flag of `s` shows that its occupant has never moved.
    pub open spec fn unmoved_at(self, s: Square) -> bool {
        self.unmoved[s.index()]
    }

    pub open spec fn with_piece(self, s: Square, p: Option<Piece>) -> BoardModel {
        BoardModel { cells: self.cells.update(s.index(), p), unmoved: self.unmoved }
    }

    pub open spec fn with_flag(self, s: Square, unmoved: bool) -> BoardModel {
        BoardModel { cells: self.cells, unmoved: self.unmoved.update(s.index(), unmoved) }
    }

    /// A board with no pieces and no flag set.
    pub open spec fn empty() -> BoardModel {
        BoardModel { cells: Seq::new(64, |i: int| None), unmoved: Seq::new(64, |i: int| false) }
    }

    /// The standard starting position; every occupied square is flagged as
    /// never moved.
    pub open spec fn initial() -> BoardModel {
        BoardModel {
            cells: Seq::new(64, |i: int| initial_piece(i % 8, i / 8)),
            unmoved: Seq::new(64, |i: int| initial_piece(i % 8, i / 8) is Some),
        }
    }
}

/// The kind that starts on file `f` of a back rank.
pub open spec fn back_rank_kind(f: int) -> PieceKind {
    if f == 0 || f == 7 {
        PieceKind::Rook
    } else if f == 1 || f == 6 {
        PieceKind::Knight
    } else if f == 2 || f == 5 {
        PieceKind::Bishop
    } else if f == 3 {
        PieceKind::Queen
    } else {
        PieceKind::King
    }
}

/// The piece on `(f, r)` in the starting position.
pub open spec fn initial_piece(f: int, r: int) -> Option<Piece> {
    if r == 0 {
        Some(Piece { color: Color::White, kind: back_rank_kind(f) })
    } else if r == 1 {
        Some(Piece { color: Color::White, kind: PieceKind::Pawn })
    } else if r == 6 {
        Some(Piece { color: Color::Black, kind: PieceKind::Pawn })
    } else if r == 7 {
        Some(Piece { color: Color::Black, kind: back_rank_kind(f) })
    } else {
        None
    }
}

fn back_rank_kind_of(f: u8) -> (k: PieceKind)
    ensures
        k == back_rank_kind(f as int),
{
    if f == 0 || f == 7 {
        PieceKind::Rook
    } else if f == 1 || f == 6 {
        PieceKind::Knight
    } else if f == 2 || f == 5 {
        PieceKind::Bishop
    } else if f == 3 {
        PieceKind::Queen
    } else {
        PieceKind::King
    }
}

fn initial_piece_of(f: u8, r: u8) -> (p: Option<Piece>)
    ensures
        p == initial_piece(f as int, r as int),
{
    if r == 0 {
        Some(Piece { color: Color::White, kind: back_rank_kind_of(f) })
    } else if r == 1 {
        Some(Piece { color: Color::White, kind: PieceKind::Pawn })
    } else if r == 6 {
        Some(Piece { color: Color::Black, kind: PieceKind::Pawn })
    } else if r == 7 {
        Some(Piece { color: Color::Black, kind: back_rank_kind_of(f) })
    } else {
        None
    }
}

/// The 8x8 board with its per-square "never moved" flags.
pub struct Board {
    cells: Vec<Option<Piece>>,
    unmoved: Vec<bool>,
}

impl View for Board {
    type V = BoardModel;

    closed spec fn view(&self) -> BoardModel {
        BoardModel { cells: self.cells@, unmoved: self.unmoved@ }
    }
}

impl Board {
    pub open spec fn wf(&self) -> bool {
        self@.wf()
    }

    /// A board with no pieces.
    pub fn empty() -> (b: Board)
        ensures
            b.wf(),
            b@ == BoardModel::empty(),
    {
        let mut cells: Vec<Option<Piece>> = Vec::new();
        let mut unmoved: Vec<bool> = Vec::new();
        let mut i: usize = 0;
        while i < 64
            invariant
                i <= 64,
                cells.len() == i,
                unmoved.len() == i,
                forall|j: int| 0 <= j < i ==> cells@[j] is None,
                forall|j: int| 0 <= j < i ==> !unmoved@[j],
            decreases 64 - i,
        {
            cells.push(None);
            unmoved.push(false);
            i = i + 1;
        }
        let b = Board { cells, unmoved };
        assert(b@.cells =~= BoardModel::empty().cells);
        assert(b@.unmoved =~= BoardModel::empty().unmoved);
        b
    }

    /// The standard starting position, every piece flagged as never moved.
    pub fn standard() -> (b: Board)
        ensures
            b.wf(),
            b@ == BoardModel::initial(),
    {
        let mut cells: Vec<Option<Piece>> = Vec::new();
        let mut unmoved: Vec<bool> = Vec::new();
        let mut i: u8 = 0;
        while i < 64
            invariant
                i <= 64,
                cells.len() == i,
                unmoved.len() == i,
                forall|j: int| 0 <= j < i ==> cells@[j] == initial_piece(j % 8, j / 8),
                forall|j: int| 0 <= j < i ==> unmoved@[j] == (initial_piece(j % 8, j / 8) is Some),
            decreases 64 - i,
        {
            let p = initial_piece_of(i % 8, i / 8);
            cells.push(p);
            unmoved.push(p.is_some());
            i = i + 1;
        }
        let b = Board { cells, unmoved };
        assert(b@.cells =~= BoardModel::initial().cells);
        assert(b@.unmoved =~= BoardModel::initial().unmoved);
        b
    }

    /// The piece on `s`, if any.
    pub fn get(&self, s: Square) -> (p: Option<Piece>)
        requires
            self.wf(),
            s.valid(),
        ensures
            p == self@.piece(s),
    {
        self.cells[(s.rank as usize) * 8 + (s.file as usize)]
    }

    /// Puts `p` on `s` (or clears it), leaving the flags as they are.
    pub fn set(&mut self, s: Square, p: Option<Piece>)
        requires
            old(self).wf(),
            s.valid(),
        ensures
            final(self).wf(),
            final(self)@ == old(self)@.with_piece(s, p),
    {
        self.cells.set((s.rank as usize) * 8 + (s.file as usize), p);
    }

    /// Whether the flag of `s` shows that its occupant has never moved.
    pub fn is_unmoved(&self, s: Square) -> (r: bool)
        requires
            self.wf(),
            s.valid(),
        ensures
            r == self@.unmoved_at(s),
    {
        self.unmoved[(s.rank as usize) * 8 + (s.file as usize)]
    }

    /// Records that the occupant of `s` has moved.
    pub fn mark_moved(&mut self, s: Square)
        requires
            old(self).wf(),
            s.valid(),
        ensures
            final(self).wf(),
            final(self)@ == old(self)@.with_flag(s, false),
    {
        self.unmoved.set((s.rank as usize) * 8 + (s.file as usize), false);
    }

    /// Places `p` on `s` as a piece that has never moved.
    pub fn spawn(&mut self, s: Square, p: Piece)
        requires
            old(self).wf(),
            s.valid(),
        ensures
            final(self).wf(),
            final(self)@ == old(self)@.with_piece(s, Some(p)).with_flag(s, true),
    {
        let i = (s.rank as usize) * 8 + (s.file as usize);
        self.cells.set(i, Some(p));
        self.unmoved.set(i, true);
    }

    /// An independent copy, for trying a move without touching this board.
    pub fn snapshot(&self) -> (b: Board)
        requires
            self.wf(),
        ensures
            b@ == self@,
    {
        let mut cells: Vec<Option<Piece>> = Vec::new();
        let mut unmoved: Vec<bool> = Vec::new();
        let mut i: usize = 0;
        while i < 64
            invariant
                self.wf(),
                i <= 64,
                cells@ == self@.cells.subrange(0, i as int),
                unmoved@ == self@.unmoved.subrange(0, i as int),
            decreases 64 - i,
        {
            cells.push(self.cells[i]);
            unmoved.push(self.unmoved[i]);
            i = i + 1;
            assert(cells@ =~= self@.cells.subrange(0, i as int));
            assert(unmoved@ =~= self@.unmoved.subrange(0, i as int));
        }
        let b = Board { cells, unmoved };
        assert(b@.cells =~= self@.cells);
        assert(b@.unmoved =~= self@.unmoved);
        b
    }
}

} // verus!
