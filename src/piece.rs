//! Colors, piece kinds, pieces and board squares.

use vstd::prelude::*;

verus! {

/// The two sides.
#[derive(Clone, Copy, Debug, PartialEq, Eq, Structural)]
pub enum Color {
    White,
    Black,
}

/// The six kinds of chess pieces.
#[derive(Clone, Copy, Debug, PartialEq, Eq, Structural)]
pub enum PieceKind {
    King,
    Queen,
    Rook,
    Bishop,
    Knight,
    Pawn,
}

/// A piece is a color and a kind; replacing a piece replaces the value.
#[derive(Clone, Copy, Debug, PartialEq, Eq, Structural)]
pub struct Piece {
    pub color: Color,
    pub kind: PieceKind,
}

/// A board square, addressed by file (column) and rank (row), both in 0..8.
#[derive(Clone, Copy, Debug, PartialEq, Eq, Structural)]
pub struct Square {
    pub file: u8,
    pub rank: u8,
}

impl Color {
    pub open spec fn spec_opponent(self) -> Color {
        match self {
            Color::White => Color::Black,
            Color::Black => Color::White,
        }
    }

    /// The other side.
    #[verifier::when_used_as_spec(spec_opponent)]
    pub fn opponent(self) -> (r: Color)
        ensures
            r == self.spec_opponent(),
    {
        match self {
            Color::White => Color::Black,
            Color::Black => Color::White,
        }
    }

    /// The rank a pawn of this color promotes on.
    pub open spec fn spec_last_rank(self) -> u8 {
        match self {
            Color::White => 7,
            Color::Black => 0,
        }
    }

    /// The rank a pawn of this color promotes on.
    #[verifier::when_used_as_spec(spec_last_rank)]
    pub fn last_rank(self) -> (r: u8)
        ensures
            r == self.spec_last_rank(),
    {
        match self {
            Color::White => 7,
            Color::Black => 0,
        }
    }
}

/// The chess glyph of a piece: outlined for White, filled for Black.
pub open spec fn glyph(p: Piece) -> char {
    match (p.color, p.kind) {
        (Color::White, PieceKind::King) => '\u{2654}',
        (Color::White, PieceKind::Queen) => '\u{2655}',
        (Color::White, PieceKind::Rook) => '\u{2656}',
        (Color::White, PieceKind::Bishop) => '\u{2657}',
        (Color::White, PieceKind::Knight) => '\u{2658}',
        (Color::White, PieceKind::Pawn) => '\u{2659}',
        (Color::Black, PieceKind::King) => '\u{265A}',
        (Color::Black, PieceKind::Queen) => '\u{265B}',
        (Color::Black, PieceKind::Rook) => '\u{265C}',
        (Color::Black, PieceKind::Bishop) => '\u{265D}',
        (Color::Black, PieceKind::Knight) => '\u{265E}',
        (Color::Black, PieceKind::Pawn) => '\u{265F}',
    }
}

impl Piece {
    /// The glyph used to print this piece.
    pub fn symbol(&self) -> (c: char)
        ensures
            c == glyph(*self),
    {
        match (self.color, self.kind) {
            (Color::White, PieceKind::King) => '\u{2654}',
            (Color::White, PieceKind::Queen) => '\u{2655}',
            (Color::White, PieceKind::Rook) => '\u{2656}',
            (Color::White, PieceKind::Bishop) => '\u{2657}',
            (Color::White, PieceKind::Knight) => '\u{2658}',
            (Color::White, PieceKind::Pawn) => '\u{2659}',
            (Color::Black, PieceKind::King) => '\u{265A}',
            (Color::Black, PieceKind::Queen) => '\u{265B}',
            (Color::Black, PieceKind::Rook) => '\u{265C}',
            (Color::Black, PieceKind::Bishop) => '\u{265D}',
            (Color::Black, PieceKind::Knight) => '\u{265E}',
            (Color::Black, PieceKind::Pawn) => '\u{265F}',
        }
    }

    pub fn new(color: Color, kind: PieceKind) -> (r: Piece)
        ensures
            r.color == color,
            r.kind == kind,
    {
        Piece { color, kind }
    }
}

impl Square {
    /// Both coordinates lie on the 8x8 board.
    pub open spec fn valid(self) -> bool {
        self.file < 8 && self.rank < 8
    }

    /// Position of the square in a rank-major listing of the board.
    pub open spec fn index(self) -> int {
        self.rank * 8 + self.file
    }

    /// The square at `(file, rank)`, or `None` when either is off the board.
    pub fn new(file: u8, rank: u8) -> (r: Option<Square>)
        ensures
            r is Some <==> (file < 8 && rank < 8),
            r matches Some(s) ==> s.file == file && s.rank == rank,
    {
        if file < 8 && rank < 8 {
            Some(Square { file, rank })
        } else {
            None
        }
    }
}

} // verus!
