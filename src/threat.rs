//! Check detection: is a side's king attacked by an enemy piece?

use vstd::prelude::*;

use crate::board::{on_board, Board, BoardModel};
use crate::path::{along, distance, path_blocked, sign, step_file, step_rank};
use crate::pattern::{capture_shape_ok, is_legal_capture_shape};
use crate::piece::{Color, Piece, PieceKind, Square};

verus! {

/// Index of `color`'s king among the first `n` cells: the last one found in
/// rank-major order (a board is expected to hold at most one).
pub open spec fn king_index(cells: Seq<Option<Piece>>, color: Color, n: nat) -> Option<int>
    decreases n,
{
    if n == 0 {
        None
    } else if cells[n - 1] == Some(Piece { color, kind: PieceKind::King }) {
        Some(n - 1)
    } else {
        king_index(cells, color, (n - 1) as nat)
    }
}

/// The square of the cell at `i` in rank-major order.
pub open spec fn square_of(i: int) -> Square {
    Square { file: (i % 8) as u8, rank: (i / 8) as u8 }
}

/// The square of `color`'s king, if it has one on the board.
pub open spec fn king_square(b: BoardModel, color: Color) -> Option<Square> {
    match king_index(b.cells, color, 64) {
        Some(i) => Some(square_of(i)),
        None => None,
    }
}

/// The piece on `from` could capture on `to`: its capture pattern matches
/// and, unless it is a knight, nothing stands between the two squares.
pub open spec fn attacks(b: BoardModel, from: Square, to: Square) -> bool {
    match b.piece(from) {
        Some(p) => {
            &&& capture_shape_ok(p.kind, p.color, to.file - from.file, to.rank - from.rank)
            &&& (p.kind == PieceKind::Knight || !path_blocked(b, from, to))
        },
        None => false,
    }
}

/// Some piece of `enemy` attacks `target`.
pub open spec fn attacked_by(b: BoardModel, target: Square, enemy: Color) -> bool {
    exists|s: Square|
        s.valid() && #[trigger] attacks(b, s, target) && b.owned_by(s, enemy)
}

/// `color`'s king stands on the board and an enemy piece attacks it.
pub open spec fn in_check(b: BoardModel, color: Color) -> bool {
    match king_square(b, color) {
        Some(k) => attacked_by(b, k, color.spec_opponent()),
        None => false,
    }
}

/// An enemy knight stands a knight's jump away from `k`.
pub open spec fn knight_hits(b: BoardModel, k: Square, enemy: Color) -> bool {
    exists|s: Square|
        s.valid() && #[trigger] b.piece(s) == Some(Piece { color: enemy, kind: PieceKind::Knight })
            && capture_shape_ok(PieceKind::Knight, enemy, k.file - s.file, k.rank - s.rank)
}

/// The `j`-th square from `k` in direction `(df, dr)` is the first occupied one.
pub open spec fn first_hit(b: BoardModel, k: Square, df: int, dr: int, j: int) -> bool {
    &&& j > 0
    &&& b.occupied(along(k.file as int, df, j), along(k.rank as int, dr, j))
    &&& forall|i: int|
        0 < i < j ==> !#[trigger] b.occupied(along(k.file as int, df, i), along(k.rank as int, dr, i))
}

/// The piece on `(f, r)` belongs to `enemy` and its capture pattern reaches `k`.
pub open spec fn threatens(b: BoardModel, f: int, r: int, k: Square, enemy: Color) -> bool {
    b.at(f, r) matches Some(p) && p.color == enemy && capture_shape_ok(p.kind, enemy, k.file - f, k.rank - r)
}

/// The first piece met from `k` in direction `(df, dr)` threatens `k`.
pub open spec fn ray_hits(b: BoardModel, k: Square, df: int, dr: int, enemy: Color) -> bool {
    exists|j: int|
        #[trigger] first_hit(b, k, df, dr, j) && threatens(
            b,
            along(k.file as int, df, j),
            along(k.rank as int, dr, j),
            k,
            enemy,
        )
}

pub open spec fn unit(d: int) -> bool {
    -1 <= d <= 1
}

proof fn lemma_king_index(cells: Seq<Option<Piece>>, color: Color, n: nat)
    ensures
        king_index(cells, color, n) matches Some(i) ==> 0 <= i < n && cells[i] == Some(
            Piece { color, kind: PieceKind::King },
        ),
    decreases n,
{
    if n > 0 {
        lemma_king_index(cells, color, (n - 1) as nat);
    }
}

proof fn lemma_square_of(i: int)
    requires
        0 <= i < 64,
    ensures
        square_of(i).valid(),
        square_of(i).index() == i,
{
}

/// A piece that attacks `k` along a line is the first piece met on the ray
/// from `k` toward it.
proof fn lemma_attack_on_ray(b: BoardModel, k: Square, s: Square, enemy: Color)
    requires
        b.wf(),
        k.valid(),
        s.valid(),
        attacks(b, s, k),
        b.owned_by(s, enemy),
        b.piece(s)->Some_0.kind != PieceKind::Knight,
    ensures
        ray_hits(b, k, sign(s.file - k.file), sign(s.rank - k.rank), enemy),
{
    let df = sign(s.file - k.file);
    let dr = sign(s.rank - k.rank);
    let j = distance(k, s);
    assert(along(k.file as int, df, j) == s.file && along(k.rank as int, dr, j) == s.rank);
    assert forall|i: int| 0 < i < j implies !#[trigger] b.occupied(
        along(k.file as int, df, i),
        along(k.rank as int, dr, i),
    ) by {
        let m = j - i;
        assert(step_file(s, k, m) == along(k.file as int, df, i));
        assert(step_rank(s, k, m) == along(k.rank as int, dr, i));
        assert(!b.occupied(step_file(s, k, m), step_rank(s, k, m)));
    }
    assert(first_hit(b, k, df, dr, j));
}

/// The first piece met on a ray from `k` that threatens `k` attacks it.
proof fn lemma_ray_hit_attacks(b: BoardModel, k: Square, df: int, dr: int, j: int, enemy: Color)
    requires
        b.wf(),
        k.valid(),
        unit(df),
        unit(dr),
        first_hit(b, k, df, dr, j),
        threatens(b, along(k.file as int, df, j), along(k.rank as int, dr, j), k, enemy),
    ensures
        ({
            let s = Square {
                file: along(k.file as int, df, j) as u8,
                rank: along(k.rank as int, dr, j) as u8,
            };
            s.valid() && attacks(b, s, k) && b.owned_by(s, enemy)
        }),
{
    let s = Square {
        file: along(k.file as int, df, j) as u8,
        rank: along(k.rank as int, dr, j) as u8,
    };
    assert(s.file == along(k.file as int, df, j) && s.rank == along(k.rank as int, dr, j));
    if path_blocked(b, s, k) {
        let m = choose|m: int|
            0 < m < distance(s, k) && #[trigger] b.occupied(step_file(s, k, m), step_rank(s, k, m));
        assert(distance(s, k) == j);
        assert(step_file(s, k, m) == along(k.file as int, df, j - m));
        assert(step_rank(s, k, m) == along(k.rank as int, dr, j - m));
        assert(!b.occupied(along(k.file as int, df, j - m), along(k.rank as int, dr, j - m)));
    }
}

/// The scan over knights and the eight rays finds exactly the attacks on `k`.
proof fn lemma_scan_complete(b: BoardModel, k: Square, enemy: Color)
    requires
        b.wf(),
        k.valid(),
    ensures
        attacked_by(b, k, enemy) == (knight_hits(b, k, enemy) || ray_hits(b, k, -1, 0, enemy)
            || ray_hits(b, k, 1, 0, enemy) || ray_hits(b, k, 0, 1, enemy) || ray_hits(b, k, 0, -1, enemy)
            || ray_hits(b, k, -1, 1, enemy) || ray_hits(b, k, 1, 1, enemy) || ray_hits(b, k, 1, -1, enemy)
            || ray_hits(b, k, -1, -1, enemy)),
{
    if attacked_by(b, k, enemy) {
        let s = choose|s: Square|
            s.valid() && #[trigger] attacks(b, s, k) && b.owned_by(s, enemy);
        let p = b.piece(s)->Some_0;
        if p.kind == PieceKind::Knight {
            assert(b.piece(s) == Some(Piece { color: enemy, kind: PieceKind::Knight }));
            assert(knight_hits(b, k, enemy));
        } else {
            lemma_attack_on_ray(b, k, s, enemy);
        }
    }
    if knight_hits(b, k, enemy) {
        let s = choose|s: Square|
            s.valid() && #[trigger] b.piece(s) == Some(Piece { color: enemy, kind: PieceKind::Knight })
                && capture_shape_ok(PieceKind::Knight, enemy, k.file - s.file, k.rank - s.rank);
        assert(attacks(b, s, k));
    }
    lemma_ray_attacks(b, k, -1, 0, enemy);
    lemma_ray_attacks(b, k, 1, 0, enemy);
    lemma_ray_attacks(b, k, 0, 1, enemy);
    lemma_ray_attacks(b, k, 0, -1, enemy);
    lemma_ray_attacks(b, k, -1, 1, enemy);
    lemma_ray_attacks(b, k, 1, 1, enemy);
    lemma_ray_attacks(b, k, 1, -1, enemy);
    lemma_ray_attacks(b, k, -1, -1, enemy);
}

proof fn lemma_ray_attacks(b: BoardModel, k: Square, df: int, dr: int, enemy: Color)
    requires
        b.wf(),
        k.valid(),
        unit(df),
        unit(dr),
    ensures
        ray_hits(b, k, df, dr, enemy) ==> attacked_by(b, k, enemy),
{
    if ray_hits(b, k, df, dr, enemy) {
        let j = choose|j: int|
            #[trigger] first_hit(b, k, df, dr, j) && threatens(
                b,
                along(k.file as int, df, j),
                along(k.rank as int, dr, j),
                k,
                enemy,
            );
        lemma_ray_hit_attacks(b, k, df, dr, j, enemy);
        let s = Square {
            file: along(k.file as int, df, j) as u8,
            rank: along(k.rank as int, dr, j) as u8,
        };
        assert(attacks(b, s, k));
    }
}

/// Locates `color`'s king by one pass over the board.
fn find_king(board: &Board, color: Color) -> (r: Option<Square>)
    requires
        board.wf(),
    ensures
        r == king_square(board@, color),
        r matches Some(k) ==> k.valid(),
{
    let mut found: Option<u8> = None;
    let mut i: u8 = 0;
    while i < 64
        invariant
            board.wf(),
            i <= 64,
            found matches Some(x) ==> king_index(board@.cells, color, i as nat) == Some(x as int),
            found is None ==> king_index(board@.cells, color, i as nat) is None,
        decreases 64 - i,
    {
        let s = Square { file: i % 8, rank: i / 8 };
        proof {
            lemma_square_of(i as int);
        }
        match board.get(s) {
            Some(p) => {
                if p.color == color && p.kind == PieceKind::King {
                    found = Some(i);
                }
            },
            None => {},
        }
        i = i + 1;
    }
    proof {
        lemma_king_index(board@.cells, color, 64);
    }
    match found {
        Some(x) => {
            proof {
                lemma_square_of(x as int);
            }
            Some(Square { file: x % 8, rank: x / 8 })
        },
        None => None,
    }
}

/// Whether an enemy knight stands a knight's jump away from `k`.
fn knight_threat(board: &Board, k: Square, enemy: Color) -> (r: bool)
    requires
        board.wf(),
        k.valid(),
    ensures
        r == knight_hits(board@, k, enemy),
{
    let mut i: u8 = 0;
    while i < 64
        invariant
            board.wf(),
            k.valid(),
            i <= 64,
            forall|s: Square|
                s.valid() && s.index() < i ==> !(#[trigger] board@.piece(s) == Some(
                    Piece { color: enemy, kind: PieceKind::Knight },
                ) && capture_shape_ok(PieceKind::Knight, enemy, k.file - s.file, k.rank - s.rank)),
        decreases 64 - i,
    {
        let s = Square { file: i % 8, rank: i / 8 };
        proof {
            lemma_square_of(i as int);
        }
        match board.get(s) {
            Some(p) => {
                if p.color == enemy && p.kind == PieceKind::Knight && is_legal_capture_shape(
                    PieceKind::Knight,
                    enemy,
                    k.file as i8 - s.file as i8,
                    k.rank as i8 - s.rank as i8,
                ) {
                    assert(board@.piece(s) == Some(Piece { color: enemy, kind: PieceKind::Knight }));
                    return true;
                }
            },
            None => {},
        }
        i = i + 1;
    }
    false
}

/// Walks from `k` in direction `(df, dr)` to the first occupied square and
/// tells whether the piece there is an enemy whose capture pattern reaches `k`.
fn ray_threat(board: &Board, k: Square, df: i8, dr: i8, enemy: Color) -> (r: bool)
    requires
        board.wf(),
        k.valid(),
        unit(df as int),
        unit(dr as int),
        !(df == 0 && dr == 0),
    ensures
        r == ray_hits(board@, k, df as int, dr as int, enemy),
{
    let mut j: i8 = 1;
    let mut f: i8 = k.file as i8 + df;
    let mut r: i8 = k.rank as i8 + dr;
    while 0 <= f && f < 8 && 0 <= r && r < 8
        invariant
            board.wf(),
            k.valid(),
            unit(df as int),
            unit(dr as int),
            !(df == 0 && dr == 0),
            1 <= j <= 8,
            f == along(k.file as int, df as int, j as int),
            r == along(k.rank as int, dr as int, j as int),
            forall|i: int|
                0 < i < j ==> !#[trigger] board@.occupied(
                    along(k.file as int, df as int, i),
                    along(k.rank as int, dr as int, i),
                ),
        decreases 8 - j,
    {
        let s = Square { file: f as u8, rank: r as u8 };
        match board.get(s) {
            Some(p) => {
                let hit = p.color == enemy && is_legal_capture_shape(
                    p.kind,
                    enemy,
                    k.file as i8 - f,
                    k.rank as i8 - r,
                );
                proof {
                    assert(first_hit(board@, k, df as int, dr as int, j as int));
                    assert forall|j2: int| #[trigger]
                        first_hit(board@, k, df as int, dr as int, j2) implies j2 == j by {
                        if j2 < j {
                            assert(!board@.occupied(
                                along(k.file as int, df as int, j2),
                                along(k.rank as int, dr as int, j2),
                            ));
                        } else if j2 > j {
                            assert(!board@.occupied(
                                along(k.file as int, df as int, j as int),
                                along(k.rank as int, dr as int, j as int),
                            ));
                        }
                    }
                }
                return hit;
            },
            None => {},
        }
        j = j + 1;
        f = f + df;
        r = r + dr;
    }
    proof {
        assert forall|j2: int| !#[trigger] first_hit(board@, k, df as int, dr as int, j2) by {
            if j2 >= j && first_hit(board@, k, df as int, dr as int, j2) {
                assert(!on_board(along(k.file as int, df as int, j2), along(k.rank as int, dr as int, j2)));
            }
        }
    }
    false
}

/// Whether `color`'s king is attacked. The king is located by one pass over
/// the board; enemy knights are checked by their jump, and every other
/// attacker is the first piece met on one of the eight rays from the king.
pub fn is_in_check(board: &Board, color: Color) -> (r: bool)
    requires
        board.wf(),
    ensures
        r == in_check(board@, color),
{
    let enemy = color.opponent();
    let k = match find_king(board, color) {
        Some(k) => k,
        None => return false,
    };
    let knights = knight_threat(board, k, enemy);
    let left = ray_threat(board, k, -1, 0, enemy);
    let right = ray_threat(board, k, 1, 0, enemy);
    let up = ray_threat(board, k, 0, 1, enemy);
    let down = ray_threat(board, k, 0, -1, enemy);
    let up_left = ray_threat(board, k, -1, 1, enemy);
    let up_right = ray_threat(board, k, 1, 1, enemy);
    let down_right = ray_threat(board, k, 1, -1, enemy);
    let down_left = ray_threat(board, k, -1, -1, enemy);
    proof {
        lemma_scan_complete(board@, k, enemy);
    }
    knights || left || right || up || down || up_left || up_right || down_right || down_left
}

} // verus!
