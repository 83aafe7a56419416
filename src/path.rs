//! Occupancy of the squares strictly between two squares on a rank, file or
//! diagonal.

use vstd::prelude::*;

use crate::board::{on_board, Board, BoardModel};
use crate::pattern::abs;
use crate::piece::Square;

verus! {

pub open spec fn sign(x: int) -> int {
    if x > 0 {
        1
    } else if x < 0 {
        -1
    } else {
        0
    }
}

/// The coordinate `k` steps from `x` in direction `s` (one of -1, 0, 1).
pub open spec fn along(x: int, s: int, k: int) -> int {
    if s > 0 {
        x + k
    } else if s < 0 {
        x - k
    } else {
        x
    }
}

pub open spec fn dx(from: Square, to: Square) -> int {
    to.file - from.file
}

pub open spec fn dy(from: Square, to: Square) -> int {
    to.rank - from.rank
}

/// `from` and `to` share a rank, a file or a diagonal.
pub open spec fn aligned(from: Square, to: Square) -> bool {
    dx(from, to) == 0 || dy(from, to) == 0 || abs(dx(from, to)) == abs(dy(from, to))
}

/// Number of king steps from `from` to `to`.
pub open spec fn distance(from: Square, to: Square) -> int {
    if abs(dx(from, to)) >= abs(dy(from, to)) {
        abs(dx(from, to))
    } else {
        abs(dy(from, to))
    }
}

/// The file of the square `k` steps from `from` toward `to`.
pub open spec fn step_file(from: Square, to: Square, k: int) -> int {
    along(from.file as int, sign(dx(from, to)), k)
}

/// The rank of the square `k` steps from `from` toward `to`.
pub open spec fn step_rank(from: Square, to: Square, k: int) -> int {
    along(from.rank as int, sign(dy(from, to)), k)
}

/// Some square strictly between `from` and `to` holds a piece.
pub open spec fn path_blocked(b: BoardModel, from: Square, to: Square) -> bool {
    exists|k: int|
        0 < k < distance(from, to) && #[trigger] b.occupied(step_file(from, to, k), step_rank(from, to, k))
}

/// Whether a piece stands on a square strictly between `from` and `to`, which
/// lie on one rank, file or diagonal. Equal endpoints are never blocked.
pub fn is_blocked(board: &Board, from: Square, to: Square) -> (r: bool)
    requires
        board.wf(),
        from.valid(),
        to.valid(),
        aligned(from, to),
    ensures
        r == path_blocked(board@, from, to),
{
    let x = to.file as i8 - from.file as i8;
    let y = to.rank as i8 - from.rank as i8;
    let ax: i8 = if x < 0 { -x } else { x };
    let ay: i8 = if y < 0 { -y } else { y };
    let n: i8 = if ax >= ay { ax } else { ay };
    let mut k: i8 = 1;
    while k < n
        invariant
            board.wf(),
            from.valid(),
            to.valid(),
            aligned(from, to),
            x == dx(from, to),
            y == dy(from, to),
            n == distance(from, to),
            1 <= k,
            forall|j: int|
                0 < j < k ==> !#[trigger] board@.occupied(step_file(from, to, j), step_rank(from, to, j)),
        decreases n - k,
    {
        let f: i8 = if x > 0 {
            from.file as i8 + k
        } else if x < 0 {
            from.file as i8 - k
        } else {
            from.file as i8
        };
        let r: i8 = if y > 0 {
            from.rank as i8 + k
        } else if y < 0 {
            from.rank as i8 - k
        } else {
            from.rank as i8
        };
        assert(f == step_file(from, to, k as int) && r == step_rank(from, to, k as int));
        assert(on_board(f as int, r as int));
        let s = Square { file: f as u8, rank: r as u8 };
        if board.get(s).is_some() {
            assert(board@.occupied(step_file(from, to, k as int), step_rank(from, to, k as int)));
            return true;
        }
        k = k + 1;
    }
    false
}

} // verus!
