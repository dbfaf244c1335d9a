//! Index windows of the reductions and sweeps.
//!
//! Each reflection or rotation of the engine acts on a rectangular slice of
//! the matrix, and the slice bounds carry the algorithms' trickiest index
//! arithmetic: the bulge chase widens its row window by `max(1, k) - 1` to
//! cover fill-in and clips its column window at `min(k + 4, p + 1)`. The
//! functions here compute every such window and prove it stays inside an
//! `n` x `n` matrix, so the numerical layer can slice without bounds
//! surprises.

use vstd::prelude::*;

verus! {

/// A half-open index range `lo..hi`.
#[derive(Debug, Clone, Copy, PartialEq, Eq, Structural)]
pub struct Span {
    pub lo: usize,
    pub hi: usize,
}

/// The slices touched by step `k` of the Householder reduction to
/// Hessenberg form: a reflector is built from rows `k + 1..n` of column
/// `k`, applied on the left to rows `k + 1..n` over columns `k..n`, and on
/// the right (and into the accumulator) to all rows over columns
/// `k + 1..n`.
#[derive(Debug, Clone, Copy, PartialEq, Eq, Structural)]
pub struct HessenbergStep {
    /// The column whose subcolumn is annihilated, and the left target rows.
    pub tail: Span,
    /// Columns of the left application.
    pub left_cols: Span,
    /// Columns of the right (similarity) application, over all rows.
    pub right_cols: Span,
}

/// Computes the windows of step `k` of the Hessenberg reduction, which runs
/// for `k` in `0..n - 2`.
pub fn hessenberg_step(k: usize, n: usize) -> (w: HessenbergStep)
    requires
        k + 2 < n,
    ensures
        w.tail == (Span { lo: (k + 1) as usize, hi: n }),
        w.left_cols == (Span { lo: k, hi: n }),
        w.right_cols == (Span { lo: (k + 1) as usize, hi: n }),
        w.tail.lo < w.tail.hi <= n,
        w.tail.hi - w.tail.lo >= 2,
{
    HessenbergStep {
        tail: Span { lo: k + 1, hi: n },
        left_cols: Span { lo: k, hi: n },
        right_cols: Span { lo: k + 1, hi: n },
    }
}

/// The slices touched by one sweep position of the Givens iteration on a
/// Hessenberg matrix: the rotation built from `(k, k)` and `(k + 1, k)` is
/// applied on the left to rows `k..k + 2` over columns `k..n`, and later on
/// the right to rows `0..k + 2` over columns `k..k + 2` (and to all rows of
/// the accumulator).
#[derive(Debug, Clone, Copy, PartialEq, Eq, Structural)]
pub struct GivensSweepStep {
    /// Rows of the left application; also the right application's columns.
    pub rows: Span,
    /// Columns of the left application.
    pub left_cols: Span,
    /// Rows of the right application.
    pub right_rows: Span,
}

/// Computes the windows of sweep position `k` of the Hessenberg-Givens
/// iteration, which runs for `k` in `0..n - 1`.
pub fn givens_sweep_step(k: usize, n: usize) -> (w: GivensSweepStep)
    requires
        k + 1 < n,
    ensures
        w.rows == (Span { lo: k, hi: (k + 2) as usize }),
        w.left_cols == (Span { lo: k, hi: n }),
        w.right_rows == (Span { lo: 0, hi: (k + 2) as usize }),
        w.rows.hi <= n,
        w.right_rows.hi <= n,
{
    GivensSweepStep {
        rows: Span { lo: k, hi: k + 2 },
        left_cols: Span { lo: k, hi: n },
        right_rows: Span { lo: 0, hi: k + 2 },
    }
}

/// The slices touched by step `k` of the Francis bulge chase: a reflector of
/// length 3 built from the current seed acts on rows `k..k + 3` over columns
/// `max(1, k) - 1..n` on the left, and on rows `0..min(k + 4, p + 1)` over
/// columns `k..k + 3` on the right (and on all rows of the accumulator).
#[derive(Debug, Clone, Copy, PartialEq, Eq, Structural)]
pub struct ChaseStep {
    /// Rows of the left application; also the right application's columns.
    pub rows: Span,
    /// Columns of the left application, widened by one to cover fill-in.
    pub left_cols: Span,
    /// Rows of the right (similarity) application.
    pub right_rows: Span,
    /// Whether the seed's third entry is refreshed afterwards, which reads
    /// row `k + 3`; false exactly at the chase's last step.
    pub refresh_third: bool,
}

/// Computes the windows of step `k` of the bulge chase inside the active
/// subproblem ending at `p`; the chase runs for `k` in `0..p - 1`.
pub fn chase_step(k: usize, p: usize, n: usize) -> (w: ChaseStep)
    requires
        2 <= p < n,
        k < p - 1,
    ensures
        w.rows == (Span { lo: k, hi: (k + 3) as usize }),
        w.left_cols == (Span { lo: (if k <= 1 { 0int } else { k - 1 }) as usize, hi: n }),
        w.right_rows == (Span { lo: 0, hi: (if k + 3 <= p { k + 4 } else { p + 1 }) as usize }),
        w.refresh_third == (k < p - 2),
        w.rows.hi <= n,
        w.left_cols.lo < n,
        w.right_rows.hi <= n,
        w.rows.hi <= w.right_rows.hi + 2,
        w.refresh_third ==> k + 3 < n,
{
    let left_lo: usize = if k <= 1 { 0 } else { k - 1 };
    let right_hi: usize = if k + 3 <= p { k + 4 } else { p + 1 };
    ChaseStep {
        rows: Span { lo: k, hi: k + 3 },
        left_cols: Span { lo: left_lo, hi: n },
        right_rows: Span { lo: 0, hi: right_hi },
        refresh_third: k < p - 1 - 1,
    }
}

/// The slices touched by the Givens cleanup that ends a Francis sweep: the
/// rotation built from the remaining seed acts on rows `p - 1..p + 1` over
/// columns `p - 2..n` on the left, and on rows `0..p + 1` over columns
/// `p - 1..p + 1` on the right (and on all rows of the accumulator).
#[derive(Debug, Clone, Copy, PartialEq, Eq, Structural)]
pub struct CleanupStep {
    /// Rows of the left application; also the right application's columns.
    pub rows: Span,
    /// Columns of the left application.
    pub left_cols: Span,
    /// Rows of the right application.
    pub right_rows: Span,
}

/// Computes the windows of the cleanup rotation of the active subproblem
/// ending at `p`.
pub fn cleanup_step(p: usize, n: usize) -> (w: CleanupStep)
    requires
        2 <= p < n,
    ensures
        w.rows == (Span { lo: (p - 1) as usize, hi: (p + 1) as usize }),
        w.left_cols == (Span { lo: (p - 2) as usize, hi: n }),
        w.right_rows == (Span { lo: 0, hi: (p + 1) as usize }),
        w.rows.hi <= n,
        w.right_rows.hi <= n,
{
    CleanupStep {
        rows: Span { lo: p - 1, hi: p + 1 },
        left_cols: Span { lo: p - 2, hi: n },
        right_rows: Span { lo: 0, hi: p + 1 },
    }
}

/// The entries touched by step `k` of the chain of rotations that one
/// Wilkinson-shifted sweep sends down a tridiagonal matrix: the rotation
/// updates the 2x2 block at `(k, k)`, writes the carried value back to
/// `(k - 1, k)` and `(k, k - 1)` once a predecessor exists, prepares the
/// next seed from `(k + 2, k + 1)` while the chain continues, and acts on
/// columns `k..k + 2` of the accumulator.
#[derive(Debug, Clone, Copy, PartialEq, Eq, Structural)]
pub struct TridiagonalStep {
    /// The diagonal index of the 2x2 block being rotated.
    pub at: usize,
    /// Whether the carried value is written back above (exactly when
    /// `k > 0`).
    pub write_back: bool,
    /// Whether the chain continues below (exactly when `k + 1 < p`), which
    /// touches row `k + 2`.
    pub extend: bool,
    /// Columns of the accumulator the rotation acts on.
    pub u_cols: Span,
}

/// Computes the touched entries of step `k` of the tridiagonal rotation
/// chain inside the active subproblem ending at `p`; the chain runs for `k`
/// in `0..p`.
pub fn tridiagonal_step(k: usize, p: usize, n: usize) -> (w: TridiagonalStep)
    requires
        1 <= p < n,
        k < p,
    ensures
        w.at == k,
        w.write_back == (k > 0),
        w.extend == (k + 1 < p),
        w.u_cols == (Span { lo: k, hi: (k + 2) as usize }),
        k + 1 < n,
        w.extend ==> k + 2 < n,
        w.u_cols.hi <= n,
{
    TridiagonalStep {
        at: k,
        write_back: k > 0,
        extend: k + 1 < p,
        u_cols: Span { lo: k, hi: k + 2 },
    }
}

} // verus!
