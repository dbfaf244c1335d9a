//! Deflation state machines of the iterative algorithms.
//!
//! The shifted QR iterations interleave floating-point sweeps with discrete
//! decisions: when a subdiagonal entry has become negligible, the active
//! subproblem shrinks (deflation); otherwise another sweep is spent from the
//! iteration budget. The controllers here make those decisions. The
//! numerical layer runs the loop: it reads the next step from the
//! controller, performs the floating-point work, measures the negligibility
//! of the entries the controller asks about, and hands the outcome back.
//! Each controller carries a variant that strictly decreases at every
//! advance, so every run under a finite budget terminates.

use vstd::prelude::*;

verus! {

/// What the Francis iteration does next after one look at the trailing
/// subdiagonal entries.
///
/// - `DeflateOne` --- the entry at `(row, col)` is negligible: zero it and
///   shrink the active subproblem by one (a real eigenvalue is isolated).
/// - `DeflateTwo` --- the entry one step further up is negligible: zero it
///   and shrink by two (a 2x2 block is isolated).
/// - `DoubleStep` --- neither is negligible: run one implicit double-shift
///   sweep on the active subproblem ending at index `p`.
#[derive(Debug, Clone, Copy, PartialEq, Eq, Structural)]
pub enum FrancisAction {
    DeflateOne { row: usize, col: usize },
    DeflateTwo { row: usize, col: usize },
    DoubleStep { p: usize },
}

/// Drives the implicit double-shift (Francis) iteration over an `n` x `n`
/// Hessenberg matrix.
///
/// `p` is the trailing index of the active subproblem and shrinks from
/// `n - 1` towards `1` as eigenvalues deflate; `steps` counts the
/// double-shift sweeps spent from the budget `limit`.
#[derive(Debug, Clone, Copy, PartialEq, Eq, Structural)]
pub struct FrancisControl {
    pub n: usize,
    pub limit: usize,
    pub p: usize,
    pub steps: usize,
}

impl FrancisControl {
    /// The controller's invariant: the active index stays inside the matrix
    /// and the budget is never overdrawn.
    pub open spec fn wf(self) -> bool {
        &&& 1 <= self.n
        &&& self.p < self.n
        &&& self.steps <= self.limit
    }

    /// The termination variant: strictly decreases at every `advance`.
    pub open spec fn variant(self) -> int {
        self.p + self.limit - self.steps
    }

    /// Starts an iteration over an `n` x `n` matrix with a budget of `limit`
    /// sweeps.
    pub fn new(n: usize, limit: usize) -> (c: FrancisControl)
        requires
            1 <= n,
        ensures
            c.wf(),
            c.n == n,
            c.limit == limit,
            c.p == n - 1,
            c.steps == 0,
    {
        FrancisControl { n, limit, p: n - 1, steps: 0 }
    }

    /// Whether the iteration goes on: the active subproblem is larger than
    /// 2x2-or-smaller trailing work (`p > 1`) and budget remains.
    pub fn active(&self) -> (r: bool)
        ensures
            r == (self.p > 1 && self.steps < self.limit),
    {
        self.p > 1 && self.steps < self.limit
    }

    /// One decision of the iteration. `tail_negligible` reports that the
    /// subdiagonal entry at `(p, p - 1)` is negligible against its
    /// neighbouring diagonal, `window_negligible` the same of the entry at
    /// `(p - 1, p - 2)`; both are measured by the numerical layer on the
    /// current matrix. Deflation costs no budget; a double step costs one.
    pub fn advance(&mut self, tail_negligible: bool, window_negligible: bool) -> (a: FrancisAction)
        requires
            old(self).wf(),
            old(self).p > 1,
            old(self).steps < old(self).limit,
        ensures
            final(self).wf(),
            final(self).n == old(self).n,
            final(self).limit == old(self).limit,
            final(self).variant() < old(self).variant(),
            tail_negligible ==> a == (FrancisAction::DeflateOne {
                row: old(self).p,
                col: (old(self).p - 1) as usize,
            }) && final(self).p == old(self).p - 1 && final(self).steps == old(self).steps,
            !tail_negligible && window_negligible ==> a == (FrancisAction::DeflateTwo {
                row: (old(self).p - 1) as usize,
                col: (old(self).p - 2) as usize,
            }) && final(self).p == old(self).p - 2 && final(self).steps == old(self).steps,
            !tail_negligible && !window_negligible ==> a == (FrancisAction::DoubleStep {
                p: old(self).p,
            }) && final(self).p == old(self).p && final(self).steps == old(self).steps + 1,
    {
        if tail_negligible {
            let a = FrancisAction::DeflateOne { row: self.p, col: self.p - 1 };
            self.p = self.p - 1;
            a
        } else if window_negligible {
            let a = FrancisAction::DeflateTwo { row: self.p - 1, col: self.p - 2 };
            self.p = self.p - 2;
            a
        } else {
            let a = FrancisAction::DoubleStep { p: self.p };
            self.steps = self.steps + 1;
            a
        }
    }
}

/// The iteration ceiling bounds the Francis iteration: the variant is
/// non-negative, at most `n - 1 + limit` at the start, and strictly
/// decreases at every `advance`, so a run performs at most `n - 1 + limit`
/// decisions before `active` turns false.
pub proof fn lemma_francis_terminates(c: FrancisControl)
    requires
        c.wf(),
    ensures
        0 <= c.variant(),
        c.variant() <= c.n - 1 + c.limit,
{
}

/// Drives the implicit Wilkinson-shift iteration over an `n` x `n`
/// tridiagonal matrix.
///
/// `p` is the trailing index of the active subproblem and shrinks from
/// `n - 1` towards `0`; `steps` counts the shifted sweeps spent from the
/// budget `limit`. Unlike the Francis iteration, every round costs one
/// sweep, and deflation only ever isolates single (real) eigenvalues.
#[derive(Debug, Clone, Copy, PartialEq, Eq, Structural)]
pub struct SymmetricControl {
    pub n: usize,
    pub limit: usize,
    pub p: usize,
    pub steps: usize,
}

impl SymmetricControl {
    /// The controller's invariant.
    pub open spec fn wf(self) -> bool {
        &&& 1 <= self.n
        &&& self.p < self.n
        &&& self.steps <= self.limit
    }

    /// The termination variant: strictly decreases at every `advance`.
    pub open spec fn variant(self) -> int {
        self.limit - self.steps
    }

    /// Starts an iteration over an `n` x `n` matrix with a budget of `limit`
    /// sweeps.
    pub fn new(n: usize, limit: usize) -> (c: SymmetricControl)
        requires
            1 <= n,
        ensures
            c.wf(),
            c.n == n,
            c.limit == limit,
            c.p == n - 1,
            c.steps == 0,
    {
        SymmetricControl { n, limit, p: n - 1, steps: 0 }
    }

    /// Whether the iteration goes on: some subproblem is left (`p > 0`) and
    /// budget remains.
    pub fn active(&self) -> (r: bool)
        ensures
            r == (self.p > 0 && self.steps < self.limit),
    {
        self.p > 0 && self.steps < self.limit
    }

    /// Books one shifted sweep on the active subproblem ending at `p`.
    /// `tail_negligible` reports that, after the sweep, the subdiagonal
    /// entry at `(p, p - 1)` is negligible against its neighbouring
    /// diagonal; if so, the eigenvalue at `p` has converged and the
    /// subproblem shrinks by one.
    pub fn advance(&mut self, tail_negligible: bool)
        requires
            old(self).wf(),
            old(self).p > 0,
            old(self).steps < old(self).limit,
        ensures
            final(self).wf(),
            final(self).n == old(self).n,
            final(self).limit == old(self).limit,
            final(self).steps == old(self).steps + 1,
            final(self).p == (if tail_negligible {
                (old(self).p - 1) as int
            } else {
                old(self).p as int
            }),
            final(self).variant() < old(self).variant(),
    {
        if tail_negligible {
            self.p = self.p - 1;
        }
        self.steps = self.steps + 1;
    }
}

/// The iteration ceiling bounds the symmetric iteration: the variant is
/// non-negative, at most `limit`, and strictly decreases at every
/// `advance`, so a run performs at most `limit` sweeps before `active`
/// turns false.
pub proof fn lemma_symmetric_terminates(c: SymmetricControl)
    requires
        c.wf(),
    ensures
        0 <= c.variant(),
        c.variant() <= c.limit,
{
}

/// What the block-reduction post-pass does at its current position.
///
/// - `Skip` --- the subdiagonal entry below the diagonal position is already
///   negligible: move down by one.
/// - `Rotate` --- a live 2x2 block starts at diagonal index `at`: apply its
///   closed-form rotation and move down by two.
#[derive(Debug, Clone, Copy, PartialEq, Eq, Structural)]
pub enum BlockAction {
    Skip,
    Rotate { at: usize },
}

/// Drives the post-pass that walks the diagonal of a quasi-triangular
/// `n` x `n` matrix and resolves the 2x2 blocks that the Francis iteration
/// left behind.
#[derive(Debug, Clone, Copy, PartialEq, Eq, Structural)]
pub struct BlockSweep {
    pub n: usize,
    pub i: usize,
}

impl BlockSweep {
    /// The walk's invariant: the position never leaves the matrix by more
    /// than the final overshoot of a 2x2 block.
    pub open spec fn wf(self) -> bool {
        self.i <= self.n
    }

    /// Starts the walk at the top of an `n` x `n` matrix.
    pub fn new(n: usize) -> (s: BlockSweep)
        ensures
            s.wf(),
            s.n == n,
            s.i == 0,
    {
        BlockSweep { n, i: 0 }
    }

    /// Whether a 2x2 window still fits below and right of the position.
    pub fn active(&self) -> (r: bool)
        ensures
            r == (self.i + 1 < self.n),
    {
        self.i < self.n && self.i + 1 < self.n
    }

    /// One decision of the walk. `negligible` reports that the subdiagonal
    /// entry at `(i + 1, i)` is below the zero threshold, as measured by the
    /// numerical layer. A rotation at `at` touches rows and columns
    /// `at..at + 2`, which the ensures keeps inside the matrix.
    pub fn advance(&mut self, negligible: bool) -> (a: BlockAction)
        requires
            old(self).wf(),
            old(self).i + 1 < old(self).n,
        ensures
            final(self).wf(),
            final(self).n == old(self).n,
            old(self).i < final(self).i,
            negligible ==> a == BlockAction::Skip && final(self).i == old(self).i + 1,
            !negligible ==> a == (BlockAction::Rotate { at: old(self).i }) && final(self).i == old(
                self,
            ).i + 2 && old(self).i + 2 <= old(self).n,
    {
        if negligible {
            self.i = self.i + 1;
            BlockAction::Skip
        } else {
            let a = BlockAction::Rotate { at: self.i };
            self.i = self.i + 2;
            a
        }
    }
}

} // verus!
