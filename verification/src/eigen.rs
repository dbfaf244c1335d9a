//! Reading eigenvalue blocks off a quasi-triangular matrix.
//!
//! After the iteration has converged, the diagonal is walked from the top: a
//! zero subdiagonal entry means the diagonal entry is an isolated real
//! eigenvalue, a nonzero one means an unresolved 2x2 block whose
//! complex-conjugate eigenvalue pair is computed analytically, advancing two
//! rows at once; a walk that ends exactly on the last row reports that row
//! as a final isolated real eigenvalue, so every diagonal row is covered.
//! The walk itself is exact index logic and is verified here; the numerical
//! layer supplies the zero-pattern of the subdiagonal and evaluates each
//! block it is handed.

use vstd::prelude::*;

verus! {

/// One block found on the diagonal during eigenvalue extraction.
///
/// - `Real` --- an isolated real eigenvalue: the diagonal entry at `at`.
/// - `Pair` --- an unresolved 2x2 block starting at diagonal index `at`,
///   holding a complex-conjugate eigenvalue pair.
#[derive(Debug, Clone, Copy, PartialEq, Eq, Structural)]
pub enum EigBlock {
    Real { at: usize },
    Pair { at: usize },
}

impl EigBlock {
    /// The diagonal index where the block starts.
    pub open spec fn at(self) -> usize {
        match self {
            EigBlock::Real { at } => at,
            EigBlock::Pair { at } => at,
        }
    }

    /// How many diagonal rows the block occupies.
    pub open spec fn width(self) -> nat {
        match self {
            EigBlock::Real { .. } => 1,
            EigBlock::Pair { .. } => 2,
        }
    }
}

/// How many diagonal rows a sequence of blocks occupies in all.
pub open spec fn total_width(blocks: Seq<EigBlock>) -> nat
    decreases blocks.len(),
{
    if blocks.len() == 0 {
        0
    } else {
        blocks[0].width() + total_width(blocks.drop_first())
    }
}

/// The blocks that the diagonal walk reports from position `i` on, over a
/// matrix of dimension `zero.len() + 1`. `zero[k]` says that the
/// subdiagonal entry at `(k + 1, k)` is zero. A true flag yields a real
/// eigenvalue and advances by one; a false flag yields a 2x2 block and
/// advances by two; landing exactly on the last row yields its isolated
/// real eigenvalue; a 2x2 block ending at the last row steps past it.
pub open spec fn eig_layout(zero: Seq<bool>, i: nat) -> Seq<EigBlock>
    decreases zero.len() + 1 - i,
{
    if i > zero.len() {
        Seq::empty()
    } else if i == zero.len() {
        seq![EigBlock::Real { at: i as usize }]
    } else if zero[i as int] {
        seq![EigBlock::Real { at: i as usize }] + eig_layout(zero, i + 1)
    } else {
        seq![EigBlock::Pair { at: i as usize }] + eig_layout(zero, i + 2)
    }
}

/// Every block the walk reports starts at or after the walk's position and
/// fits inside the matrix of dimension `zero.len() + 1`: a real eigenvalue
/// sits at a diagonal index at most `zero.len()`, a 2x2 block starts
/// strictly before it.
pub proof fn lemma_eig_layout_in_bounds(zero: Seq<bool>, i: nat)
    requires
        zero.len() <= usize::MAX,
    ensures
        forall|j: int|
            0 <= j < eig_layout(zero, i).len() ==> i <= #[trigger] eig_layout(zero, i)[j].at()
                && eig_layout(zero, i)[j].at() + eig_layout(zero, i)[j].width() <= zero.len() + 1,
    decreases zero.len() + 1 - i,
{
    let l = eig_layout(zero, i);
    if i > zero.len() {
    } else if i == zero.len() {
    } else if zero[i as int] {
        lemma_eig_layout_in_bounds(zero, i + 1);
        let rest = eig_layout(zero, i + 1);
        assert forall|j: int|
            0 <= j < l.len() implies i <= #[trigger] l[j].at() && l[j].at() + l[j].width()
            <= zero.len() + 1 by {
            if j > 0 {
                assert(l[j] == rest[j - 1]);
            }
        }
    } else {
        lemma_eig_layout_in_bounds(zero, i + 2);
        let rest = eig_layout(zero, i + 2);
        assert forall|j: int|
            0 <= j < l.len() implies i <= #[trigger] l[j].at() && l[j].at() + l[j].width()
            <= zero.len() + 1 by {
            if j > 0 {
                assert(l[j] == rest[j - 1]);
            }
        }
    }
}

/// The walk advances past the full extent of each block it reports: a real
/// eigenvalue by one row, a 2x2 block by two, so the blocks never overlap
/// and appear in increasing diagonal order.
pub proof fn lemma_eig_layout_disjoint(zero: Seq<bool>, i: nat)
    requires
        zero.len() <= usize::MAX,
    ensures
        forall|j: int|
            0 <= j < eig_layout(zero, i).len() - 1 ==> #[trigger] eig_layout(zero, i)[j].at()
                + eig_layout(zero, i)[j].width() <= eig_layout(zero, i)[j + 1].at(),
    decreases zero.len() + 1 - i,
{
    let l = eig_layout(zero, i);
    if i > zero.len() {
    } else if i == zero.len() {
    } else if zero[i as int] {
        lemma_eig_layout_disjoint(zero, i + 1);
        lemma_eig_layout_in_bounds(zero, i + 1);
        let rest = eig_layout(zero, i + 1);
        assert forall|j: int| 0 <= j < l.len() - 1 implies #[trigger] l[j].at() + l[j].width()
            <= l[j + 1].at() by {
            if j == 0 {
                assert(l[1] == rest[0]);
            } else {
                assert(l[j] == rest[j - 1]);
                assert(l[j + 1] == rest[j]);
            }
        }
    } else {
        lemma_eig_layout_disjoint(zero, i + 2);
        lemma_eig_layout_in_bounds(zero, i + 2);
        let rest = eig_layout(zero, i + 2);
        assert forall|j: int| 0 <= j < l.len() - 1 implies #[trigger] l[j].at() + l[j].width()
            <= l[j + 1].at() by {
            if j == 0 {
                assert(l[1] == rest[0]);
            } else {
                assert(l[j] == rest[j - 1]);
                assert(l[j + 1] == rest[j]);
            }
        }
    }
}

/// The walk is complete: started inside the matrix, its blocks cover every
/// remaining diagonal row exactly once, so from the top of an `n` x `n`
/// matrix the reported blocks hold all `n` eigenvalues.
pub proof fn lemma_eig_layout_complete(zero: Seq<bool>, i: nat)
    requires
        zero.len() <= usize::MAX,
        i <= zero.len(),
    ensures
        total_width(eig_layout(zero, i)) == zero.len() + 1 - i,
    decreases zero.len() + 1 - i,
{
    let l = eig_layout(zero, i);
    if i == zero.len() {
        assert(total_width(l) == l[0].width() + total_width(l.drop_first()));
        assert(l.drop_first() =~= Seq::<EigBlock>::empty());
    } else if zero[i as int] {
        lemma_eig_layout_complete(zero, i + 1);
        assert(l.drop_first() =~= eig_layout(zero, i + 1));
    } else if i + 2 <= zero.len() {
        lemma_eig_layout_complete(zero, i + 2);
        assert(l.drop_first() =~= eig_layout(zero, i + 2));
    } else {
        // a 2x2 block ending at the last row: the tail of the walk is empty
        assert(l.drop_first() =~= eig_layout(zero, i + 2));
        assert(eig_layout(zero, i + 2) =~= Seq::<EigBlock>::empty());
    }
}

/// Walks the zero-pattern of the subdiagonal of a quasi-triangular matrix
/// of dimension `zero_subdiag.len() + 1` and returns the eigenvalue blocks
/// in diagonal order, covering every diagonal row.
pub fn eigenvalue_blocks(zero_subdiag: &Vec<bool>) -> (blocks: Vec<EigBlock>)
    ensures
        blocks@ == eig_layout(zero_subdiag@, 0),
{
    let len = zero_subdiag.len();
    let mut blocks: Vec<EigBlock> = Vec::new();
    let mut i: usize = 0;
    let mut past_end = false;
    while i < len
        invariant
            len == zero_subdiag@.len(),
            i <= len,
            !past_end ==> blocks@ + eig_layout(zero_subdiag@, i as nat) == eig_layout(
                zero_subdiag@,
                0,
            ),
            past_end ==> i == len && blocks@ == eig_layout(zero_subdiag@, 0),
        decreases len - i,
    {
        if zero_subdiag[i] {
            proof {
                assert(eig_layout(zero_subdiag@, i as nat) == seq![
                    EigBlock::Real { at: i },
                ] + eig_layout(zero_subdiag@, (i + 1) as nat));
            }
            blocks.push(EigBlock::Real { at: i });
            proof {
                assert(blocks@ + eig_layout(zero_subdiag@, (i + 1) as nat) =~= eig_layout(
                    zero_subdiag@,
                    0,
                ));
            }
            i = i + 1;
        } else if len >= 2 && i <= len - 2 {
            proof {
                assert(eig_layout(zero_subdiag@, i as nat) == seq![
                    EigBlock::Pair { at: i },
                ] + eig_layout(zero_subdiag@, (i + 2) as nat));
            }
            blocks.push(EigBlock::Pair { at: i });
            proof {
                assert(blocks@ + eig_layout(zero_subdiag@, (i + 2) as nat) =~= eig_layout(
                    zero_subdiag@,
                    0,
                ));
            }
            i = i + 2;
        } else {
            // a 2x2 block at the last window steps past the final row
            proof {
                assert(eig_layout(zero_subdiag@, i as nat) == seq![
                    EigBlock::Pair { at: i },
                ] + eig_layout(zero_subdiag@, (i + 2) as nat));
                assert(eig_layout(zero_subdiag@, (i + 2) as nat) =~= Seq::<EigBlock>::empty());
            }
            blocks.push(EigBlock::Pair { at: i });
            proof {
                assert(blocks@ =~= eig_layout(zero_subdiag@, 0));
            }
            i = len;
            past_end = true;
        }
    }
    if !past_end {
        // the walk landed exactly on the last row: an isolated real
        // eigenvalue
        proof {
            assert(eig_layout(zero_subdiag@, len as nat) == seq![EigBlock::Real { at: len }]);
        }
        blocks.push(EigBlock::Real { at: len });
        proof {
            assert(blocks@ =~= eig_layout(zero_subdiag@, 0));
        }
    }
    blocks
}

} // verus!
