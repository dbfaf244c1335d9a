//! Ordering of singular values.
//!
//! Singular values come out of the symmetric iteration in no particular
//! order and must be reported sorted descending, with the columns of the
//! orthogonal factor permuted along. The numerical layer encodes each value
//! as an ordering key (any monotone integer encoding, with incomparable
//! values mapped below all others so they sort last); this module computes
//! the permutation: a stable descending order, ties broken by original
//! position.

use vstd::prelude::*;

verus! {

/// The sort order: position `x` comes before position `y` when its key is
/// larger, or on equal keys when `x` is the earlier position (stability).
/// For distinct positions this is a strict total order.
pub open spec fn sorts_before(keys: Seq<u64>, x: usize, y: usize) -> bool {
    keys[x as int] > keys[y as int] || (keys[x as int] == keys[y as int] && x < y)
}

/// Whether `perm[j]` still has to move left past `perm[j - 1]`.
fn should_move(keys: &Vec<u64>, perm: &Vec<usize>, j: usize) -> (r: bool)
    requires
        0 < j < perm@.len(),
        perm@[j as int] < keys@.len(),
        perm@[j - 1] < keys@.len(),
    ensures
        r == sorts_before(keys@, perm@[j as int], perm@[j - 1]),
{
    let x = perm[j];
    let y = perm[j - 1];
    keys[x] > keys[y] || (keys[x] == keys[y] && x < y)
}

/// Computes the permutation that sorts `keys` into descending order,
/// stably: `perm` lists the positions of `keys` so that their keys are
/// non-increasing, equal keys keeping their original relative order. The
/// result is injective and within bounds, so applying it to the columns of
/// a matrix (or the entries of a value vector) is a permutation of them.
pub fn sort_descending(keys: &Vec<u64>) -> (perm: Vec<usize>)
    ensures
        perm@.len() == keys@.len(),
        forall|a: int| 0 <= a < perm@.len() ==> perm@[a] < keys@.len(),
        forall|a: int, b: int|
            0 <= a < b < perm@.len() ==> #[trigger] perm@[a] != #[trigger] perm@[b],
        forall|a: int, b: int|
            0 <= a < b < perm@.len() ==> keys@[(#[trigger] perm@[a]) as int] >= keys@[(
            #[trigger] perm@[b]) as int],
        forall|a: int, b: int|
            0 <= a < b < perm@.len() && keys@[(#[trigger] perm@[a]) as int] == keys@[(
            #[trigger] perm@[b]) as int] ==> perm@[a] < perm@[b],
{
    let n = keys.len();
    let mut perm: Vec<usize> = Vec::new();
    let mut k: usize = 0;
    while k < n
        invariant
            k <= n,
            perm@.len() == k,
            forall|a: int| 0 <= a < k ==> #[trigger] perm@[a] == a,
        decreases n - k,
    {
        perm.push(k);
        k = k + 1;
    }
    let mut i: usize = 1;
    while i < n
        invariant
            n == keys@.len(),
            perm@.len() == n,
            1 <= i,
            forall|a: int| 0 <= a < n ==> #[trigger] perm@[a] < n,
            forall|a: int, b: int|
                0 <= a < b < n ==> #[trigger] perm@[a] != #[trigger] perm@[b],
            forall|a: int, b: int|
                0 <= a < b < i ==> sorts_before(keys@, #[trigger] perm@[a], #[trigger] perm@[b]),
        decreases n - i,
    {
        let mut j: usize = i;
        while j > 0 && should_move(keys, &perm, j)
            invariant
                n == keys@.len(),
                perm@.len() == n,
                j <= i < n,
                forall|a: int| 0 <= a < n ==> #[trigger] perm@[a] < n,
                forall|a: int, b: int|
                    0 <= a < b < n ==> #[trigger] perm@[a] != #[trigger] perm@[b],
                forall|a: int, b: int|
                    0 <= a < b <= i && a != j && b != j ==> sorts_before(
                        keys@,
                        #[trigger] perm@[a],
                        #[trigger] perm@[b],
                    ),
                forall|b: int|
                    j < b <= i ==> sorts_before(keys@, perm@[j as int], #[trigger] perm@[b]),
            decreases j,
        {
            let x = perm[j];
            let y = perm[j - 1];
            perm.set(j - 1, x);
            perm.set(j, y);
            j = j - 1;
        }
        proof {
            assert forall|a: int, b: int| 0 <= a < b <= i implies sorts_before(
                keys@,
                #[trigger] perm@[a],
                #[trigger] perm@[b],
            ) by {
                if b == j {
                    // only possible when j > 0 and the loop stopped on order:
                    // the left neighbour sorts before j, and everything
                    // farther left sorts before the left neighbour.
                    assert(sorts_before(keys@, perm@[j - 1], perm@[j as int]));
                    if a < j - 1 {
                        assert(sorts_before(keys@, perm@[a], perm@[j - 1]));
                    }
                } else if a == j {
                }
            }
        }
        i = i + 1;
    }
    perm
}

} // verus!
