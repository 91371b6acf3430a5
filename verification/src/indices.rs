//! Positions in a list, as the executable code holds them and as the
//! contracts speak of them.

use vstd::prelude::*;

verus! {

/// Whether a vector of positions holds exactly the given sequence.
pub open spec fn holds_indices(v: Seq<usize>, s: Seq<int>) -> bool {
    &&& v.len() == s.len()
    &&& forall|k: int| 0 <= k < v.len() ==> v[k] as int == #[trigger] s[k]
}

/// The positions held by a vector, as integers.
pub open spec fn to_ints(v: Seq<usize>) -> Seq<int> {
    Seq::new(v.len(), |k: int| v[k] as int)
}

/// A vector that holds a sequence of positions has it as its integers.
pub proof fn lemma_holds_indices(v: Seq<usize>, s: Seq<int>)
    requires
        holds_indices(v, s),
    ensures
        to_ints(v) == s,
{
}

/// Whether the positions are valid for a list of length `n` and differ from
/// each other.
pub open spec fn spec_distinct_below(positions: Seq<int>, n: int) -> bool {
    &&& forall|k: int| 0 <= k < positions.len() ==> 0 <= #[trigger] positions[k] < n
    &&& forall|k: int, l: int|
        0 <= k < l < positions.len() ==> #[trigger] positions[k] != #[trigger] positions[l]
}

/// The positions below `n` that are not among the picked ones, ascending.
pub open spec fn spec_unpicked(n: nat, picked: Seq<int>) -> Seq<int>
    decreases n,
{
    if n == 0 {
        Seq::empty()
    } else {
        let rest = spec_unpicked((n - 1) as nat, picked);
        if picked.contains(n - 1) {
            rest
        } else {
            rest.push(n - 1)
        }
    }
}

/// Positions within a selection, carried back to what the selection was
/// made from.
pub open spec fn spec_compose(outer: Seq<int>, inner: Seq<int>) -> Seq<int> {
    Seq::new(inner.len(), |k: int| outer[inner[k]])
}

/// The number of positions that are below `m`.
pub open spec fn spec_count_below(positions: Seq<int>, m: int) -> int
    decreases positions.len(),
{
    if positions.len() == 0 {
        0
    } else {
        spec_count_below(positions.drop_last(), m) + if positions.last() < m {
            1int
        } else {
            0int
        }
    }
}

/// Among positions that differ from each other, one more is below `m + 1`
/// than below `m` exactly where `m` is one of them.
pub proof fn lemma_count_below_step(positions: Seq<int>, m: int)
    requires
        forall|k: int, l: int|
            0 <= k < l < positions.len() ==> #[trigger] positions[k] != #[trigger] positions[l],
    ensures
        spec_count_below(positions, m + 1) == spec_count_below(positions, m) + if positions.contains(
            m,
        ) {
            1int
        } else {
            0int
        },
    decreases positions.len(),
{
    if positions.len() > 0 {
        let front = positions.drop_last();
        lemma_count_below_step(front, m);
        if !front.contains(m) && positions.last() != m && positions.contains(m) {
            let k = choose|k: int| 0 <= k < positions.len() && positions[k] == m;
            assert(front[k] == m);
        }
    }
}

/// Positions that are all below `n` count as many below `n` as there are,
/// and positions that are not negative count none below zero.
pub proof fn lemma_count_below_all(positions: Seq<int>, n: int)
    requires
        forall|k: int| 0 <= k < positions.len() ==> 0 <= #[trigger] positions[k] < n,
    ensures
        spec_count_below(positions, n) == positions.len(),
        spec_count_below(positions, 0) == 0,
    decreases positions.len(),
{
    if positions.len() > 0 {
        lemma_count_below_all(positions.drop_last(), n);
    }
}

/// The unpicked positions below `m` and the picked positions below `m` are
/// `m` together.
pub proof fn lemma_unpicked_count(m: nat, picked: Seq<int>, n: int)
    requires
        spec_distinct_below(picked, n),
    ensures
        spec_unpicked(m, picked).len() + spec_count_below(picked, m as int) == m,
    decreases m,
{
    if m == 0 {
        lemma_count_below_all(picked, n);
    } else {
        lemma_unpicked_count((m - 1) as nat, picked, n);
        lemma_count_below_step(picked, m - 1);
    }
}

/// Where the picked positions are valid and differ from each other, the
/// unpicked positions are all the others: valid, not picked, ascending, and
/// as many as are left.
pub proof fn lemma_unpicked(n: nat, picked: Seq<int>)
    ensures
        spec_unpicked(n, picked).len() <= n,
        forall|k: int|
            0 <= k < spec_unpicked(n, picked).len() ==> {
                let i = #[trigger] spec_unpicked(n, picked)[k];
                0 <= i < n && !picked.contains(i)
            },
        forall|k: int, l: int|
            0 <= k < l < spec_unpicked(n, picked).len() ==> spec_unpicked(n, picked)[k]
                < spec_unpicked(n, picked)[l],
        spec_distinct_below(picked, n as int) ==> spec_unpicked(n, picked).len() == n
            - picked.len(),
    decreases n,
{
    if n > 0 {
        lemma_unpicked((n - 1) as nat, picked);
    }
    if spec_distinct_below(picked, n as int) {
        lemma_unpicked_count(n, picked, n as int);
        lemma_count_below_all(picked, n as int);
    }
}

} // verus!
