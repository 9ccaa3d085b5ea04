//! Index layout shared by the samplers and the plots: the pair-producing
//! methods write their two outputs of one accepted draw at positions `2*i`
//! and `2*i + 1`, and the quantile plot pairs each sorted sample with its
//! rank, ascending from zero.

use vstd::prelude::*;

verus! {

/// Merge a sequence of output pairs into one sample sequence, the first
/// member of pair `i` at position `2*i`, the second at `2*i + 1`.
pub fn interleave_pairs<T: Copy>(pairs: &Vec<(T, T)>) -> (merged: Vec<T>)
    ensures
        merged@.len() == 2 * pairs@.len(),
        forall|i: int|
            0 <= i < pairs@.len() ==> merged@[2 * i] == pairs@[i].0 && merged@[2 * i + 1]
                == pairs@[i].1,
{
    let mut merged: Vec<T> = Vec::new();
    let mut i: usize = 0;
    while i < pairs.len()
        invariant
            i <= pairs@.len(),
            merged@.len() == 2 * i,
            forall|j: int|
                0 <= j < i ==> merged@[2 * j] == pairs@[j].0 && merged@[2 * j + 1] == pairs@[j].1,
        decreases pairs@.len() - i,
    {
        let pair = pairs[i];
        merged.push(pair.0);
        merged.push(pair.1);
        i = i + 1;
    }
    merged
}

/// Pair each element with its rank: element `i` becomes `(i, values[i])`.
/// Applied to a sorted sequence of length `n`, the ranks are exactly
/// `0, 1, ..., n - 1` in ascending order.
pub fn pair_with_ranks<T: Copy>(values: &Vec<T>) -> (coords: Vec<(usize, T)>)
    ensures
        coords@.len() == values@.len(),
        forall|i: int|
            0 <= i < values@.len() ==> (#[trigger] coords@[i]).0 == i && coords@[i].1
                == values@[i],
{
    let mut coords: Vec<(usize, T)> = Vec::new();
    let mut i: usize = 0;
    while i < values.len()
        invariant
            i <= values@.len(),
            coords@.len() == i,
            forall|j: int|
                0 <= j < i ==> (#[trigger] coords@[j]).0 == j && coords@[j].1 == values@[j],
        decreases values@.len() - i,
    {
        coords.push((i, values[i]));
        i = i + 1;
    }
    coords
}

/// The ranks produced by `pair_with_ranks` ascend strictly: whatever the
/// values, the rank components of the coordinate sequence are in ascending
/// order.
pub proof fn lemma_ranks_ascending<T>(coords: Seq<(usize, T)>)
    requires
        forall|i: int| 0 <= i < coords.len() ==> #[trigger] coords[i].0 == i,
    ensures
        forall|i: int, j: int| 0 <= i < j < coords.len() ==> coords[i].0 < coords[j].0,
{
}

/// Copy the first `count` elements, in order.
pub fn take_prefix<T: Copy>(values: &Vec<T>, count: usize) -> (prefix: Vec<T>)
    requires
        count <= values@.len(),
    ensures
        prefix@ == values@.subrange(0, count as int),
{
    let mut prefix: Vec<T> = Vec::new();
    let mut i: usize = 0;
    while i < count
        invariant
            i <= count <= values@.len(),
            prefix@ == values@.subrange(0, i as int),
        decreases count - i,
    {
        prefix.push(values[i]);
        proof {
            assert(prefix@ =~= values@.subrange(0, i + 1));
        }
        i = i + 1;
    }
    prefix
}

} // verus!
