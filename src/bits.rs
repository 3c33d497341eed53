//! Dense bitmasks held in 64-bit words, and the ascending list of the indices
//! whose bit is set.
use vstd::prelude::*;

verus! {

/// Number of bits in one word of a bitmask.
pub const WORD_BITS: usize = 64;

/// Bit `i` of the mask: word `i / 64`, offset `i % 64`.
pub open spec fn bit_set(w: Seq<u64>, i: int) -> bool {
    (w[i / 64] >> ((i % 64) as u64)) & 1u64 == 1u64
}

/// The indices of `[low, high)` whose bit is set, in ascending order.
pub open spec fn set_bits_seq(w: Seq<u64>, low: usize, high: usize) -> Seq<usize>
    decreases high,
{
    if high <= low {
        Seq::empty()
    } else {
        let prev = set_bits_seq(w, low, (high - 1) as usize);
        if bit_set(w, high - 1) {
            prev.push((high - 1) as usize)
        } else {
            prev
        }
    }
}

/// An index lies in `set_bits_seq(w, low, high)` exactly when it lies in
/// `[low, high)` and its bit is set.
pub proof fn lemma_set_bits_member(w: Seq<u64>, low: usize, high: usize, i: usize)
    ensures
        set_bits_seq(w, low, high).contains(i) <==> (low <= i < high && bit_set(w, i as int)),
    decreases high,
{
    if high > low {
        let prev = set_bits_seq(w, low, (high - 1) as usize);
        lemma_set_bits_member(w, low, (high - 1) as usize, i);
        if bit_set(w, high - 1) {
            let cur = prev.push((high - 1) as usize);
            assert(cur[prev.len() as int] == high - 1);
            if cur.contains(i) && i != high - 1 {
                let k = choose|k: int| 0 <= k < cur.len() && #[trigger] cur[k] == i;
                assert(prev[k] == i);
            }
            if prev.contains(i) {
                let k = choose|k: int| 0 <= k < prev.len() && #[trigger] prev[k] == i;
                assert(cur[k] == i);
            }
        }
    }
}

/// `set_bits_seq` is strictly ascending and stays inside `[low, high)`.
pub proof fn lemma_set_bits_ascending(w: Seq<u64>, low: usize, high: usize)
    ensures
        forall|k: int| 0 <= k < set_bits_seq(w, low, high).len() ==>
            low <= #[trigger] set_bits_seq(w, low, high)[k] < high,
        forall|j: int, k: int| 0 <= j < k < set_bits_seq(w, low, high).len() ==>
            set_bits_seq(w, low, high)[j] < set_bits_seq(w, low, high)[k],
    decreases high,
{
    if high > low {
        let prev = set_bits_seq(w, low, (high - 1) as usize);
        lemma_set_bits_ascending(w, low, (high - 1) as usize);
        if bit_set(w, high - 1) {
            let cur = prev.push((high - 1) as usize);
            assert forall|k: int| 0 <= k < cur.len() implies low <= #[trigger] cur[k] < high by {
                if k < prev.len() {
                    assert(cur[k] == prev[k]);
                }
            }
            assert forall|j: int, k: int| 0 <= j < k < cur.len() implies cur[j] < cur[k] by {
                assert(cur[j] == prev[j]);
                if k < prev.len() {
                    assert(cur[k] == prev[k]);
                }
            }
        }
    }
}

/// The decoded indices are a function of the mask and the range alone: two
/// decodings of the same mask over the same range give the same sequence.
pub proof fn lemma_set_bits_repeatable(w: Seq<u64>, low: usize, high: usize, r1: Seq<usize>, r2: Seq<usize>)
    requires
        high <= w.len() * 64,
        r1 == set_bits_seq(w, low, high),
        r2 == set_bits_seq(w, low, high),
    ensures
        r1 == r2,
        forall|i: usize| r1.contains(i) <==> r2.contains(i),
{
}

/// Tests one bit of the mask.
pub fn bit_at(words: &Vec<u64>, i: usize) -> (r: bool)
    requires
        i < words@.len() * 64,
    ensures
        r == bit_set(words@, i as int),
{
    (words[i / WORD_BITS] >> ((i % WORD_BITS) as u64)) & 1u64 == 1u64
}

/// Every index of `[low, high)` whose bit is set in `words`, ascending.
pub fn set_bits(words: &Vec<u64>, low: usize, high: usize) -> (r: Vec<usize>)
    requires
        high <= words@.len() * 64,
    ensures
        r@ == set_bits_seq(words@, low, high),
        forall|i: usize| r@.contains(i) <==> (low <= i < high && bit_set(words@, i as int)),
        forall|j: int, k: int| 0 <= j < k < r@.len() ==> r@[j] < r@[k],
{
    let mut r: Vec<usize> = Vec::new();
    if low < high {
        let mut i: usize = low;
        while i < high
            invariant
                low <= i <= high,
                high <= words@.len() * 64,
                r@ == set_bits_seq(words@, low, i),
            decreases high - i,
        {
            if bit_at(words, i) {
                r.push(i);
            }
            i = i + 1;
        }
    }
    proof {
        lemma_set_bits_ascending(words@, low, high);
        assert forall|i: usize| r@.contains(i) <==> (low <= i < high && bit_set(words@, i as int)) by {
            lemma_set_bits_member(words@, low, high, i);
        }
    }
    r
}

} // verus!
