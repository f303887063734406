//! Splitting text at a separator, as a host name splits into dot-separated labels.
use vstd::prelude::*;

verus! {

/// The number of leading elements of `s` before the first `sep` (all of `s` when there is none).
pub open spec fn prefix_len<A>(s: Seq<A>, sep: A) -> nat
    decreases s.len(),
{
    if s.len() == 0 || s[0] == sep {
        0
    } else {
        1 + prefix_len(s.drop_first(), sep)
    }
}

/// The pieces of `s` between occurrences of `sep`, in order; never empty.
pub open spec fn split_on<A>(s: Seq<A>, sep: A) -> Seq<Seq<A>>
    decreases s.len(),
{
    let k = prefix_len(s, sep);
    if k >= s.len() {
        seq![s]
    } else {
        seq![s.take(k as int)] + split_on(s.skip(k as int + 1), sep)
    }
}

/// `prefix_len` is the first position that holds `sep`, or the length.
pub proof fn lemma_prefix_len<A>(s: Seq<A>, sep: A, k: int)
    requires
        0 <= k <= s.len(),
        forall|j: int| 0 <= j < k ==> s[j] != sep,
        k == s.len() || s[k] == sep,
    ensures
        prefix_len(s, sep) == k,
    decreases k,
{
    if k > 0 {
        let t = s.drop_first();
        assert forall|j: int| 0 <= j < k - 1 implies t[j] != sep by {
            assert(t[j] == s[j + 1]);
        }
        lemma_prefix_len(t, sep, k - 1);
    }
}

/// Splitting a sequence that has `sep` at `k`, and none before, yields the piece
/// before `k` followed by the pieces of the rest.
pub proof fn lemma_split_at_first<A>(s: Seq<A>, sep: A, k: int)
    requires
        0 <= k < s.len(),
        forall|j: int| 0 <= j < k ==> s[j] != sep,
        s[k] == sep,
    ensures
        split_on(s, sep) == seq![s.take(k)] + split_on(s.skip(k + 1), sep),
{
    lemma_prefix_len(s, sep, k);
}

/// Splitting a sequence without `sep` yields the sequence alone.
pub proof fn lemma_split_without_sep<A>(s: Seq<A>, sep: A)
    requires
        forall|j: int| 0 <= j < s.len() ==> s[j] != sep,
    ensures
        split_on(s, sep) == seq![s],
{
    lemma_prefix_len(s, sep, s.len() as int);
}

/// The first position at or after `start`, and before `end`, where `b` holds `sep`;
/// `end` when there is none.
pub fn find_byte(b: &[u8], start: usize, end: usize, sep: u8) -> (k: usize)
    requires
        start <= end <= b@.len(),
    ensures
        start <= k <= end,
        forall|j: int| start <= j < k ==> b@[j] != sep,
        k == end || b@[k as int] == sep,
{
    let mut k: usize = start;
    while k < end && b[k] != sep
        invariant
            start <= k <= end <= b@.len(),
            forall|j: int| start <= j < k ==> b@[j] != sep,
        decreases end - k,
    {
        k = k + 1;
    }
    k
}

} // verus!
