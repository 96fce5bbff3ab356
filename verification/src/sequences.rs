//! Facts about sequences that the loops of the library rest on.

use vstd::prelude::*;

verus! {

/// Filtering a prefix that is one element longer.
pub proof fn lemma_filter_take<A>(s: Seq<A>, i: int, keep: spec_fn(A) -> bool)
    requires
        0 <= i < s.len(),
    ensures
        s.take(i + 1).filter(keep) == if keep(s[i]) {
            s.take(i).filter(keep).push(s[i])
        } else {
            s.take(i).filter(keep)
        },
{
    reveal(Seq::filter);
    assert(s.take(i + 1).drop_last() =~= s.take(i));
}

/// Filtering a whole sequence, and nothing of it.
pub proof fn lemma_filter_ends<A>(s: Seq<A>, keep: spec_fn(A) -> bool)
    ensures
        s.take(0).filter(keep) == Seq::<A>::empty(),
        s.take(s.len() as int).filter(keep) == s.filter(keep),
{
    reveal(Seq::filter);
    assert(s.take(0) =~= Seq::empty());
    assert(s.take(s.len() as int) =~= s);
}

/// Filtering never makes a sequence longer.
pub proof fn lemma_filter_len<A>(s: Seq<A>, keep: spec_fn(A) -> bool)
    ensures
        s.filter(keep).len() <= s.len(),
    decreases s.len(),
{
    reveal(Seq::filter);
    if s.len() > 0 {
        lemma_filter_len(s.drop_last(), keep);
    }
}

/// A filter keeps exactly the elements that pass it.
pub proof fn lemma_filter_contains<A>(s: Seq<A>, keep: spec_fn(A) -> bool, x: A)
    ensures
        s.filter(keep).contains(x) <==> s.contains(x) && keep(x),
    decreases s.len(),
{
    reveal(Seq::filter);
    if s.len() > 0 {
        let shorter = s.drop_last();
        let last = s[s.len() - 1];
        lemma_filter_contains(shorter, keep, x);
        assert(s =~= shorter.push(last));
        if shorter.contains(x) {
            let at = shorter.index_of(x);
            assert(s[at] == x);
        }
        if s.contains(x) {
            let at = s.index_of(x);
            if at < shorter.len() {
                assert(shorter[at] == x);
            }
        }
        let kept = shorter.filter(keep);
        if kept.contains(x) {
            let at = kept.index_of(x);
            assert(kept.push(last)[at] == x);
        }
        assert(kept.push(last)[kept.len() as int] == last);
        if kept.push(last).contains(x) {
            let at = kept.push(last).index_of(x);
            if at < kept.len() {
                assert(kept[at] == x);
            }
        }
    }
}

} // verus!
