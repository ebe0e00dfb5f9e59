//! Facts about sequences shared by the other modules.

use vstd::prelude::*;

verus! {

/// Membership in a filtered sequence, and preservation of distinctness.
pub proof fn lemma_filter_membership<A>(s: Seq<A>, p: spec_fn(A) -> bool)
    ensures
        forall|x: A| #[trigger] s.filter(p).contains(x) <==> (s.contains(x) && p(x)),
        s.no_duplicates() ==> s.filter(p).no_duplicates(),
        s.filter(p).len() <= s.len(),
    decreases s.len(),
{
    reveal(Seq::filter);
    if s.len() > 0 {
        let init = s.drop_last();
        lemma_filter_membership(init, p);
        assert(init.push(s.last()) =~= s);
        assert forall|x: A| #[trigger] s.filter(p).contains(x) <==> (s.contains(x) && p(x)) by {
            if s.contains(x) && p(x) {
                let i = choose|i: int| 0 <= i < s.len() && s[i] == x;
                if i < s.len() - 1 {
                    assert(init[i] == x);
                    assert(init.contains(x));
                } else {
                    assert(s.filter(p).last() == x);
                }
            }
            if s.filter(p).contains(x) {
                let j = choose|j: int| 0 <= j < s.filter(p).len() && s.filter(p)[j] == x;
                if p(s.last()) && j == s.filter(p).len() - 1 {
                    assert(s.last() == x);
                } else {
                    assert(init.filter(p)[j] == x);
                    assert(init.filter(p).contains(x));
                }
            }
        }
        if s.no_duplicates() {
            assert(init.no_duplicates());
            if p(s.last()) {
                assert(!init.contains(s.last()));
                assert(!init.filter(p).contains(s.last()));
            }
        }
    }
}

/// Filtering keeps a sequence whole when every element passes.
pub proof fn lemma_filter_all_kept<A>(s: Seq<A>, p: spec_fn(A) -> bool)
    requires
        forall|x: A| s.contains(x) ==> p(x),
    ensures
        s.filter(p) == s,
    decreases s.len(),
{
    reveal(Seq::filter);
    if s.len() > 0 {
        let init = s.drop_last();
        assert forall|x: A| init.contains(x) implies p(x) by {
            let i = choose|i: int| 0 <= i < init.len() && init[i] == x;
            assert(init[i] == s[i]);
            assert(s.contains(x));
        }
        lemma_filter_all_kept(init, p);
        assert(s.contains(s.last()));
        assert(init.push(s.last()) =~= s);
    }
}

} // verus!
