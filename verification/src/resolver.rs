//! A key-resolving closure together with the record of its runs, so that what
//! a handler substitutes can be tied to exactly one run of its closure.

use vstd::prelude::*;

verus! {

/// One run of a resolving closure: the key it was given and what it returned.
pub type Run = (Seq<char>, Option<String>);

/// `after` is `before` with exactly one more run, on `key`.
pub open spec fn one_more_run(before: Seq<Run>, after: Seq<Run>, key: Seq<char>) -> bool {
    &&& after.len() == before.len() + 1
    &&& after.drop_last() == before
    &&& after.last().0 == key
}

/// A closure resolving markup-extension keys, with the runs it has made.
/// The closure can only be run through [`CountedResolver::resolve`], which
/// records each run.
pub struct CountedResolver<F: FnMut(&str) -> Option<String>> {
    f: F,
    runs: Ghost<Seq<Run>>,
}

impl<F: FnMut(&str) -> Option<String>> CountedResolver<F> {
    /// The wrapped closure.
    pub closed spec fn closure(&self) -> F {
        self.f
    }

    /// The runs made so far, oldest first.
    pub closed spec fn runs(&self) -> Seq<Run> {
        self.runs@
    }

    /// Wraps `f`, which has not run yet.
    pub fn new(f: F) -> (r: Self)
        ensures
            r.closure() == f,
            r.runs() == Seq::<Run>::empty(),
    {
        CountedResolver { f, runs: Ghost(Seq::empty()) }
    }

    /// Runs the closure once on `key` and records the run.
    pub fn resolve(&mut self, key: &str) -> (out: Option<String>)
        requires
            call_requires(old(self).closure(), (key,)),
        ensures
            call_ensures(old(self).closure(), (key,), out),
            final(self).closure() == old(self).closure(),
            one_more_run(old(self).runs(), final(self).runs(), key@),
            final(self).runs().last().1 == out,
    {
        let out = (self.f)(key);
        self.runs = Ghost(self.runs@.push((key@, out)));
        proof {
            assert(self.runs@.drop_last() =~= old(self).runs@);
        }
        out
    }
}

/// Two resolutions in a row are two runs, in call order, on their own keys:
/// none is skipped and none is repeated.
pub proof fn lemma_two_runs_in_order(
    r0: Seq<Run>,
    r1: Seq<Run>,
    r2: Seq<Run>,
    k1: Seq<char>,
    k2: Seq<char>,
)
    requires
        one_more_run(r0, r1, k1),
        one_more_run(r1, r2, k2),
    ensures
        r2.len() == r0.len() + 2,
        r2.subrange(0, r0.len() as int) == r0,
        r2[r0.len() as int] == r1.last(),
        r2[r0.len() as int].0 == k1,
        r2[r0.len() + 1int].0 == k2,
{
    assert(r2.subrange(0, r0.len() as int) =~= r0) by {
        assert(r1.drop_last() == r0);
        assert(r2.drop_last() == r1);
        assert forall|i: int| 0 <= i < r0.len() implies r2[i] == r0[i] by {
            assert(r2.drop_last()[i] == r2[i]);
            assert(r1.drop_last()[i] == r1[i]);
        }
    }
    assert(r2.drop_last()[r0.len() as int] == r2[r0.len() as int]);
}

} // verus!
