use vstd::prelude::*;

verus! {

/// Whether some step of a run of propagation results failed.
pub open spec fn any_failed<S>(results: Seq<Option<S>>) -> bool {
    exists|i: int| 0 <= i < results.len() && (#[trigger] results[i]) is None
}

/// The samples of a run in which every step succeeded, in step order.
pub open spec fn unwrapped<S>(results: Seq<Option<S>>) -> Seq<S> {
    results.map_values(|r: Option<S>| r->0)
}

/// What a run of propagation results, one per step, builds: every sample in
/// step order when every step succeeded, and nothing at all when any failed.
pub open spec fn all_or_nothing<S>(results: Seq<Option<S>>) -> Option<Seq<S>> {
    if any_failed(results) {
        None
    } else {
        Some(unwrapped(results))
    }
}

/// Gathers the states propagated for an ephemeris, step by step, and hands
/// them out only if no step failed.
pub struct SampleCollector<S> {
    samples: Vec<S>,
    failed: bool,
    results: Ghost<Seq<Option<S>>>,
}

impl<S> SampleCollector<S> {
    /// The propagation results received so far, in step order.
    pub closed spec fn spec_results(&self) -> Seq<Option<S>> {
        self.results@
    }

    /// The samples are those of the results received, as long as none failed.
    pub closed spec fn wf(&self) -> bool {
        &&& self.failed == any_failed(self.results@)
        &&& !self.failed ==> self.samples@ == unwrapped(self.results@)
    }

    pub fn new() -> (r: SampleCollector<S>)
        ensures
            r.wf(),
            r.spec_results() == Seq::<Option<S>>::empty(),
    {
        let r = SampleCollector { samples: Vec::new(), failed: false, results: Ghost(Seq::empty()) };
        assert(r.samples@ =~= unwrapped(r.results@));
        r
    }

    /// Whether some step has failed.
    pub fn has_failed(&self) -> (r: bool)
        requires
            self.wf(),
        ensures
            r == any_failed(self.spec_results()),
    {
        self.failed
    }

    /// Records the result of the next step. Returns whether the build can
    /// still succeed, i.e. whether propagating further is worth it.
    pub fn push(&mut self, result: Option<S>) -> (more: bool)
        requires
            old(self).wf(),
        ensures
            final(self).wf(),
            final(self).spec_results() == old(self).spec_results().push(result),
            more == !any_failed(final(self).spec_results()),
    {
        let ghost old_results = self.results@;
        let ghost new_results = old_results.push(result);
        assert(new_results.subrange(0, old_results.len() as int) =~= old_results);
        assert(any_failed(old_results) ==> any_failed(new_results)) by {
            if any_failed(old_results) {
                let i = choose|i: int| 0 <= i < old_results.len() && (#[trigger] old_results[i]) is None;
                assert(new_results[i] == old_results[i]);
            }
        }
        match result {
            Some(s) => {
                if !self.failed {
                    self.samples.push(s);
                }
                proof {
                    assert(any_failed(new_results) ==> any_failed(old_results)) by {
                        if any_failed(new_results) {
                            let i = choose|i: int|
                                0 <= i < new_results.len() && (#[trigger] new_results[i]) is None;
                            assert(i < old_results.len());
                            assert(old_results[i] == new_results[i]);
                        }
                    }
                    assert(unwrapped(new_results) =~= unwrapped(old_results).push(s));
                }
            },
            None => {
                self.failed = true;
                assert(new_results[old_results.len() as int] is None);
            },
        }
        self.results = Ghost(new_results);
        !self.failed
    }

    /// The samples, every one in step order, if no step failed; otherwise
    /// none.
    pub fn finish(self) -> (r: Option<Vec<S>>)
        requires
            self.wf(),
        ensures
            r matches Some(v) ==> all_or_nothing(self.spec_results()) == Some(v@),
            r is None <==> all_or_nothing(self.spec_results()) is None,
    {
        if self.failed {
            None
        } else {
            Some(self.samples)
        }
    }
}

/// One failed step anywhere in a run leaves nothing, not a partial
/// ephemeris.
pub proof fn lemma_one_failure_builds_nothing<S>(results: Seq<Option<S>>, i: int)
    requires
        0 <= i < results.len(),
        results[i] is None,
    ensures
        all_or_nothing(results) is None,
{
}

/// A run without failures builds one sample per step, each the state that
/// step propagated.
pub proof fn lemma_success_keeps_every_step<S>(results: Seq<Option<S>>)
    requires
        forall|i: int| 0 <= i < results.len() ==> (#[trigger] results[i]) is Some,
    ensures
        all_or_nothing(results) matches Some(v) && v.len() == results.len() && forall|i: int|
            0 <= i < results.len() ==> results[i] == Some(#[trigger] v[i]),
{
}

} // verus!
