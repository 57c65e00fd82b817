//! The schedule of a run: burn-in, thinning blocks and collection.
//!
//! The sampler owns the current state and the collected samples, and tells
//! its host which action comes next. The host runs each Metropolis step (it
//! needs the weight and a uniform draw) and hands back the candidate and
//! whether it was accepted; the sampler adopts the candidate on acceptance
//! and counts acceptances of the thinning phase only.
use vstd::prelude::*;

verus! {

/// What the sampler asks its host to do next.
#[derive(Clone, Copy, Debug, PartialEq, Eq, Structural)]
pub enum Action {
    /// Run one Metropolis step of the burn-in; its acceptance is not counted.
    BurnIn,
    /// Run one Metropolis step of a thinning block; its acceptance is counted.
    Thin,
    /// Append a copy of the current state to the samples.
    Collect,
    /// The run is over.
    Done,
}

/// The number of `true` entries of `s`.
pub open spec fn count_true(s: Seq<bool>) -> nat
    decreases s.len(),
{
    if s.len() == 0 {
        0
    } else {
        count_true(s.drop_last()) + if s.last() {
            1nat
        } else {
            0nat
        }
    }
}

proof fn lemma_count_true_bound(s: Seq<bool>)
    ensures
        count_true(s) <= s.len(),
    decreases s.len(),
{
    if s.len() > 0 {
        lemma_count_true_bound(s.drop_last());
    }
}

/// The state of a run of the sampler, over flip times of type `T`.
pub struct Sampler<T> {
    n_init_steps: u64,
    n_samples: u64,
    n_thinning: u64,
    burned: u64,
    thinned: u64,
    accepted: u64,
    state: Vec<T>,
    samples: Vec<Vec<T>>,
    outcomes: Ghost<Seq<bool>>,
}

impl<T: Copy> Sampler<T> {
    /// The number of burn-in steps of the run.
    pub closed spec fn n_init_steps(&self) -> nat {
        self.n_init_steps as nat
    }

    /// The number of samples the run collects.
    pub closed spec fn n_samples(&self) -> nat {
        self.n_samples as nat
    }

    /// The number of Metropolis steps before each collection.
    pub closed spec fn n_thinning(&self) -> nat {
        self.n_thinning as nat
    }

    /// The number of burn-in steps taken so far.
    pub closed spec fn burned(&self) -> nat {
        self.burned as nat
    }

    /// The number of steps taken in the current thinning block.
    pub closed spec fn thinned(&self) -> nat {
        self.thinned as nat
    }

    /// The current state.
    pub closed spec fn state(&self) -> Seq<T> {
        self.state@
    }

    /// The samples collected so far, in collection order.
    pub closed spec fn samples(&self) -> Seq<Seq<T>> {
        self.samples@.map_values(|v: Vec<T>| v@)
    }

    /// Whether each thinning step so far was accepted, in order.
    pub closed spec fn outcomes(&self) -> Seq<bool> {
        self.outcomes@
    }

    /// The count of accepted thinning steps.
    pub closed spec fn accepted(&self) -> nat {
        self.accepted as nat
    }

    /// The invariant of a run: the counters stay within the schedule, the
    /// outcomes of the thinning steps taken so far are recorded and counted,
    /// and every state has an even number of flip times.
    pub closed spec fn wf(&self) -> bool {
        &&& self.burned <= self.n_init_steps
        &&& self.samples@.len() <= self.n_samples
        &&& self.thinned <= self.n_thinning
        &&& self.burned < self.n_init_steps ==> self.samples@.len() == 0 && self.thinned == 0
        &&& self.samples@.len() == self.n_samples ==> self.thinned == 0
        &&& self.n_samples * self.n_thinning <= u64::MAX
        &&& self.outcomes@.len() == self.samples@.len() * self.n_thinning + self.thinned
        &&& self.accepted == count_true(self.outcomes@)
        &&& self.state@.len() % 2 == 0
        &&& forall|k: int| 0 <= k < self.samples@.len() ==> #[trigger] self.samples@[k]@.len() % 2 == 0
    }

    /// The action that comes next.
    pub closed spec fn next_action(&self) -> Action {
        if self.burned < self.n_init_steps {
            Action::BurnIn
        } else if self.samples@.len() == self.n_samples {
            Action::Done
        } else if self.thinned < self.n_thinning {
            Action::Thin
        } else {
            Action::Collect
        }
    }

    /// The number of actions left before the run is over.
    pub closed spec fn remaining(&self) -> int {
        (self.n_init_steps - self.burned) + (self.n_samples - self.samples@.len()) * (
        self.n_thinning + 1) - self.thinned
    }

    /// When a run is over it has collected exactly `n_samples` samples, each
    /// of even length, and taken exactly `n_samples * n_thinning` counted
    /// steps; the acceptance count counts accepted ones among those alone.
    pub proof fn lemma_done_counts(&self)
        requires
            self.wf(),
            self.next_action() == Action::Done,
        ensures
            self.samples().len() == self.n_samples(),
            forall|k: int| 0 <= k < self.samples().len() ==> #[trigger] self.samples()[k].len() % 2 == 0,
            self.outcomes().len() == self.n_samples() * self.n_thinning(),
            self.accepted() == count_true(self.outcomes()),
            self.accepted() <= self.n_samples() * self.n_thinning(),
    {
        lemma_count_true_bound(self.outcomes@);
    }

    /// A run that collects no sample takes no counted step: it has no samples
    /// and no acceptances, whatever its burn-in did.
    pub proof fn lemma_degenerate_run(&self)
        requires
            self.wf(),
            self.n_samples() == 0,
        ensures
            self.samples().len() == 0,
            self.outcomes().len() == 0,
            self.accepted() == 0,
            self.next_action() == Action::BurnIn || self.next_action() == Action::Done,
    {
    }

    /// Starts a run from the empty state.
    pub fn new(n_init_steps: u64, n_samples: u64, n_thinning: u64) -> (r: Self)
        requires
            n_samples * n_thinning <= u64::MAX,
        ensures
            r.wf(),
            r.n_init_steps() == n_init_steps,
            r.n_samples() == n_samples,
            r.n_thinning() == n_thinning,
            r.burned() == 0,
            r.thinned() == 0,
            r.state() == Seq::<T>::empty(),
            r.samples() == Seq::<Seq<T>>::empty(),
            r.outcomes() == Seq::<bool>::empty(),
            r.accepted() == 0,
            r.remaining() == n_init_steps + n_samples * (n_thinning + 1),
    {
        let r = Sampler {
            n_init_steps,
            n_samples,
            n_thinning,
            burned: 0,
            thinned: 0,
            accepted: 0,
            state: Vec::new(),
            samples: Vec::new(),
            outcomes: Ghost(Seq::empty()),
        };
        assert(r.samples() =~= Seq::<Seq<T>>::empty());
        r
    }

    /// The action that comes next; the run is over exactly when no action is
    /// left.
    pub fn action(&self) -> (r: Action)
        requires
            self.wf(),
        ensures
            r == self.next_action(),
            (r == Action::Done) == (self.remaining() == 0),
            self.remaining() >= 0,
    {
        proof {
            self.lemma_remaining();
        }
        if self.burned < self.n_init_steps {
            Action::BurnIn
        } else if self.samples.len() as u64 == self.n_samples {
            Action::Done
        } else if self.thinned < self.n_thinning {
            Action::Thin
        } else {
            Action::Collect
        }
    }

    proof fn lemma_remaining(&self)
        requires
            self.wf(),
        ensures
            self.remaining() >= 0,
            (self.next_action() == Action::Done) == (self.remaining() == 0),
    {
        let left = self.n_samples - self.samples@.len();
        let t = self.n_thinning + 1;
        assert(left * t >= 0) by (nonlinear_arith)
            requires
                left >= 0,
                t >= 1,
        ;
        if left == 0 {
            assert(left * t == 0) by (nonlinear_arith)
                requires
                    left == 0,
            ;
        } else {
            assert(left * t >= t) by (nonlinear_arith)
                requires
                    left >= 1,
                    t >= 1,
            ;
        }
    }

    /// The current state, from which the next step proposes its move.
    pub fn current_state(&self) -> (r: &Vec<T>)
        requires
            self.wf(),
        ensures
            r@ == self.state(),
            r@.len() % 2 == 0,
    {
        &self.state
    }

    /// The count of accepted thinning steps so far.
    pub fn n_accepted(&self) -> (r: u64)
        requires
            self.wf(),
        ensures
            r == self.accepted(),
            r == count_true(self.outcomes()),
    {
        self.accepted
    }

    /// Records the outcome of a Metropolis step: the candidate is adopted if
    /// and only if it was accepted, and the acceptance is counted only in a
    /// thinning block.
    pub fn record_step(&mut self, candidate: Vec<T>, accepted: bool)
        requires
            old(self).wf(),
            old(self).next_action() == Action::BurnIn || old(self).next_action() == Action::Thin,
            candidate@.len() % 2 == 0,
        ensures
            final(self).wf(),
            final(self).n_init_steps() == old(self).n_init_steps(),
            final(self).n_samples() == old(self).n_samples(),
            final(self).n_thinning() == old(self).n_thinning(),
            final(self).state() == if accepted {
                candidate@
            } else {
                old(self).state()
            },
            final(self).samples() == old(self).samples(),
            old(self).next_action() == Action::BurnIn ==> {
                &&& final(self).burned() == old(self).burned() + 1
                &&& final(self).outcomes() == old(self).outcomes()
                &&& final(self).accepted() == old(self).accepted()
            },
            old(self).next_action() == Action::Thin ==> {
                &&& final(self).thinned() == old(self).thinned() + 1
                &&& final(self).outcomes() == old(self).outcomes().push(accepted)
                &&& final(self).accepted() == old(self).accepted() + if accepted {
                    1nat
                } else {
                    0nat
                }
            },
            final(self).remaining() == old(self).remaining() - 1,
    {
        let ghost samples0 = self.samples();
        if self.burned < self.n_init_steps {
            self.burned = self.burned + 1;
        } else {
            proof {
                let k = self.samples@.len() as int;
                let n = self.n_samples as int;
                let t = self.n_thinning as int;
                let j = self.thinned as int;
                assert(k * t + j + 1 <= n * t) by (nonlinear_arith)
                    requires
                        0 <= k < n,
                        0 <= j < t,
                ;
                lemma_count_true_bound(self.outcomes@);
                assert(self.outcomes@.push(accepted).drop_last() =~= self.outcomes@);
            }
            self.thinned = self.thinned + 1;
            if accepted {
                self.accepted = self.accepted + 1;
            }
            self.outcomes = Ghost(self.outcomes@.push(accepted));
        }
        if accepted {
            self.state = candidate;
        }
        assert(self.samples() == samples0);
    }

    /// Appends a copy of the current state to the samples and starts the next
    /// thinning block.
    pub fn collect(&mut self)
        requires
            old(self).wf(),
            old(self).next_action() == Action::Collect,
        ensures
            final(self).wf(),
            final(self).n_init_steps() == old(self).n_init_steps(),
            final(self).n_samples() == old(self).n_samples(),
            final(self).n_thinning() == old(self).n_thinning(),
            final(self).state() == old(self).state(),
            final(self).samples() == old(self).samples().push(old(self).state()),
            final(self).outcomes() == old(self).outcomes(),
            final(self).accepted() == old(self).accepted(),
            final(self).thinned() == 0,
            final(self).remaining() == old(self).remaining() - 1,
    {
        let snapshot = copy_of(&self.state);
        self.samples.push(snapshot);
        self.thinned = 0;
        proof {
            let k = self.samples@.len() - 1;
            let t = self.n_thinning as int;
            assert((k + 1) * t == k * t + t) by (nonlinear_arith);
            let n = self.n_samples as int;
            assert((n - k) * (t + 1) == (n - (k + 1)) * (t + 1) + t + 1) by (nonlinear_arith);
        }
        assert(self.samples() =~= old(self).samples().push(old(self).state()));
    }

    /// Ends the run, handing out the samples in collection order and the
    /// count of accepted thinning steps.
    pub fn finish(self) -> (r: (Vec<Vec<T>>, u64))
        requires
            self.wf(),
            self.next_action() == Action::Done,
        ensures
            r.0@.map_values(|v: Vec<T>| v@) == self.samples(),
            r.0@.len() == self.n_samples(),
            forall|k: int| 0 <= k < r.0@.len() ==> #[trigger] r.0@[k]@.len() % 2 == 0,
            r.1 == self.accepted(),
            r.1 == count_true(self.outcomes()),
            self.outcomes().len() == self.n_samples() * self.n_thinning(),
    {
        (self.samples, self.accepted)
    }
}

/// A copy of `v`, element by element.
fn copy_of<T: Copy>(v: &Vec<T>) -> (r: Vec<T>)
    ensures
        r@ == v@,
{
    let mut r: Vec<T> = Vec::with_capacity(v.len());
    let mut i: usize = 0;
    while i < v.len()
        invariant
            i <= v.len(),
            r@ == v@.subrange(0, i as int),
        decreases v.len() - i,
    {
        r.push(v[i]);
        i = i + 1;
    }
    assert(r@ =~= v@);
    r
}

} // verus!
