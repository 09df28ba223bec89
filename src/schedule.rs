//! The iteration budget of a training run and its early stop.
use vstd::prelude::*;

verus! {

/// Hands out iteration indices `0, 1, 2, ...` until either the budget of
/// `max_iterations` is spent or an iteration has ended with a zero metric.
pub struct Schedule {
    max_iterations: usize,
    next: usize,
    stopped: bool,
}

impl Schedule {
    /// The iteration budget.
    pub closed spec fn budget(&self) -> nat {
        self.max_iterations as nat
    }

    /// How many iterations have been handed out so far.
    pub closed spec fn executed(&self) -> nat {
        self.next as nat
    }

    /// Whether an iteration has ended with a zero metric.
    pub closed spec fn converged(&self) -> bool {
        self.stopped
    }

    /// The schedule's invariant: never more iterations than the budget.
    pub closed spec fn wf(&self) -> bool {
        self.next <= self.max_iterations
    }

    /// No further iteration will be handed out.
    pub open spec fn done(&self) -> bool {
        self.converged() || self.executed() >= self.budget()
    }

    /// A fresh schedule: nothing run yet, not converged.
    pub fn new(max_iterations: usize) -> (r: Schedule)
        ensures
            r.wf(),
            r.budget() == max_iterations,
            r.executed() == 0,
            !r.converged(),
    {
        Schedule { max_iterations, next: 0, stopped: false }
    }

    /// The index of the next iteration to run, or `None` when the run is over.
    /// Indices come in increasing order, one apart, starting at zero.
    pub fn next_iteration(&mut self) -> (r: Option<usize>)
        requires
            old(self).wf(),
        ensures
            final(self).wf(),
            final(self).budget() == old(self).budget(),
            final(self).converged() == old(self).converged(),
            old(self).done() ==> r is None && final(self).executed() == old(self).executed(),
            !old(self).done() ==> r == Some(old(self).executed() as usize)
                && final(self).executed() == old(self).executed() + 1,
    {
        if self.stopped || self.next >= self.max_iterations {
            None
        } else {
            let it = self.next;
            self.next = self.next + 1;
            Some(it)
        }
    }

    /// Records whether the iteration just run ended with a zero metric; if so,
    /// the run stops.
    pub fn record(&mut self, metric_is_zero: bool)
        requires
            old(self).wf(),
        ensures
            final(self).wf(),
            final(self).budget() == old(self).budget(),
            final(self).executed() == old(self).executed(),
            final(self).converged() == (old(self).converged() || metric_is_zero),
    {
        if metric_is_zero {
            self.stopped = true;
        }
    }

    /// Whether no further iteration will be handed out.
    pub fn is_done(&self) -> (r: bool)
        requires
            self.wf(),
        ensures
            r == self.done(),
    {
        self.stopped || self.next >= self.max_iterations
    }

    /// How many iterations have been handed out so far.
    pub fn iterations_run(&self) -> (r: usize)
        ensures
            r == self.executed(),
    {
        self.next
    }
}

} // verus!
