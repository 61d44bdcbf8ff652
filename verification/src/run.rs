use vstd::prelude::*;

use crate::error::BindError;
use crate::plan::{step_views, BindPlan, BindStep, BindStepView};

verus! {

/// Tracks the execution of a bind plan. Steps are handed out strictly in
/// plan order, each exactly once; the first failing step aborts the whole
/// run, consuming it, so no partially bound server ever survives an error.
pub struct BindRun {
    plan: BindPlan,
    bound: usize,
}

impl BindRun {
    /// The models of the plan's steps, in order.
    pub closed spec fn steps(self) -> Seq<BindStepView> {
        step_views(self.plan.steps@)
    }

    /// How many steps have been bound so far.
    pub closed spec fn bound_count(self) -> int {
        self.bound as int
    }

    /// The worker count the plan was built with.
    pub closed spec fn workers(self) -> int {
        self.plan.workers as int
    }

    /// At most every step has been bound.
    pub closed spec fn wf(self) -> bool {
        self.bound <= self.plan.steps@.len()
    }

    /// Starts a run with nothing bound yet.
    pub fn start(plan: BindPlan) -> (r: BindRun)
        ensures
            r.wf(),
            r.steps() == step_views(plan.steps@),
            r.bound_count() == 0,
            r.workers() == plan.workers,
    {
        BindRun { plan, bound: 0 }
    }

    /// Whether every step of the plan has been bound.
    pub fn finished(&self) -> (b: bool)
        requires
            self.wf(),
        ensures
            b == (self.bound_count() == self.steps().len()),
    {
        self.bound == self.plan.steps.len()
    }

    /// The next step to bind.
    pub fn current(&self) -> (s: &BindStep)
        requires
            self.wf(),
            self.bound_count() < self.steps().len(),
        ensures
            s@ == self.steps()[self.bound_count()],
    {
        &self.plan.steps[self.bound]
    }

    /// Records that the current step was bound; the plan itself is
    /// unchanged.
    pub fn note_bound(&mut self)
        requires
            old(self).wf(),
            old(self).bound_count() < old(self).steps().len(),
        ensures
            final(self).wf(),
            final(self).steps() == old(self).steps(),
            final(self).bound_count() == old(self).bound_count() + 1,
            final(self).workers() == old(self).workers(),
    {
        // the step count fits in usize, so the increment cannot overflow
        let n: usize = self.plan.steps.len();
        proof {
            assert(self.bound < n);
        }
        self.bound = self.bound + 1;
    }

    /// Aborts the run on the first failure, handing the failure back
    /// unchanged. The run — and with it every listener bound so far — is
    /// consumed: a failed startup exposes no partial server.
    pub fn abort(self, err: BindError) -> (e: BindError)
        ensures
            e == err,
    {
        err
    }

    /// Finishes a fully bound run, yielding the worker count the server
    /// is to start with.
    pub fn into_workers(self) -> (w: usize)
        requires
            self.wf(),
            self.bound_count() == self.steps().len(),
        ensures
            w == self.workers(),
    {
        self.plan.workers
    }
}

} // verus!
