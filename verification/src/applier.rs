use vstd::prelude::*;

verus! {

use crate::mode::Mode;
use crate::profile::{WriteOp, ops_view, plan_for};

/// One application attempt for a mode.
///
/// The attempt hands out the mode's control-file writes one at a time, in
/// the fixed order of the mode's plan — thermal profile first, then the
/// frequency caps — and the caller performs each write and reports its
/// outcome. The first reported failure halts the attempt: every later write
/// is skipped, writes already performed are not rolled back, and the next
/// evaluation cycle retries the full sequence. This keeps the ordering and
/// abort-on-failure decisions here while the I/O itself stays with the
/// caller.
pub struct Attempt {
    mode: Mode,
    plan: Vec<WriteOp>,
    next_idx: usize,
    failed: bool,
}

impl Attempt {
    /// The mode this attempt applies.
    pub closed spec fn mode_spec(&self) -> Mode {
        self.mode
    }

    /// How many writes of the plan have been confirmed successful.
    pub closed spec fn completed(&self) -> int {
        self.next_idx as int
    }

    /// Whether some write of this attempt was reported failed.
    pub closed spec fn has_failed(&self) -> bool {
        self.failed
    }

    /// The attempt carries exactly its mode's plan and its counters are in
    /// range. Established by `start` and preserved by every method.
    pub closed spec fn wf(&self) -> bool {
        &&& ops_view(self.plan@) == plan_for(self.mode)
        &&& self.next_idx <= self.plan@.len()
        &&& (self.failed ==> self.next_idx < self.plan@.len())
    }

    /// The write that is due next: `None` once every write succeeded or one
    /// failed, so after a failure nothing further is ever handed out.
    pub open spec fn pending(&self) -> Option<(Seq<char>, Seq<char>)> {
        if self.has_failed() || self.completed() >= plan_for(self.mode_spec()).len() {
            None
        } else {
            Some(plan_for(self.mode_spec())[self.completed()])
        }
    }

    /// Whether every write of the plan was performed and succeeded.
    pub open spec fn succeeded_spec(&self) -> bool {
        !self.has_failed() && self.completed() == plan_for(self.mode_spec()).len()
    }

    /// Starts an attempt for `mode`: nothing performed yet, nothing failed,
    /// and the thermal write pending first.
    pub fn start(mode: Mode) -> (a: Attempt)
        ensures
            a.wf(),
            a.mode_spec() == mode,
            a.completed() == 0,
            !a.has_failed(),
    {
        let plan = mode.plan();
        Attempt { mode, plan, next_idx: 0, failed: false }
    }

    /// The next write the caller should perform, or `None` when the attempt
    /// is over.
    pub fn next_write(&self) -> (r: Option<&WriteOp>)
        requires
            self.wf(),
        ensures
            r matches Some(op) ==> self.pending() == Some(op@),
            r is None <==> self.pending() is None,
    {
        if self.failed || self.next_idx >= self.plan.len() {
            None
        } else {
            Some(&self.plan[self.next_idx])
        }
    }

    /// Records the outcome of the pending write. On success the next write of
    /// the plan becomes pending; on failure the attempt halts for good.
    pub fn record(&mut self, ok: bool)
        requires
            old(self).wf(),
            old(self).pending() is Some,
        ensures
            final(self).wf(),
            final(self).mode_spec() == old(self).mode_spec(),
            ok ==> !final(self).has_failed() && final(self).completed() == old(self).completed()
                + 1,
            !ok ==> final(self).has_failed() && final(self).completed() == old(self).completed(),
    {
        if ok {
            self.next_idx = self.next_idx + 1;
        } else {
            self.failed = true;
        }
    }

    /// Whether the attempt is over: every write succeeded or one failed.
    pub fn is_complete(&self) -> (r: bool)
        requires
            self.wf(),
        ensures
            r == (self.pending() is None),
    {
        self.failed || self.next_idx >= self.plan.len()
    }

    /// Whether every write of the plan succeeded.
    pub fn succeeded(&self) -> (r: bool)
        requires
            self.wf(),
        ensures
            r == self.succeeded_spec(),
    {
        !self.failed && self.next_idx >= self.plan.len()
    }

    /// The mode this attempt applies.
    pub fn mode(&self) -> (m: Mode)
        ensures
            m == self.mode_spec(),
    {
        self.mode
    }
}

/// Once any write of an attempt fails, no further write is pending — every
/// later path of that attempt is skipped — and the attempt cannot count as
/// succeeded.
pub proof fn lemma_failure_skips_rest(a: Attempt)
    requires
        a.wf(),
        a.has_failed(),
    ensures
        a.pending() is None,
        !a.succeeded_spec(),
{
}

} // verus!
