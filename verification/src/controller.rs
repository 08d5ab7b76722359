use vstd::prelude::*;

verus! {

use crate::applier::Attempt;
use crate::mode::{Mode, opt_str_view, resolve_spec};

/// What one evaluation decides, given the memory of the last fully applied
/// mode and the current raw configuration value: the mode to apply now, or
/// `None` when the resolved mode is already applied.
pub open spec fn evaluate_spec(last: Option<Mode>, raw: Option<Seq<char>>) -> Option<Mode> {
    let m = resolve_spec(raw);
    if last == Some(m) {
        None
    } else {
        Some(m)
    }
}

/// How the memory of the last applied mode changes once an attempt for `m`
/// finishes: `m` is remembered only when the whole attempt succeeded.
pub open spec fn record_spec(last: Option<Mode>, m: Mode, success: bool) -> Option<Mode> {
    if success {
        Some(m)
    } else {
        last
    }
}

/// The controller's process-lifetime state: the mode whose application last
/// succeeded in full, `None` until a first application succeeds — so after a
/// restart the first evaluation always reapplies.
pub struct Controller {
    last_applied_mode: Option<Mode>,
}

impl Controller {
    /// The mode whose application last succeeded in full, if any.
    pub closed spec fn last_applied(&self) -> Option<Mode> {
        self.last_applied_mode
    }

    /// A fresh controller: no mode applied yet.
    pub fn new() -> (c: Controller)
        ensures
            c.last_applied() is None,
    {
        Controller { last_applied_mode: None }
    }

    /// Decides one evaluation: resolves the configuration value and returns
    /// the mode to apply, or `None` when that mode is already the last one
    /// applied — in that case the cycle performs zero writes.
    pub fn evaluate(&self, raw: Option<String>) -> (r: Option<Mode>)
        ensures
            r == evaluate_spec(self.last_applied(), opt_str_view(raw)),
    {
        let m = Mode::resolve(raw);
        let already = match &self.last_applied_mode {
            Some(p) => *p == m,
            None => false,
        };
        if already {
            None
        } else {
            Some(m)
        }
    }

    /// Records a finished attempt: its mode becomes the last applied only
    /// when every write succeeded; after a failure the memory is unchanged,
    /// so a later reading of the same mode is not mistaken for applied.
    pub fn record_attempt(&mut self, a: &Attempt)
        requires
            a.wf(),
            a.pending() is None,
        ensures
            final(self).last_applied() == record_spec(
                old(self).last_applied(),
                a.mode_spec(),
                a.succeeded_spec(),
            ),
    {
        if a.succeeded() {
            self.last_applied_mode = Some(a.mode());
        }
    }

    /// The controller's memory of the last fully applied mode.
    pub fn last_applied_mode(&self) -> (r: Option<Mode>)
        ensures
            r == self.last_applied(),
    {
        self.last_applied_mode
    }
}

/// Applying a mode twice in succession with no intervening change performs
/// zero writes the second time: once an attempt for the resolved mode
/// succeeds, evaluating any configuration that resolves to that same mode
/// decides to do nothing.
pub proof fn lemma_idempotent_reapplication(last: Option<Mode>, m: Mode, raw: Option<Seq<char>>)
    requires
        resolve_spec(raw) == m,
    ensures
        evaluate_spec(record_spec(last, m, true), raw) is None,
{
}

/// If the thermal write — the first write of an attempt's plan — fails, the
/// attempt halts with zero writes completed: no frequency-path write was
/// performed, none is pending afterwards, and recording the attempt leaves
/// the controller's memory of the last applied mode unchanged.
pub proof fn lemma_thermal_failure_updates_nothing(a: Attempt, last: Option<Mode>)
    requires
        a.wf(),
        a.has_failed(),
        a.completed() == 0,
    ensures
        a.pending() is None,
        record_spec(last, a.mode_spec(), a.succeeded_spec()) == last,
{
}

/// A failed attempt leaves the controller's memory unchanged, and if the
/// attempted mode was not already the remembered one, an evaluation of any
/// configuration that still resolves to it schedules that mode again — the
/// retry repeats the full plan, from the thermal write onward.
pub proof fn lemma_failure_retries_in_full(last: Option<Mode>, m: Mode, raw: Option<Seq<char>>)
    requires
        resolve_spec(raw) == m,
        last != Some(m),
    ensures
        record_spec(last, m, false) == last,
        evaluate_spec(record_spec(last, m, false), raw) == Some(m),
{
}

} // verus!
