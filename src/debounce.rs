//! The debouncer: turns bursts of filtered changes into at most one
//! restart trigger per debounce window.
//!
//! The debouncer returns to idle when the restart that it triggered reports that
//! it finished (`restart_finished`), not on a timer, so that a restart slower
//! than the window never overlaps a second one. The window is still measured
//! from the last accepted trigger, so a restart that finishes early does not
//! open the debouncer before the window has passed.

use vstd::prelude::*;
use crate::filter::{ignored, rule_list, should_ignore};

verus! {

/// A path reported as changed, and whether it names a directory.
pub struct ChangedPath {
    pub path: String,
    pub is_dir: bool,
}

/// What the debouncer decides for one batch of changes.
pub enum GateDecision {
    /// Restart now; the changed paths that are not ignored, in order.
    Trigger(Vec<String>),
    /// Do nothing; `warn` says whether to log that a change was skipped.
    Skip { warn: bool },
}

/// The state of the debouncer. Times are milliseconds on a monotonic clock.
#[derive(Clone, Copy, PartialEq, Eq, Structural, Debug)]
pub struct DebounceGate {
    /// The debounce window.
    pub window_ms: u64,
    /// When the last trigger was accepted, if one was.
    pub last_accepted: Option<u64>,
    /// When the last skipped change was warned of, if one was.
    pub last_warned: Option<u64>,
    /// Whether the triggered restart is still running.
    pub in_flight: bool,
}

/// One input of the debouncer, for stating what a run of inputs does.
pub enum GateEvent {
    /// A batch with at least one change that is not ignored, at a time.
    Changes(u64),
    /// The triggered restart finished.
    RestartDone,
}

/// Whether more than `window` has passed at `now` since `since`; never-before counts as long ago.
pub open spec fn elapsed_beyond(now: u64, since: Option<u64>, window: u64) -> bool {
    match since {
        Some(t) => now > t + window,
        None => true,
    }
}

/// The paths of `cs` that are not ignored under `rules`, in order.
pub open spec fn kept_paths(cs: Seq<ChangedPath>, rules: Seq<Seq<char>>) -> Seq<Seq<char>>
    decreases cs.len(),
{
    if cs.len() == 0 {
        seq![]
    } else {
        let k = kept_paths(cs.drop_last(), rules);
        let c = cs.last();
        if ignored(c.path@, c.is_dir, rules) {
            k
        } else {
            k.push(c.path@)
        }
    }
}

impl DebounceGate {
    /// Whether a relevant change at `now` is accepted as a trigger.
    pub open spec fn accepts(self, now: u64) -> bool {
        !self.in_flight && elapsed_beyond(now, self.last_accepted, self.window_ms)
    }

    /// Whether a relevant change at `now` that is skipped is warned of.
    pub open spec fn warns(self, now: u64) -> bool {
        !self.accepts(now) && elapsed_beyond(now, self.last_warned, self.window_ms)
    }

    /// The debouncer after a relevant change at `now`.
    pub open spec fn after_changes(self, now: u64) -> DebounceGate {
        if self.accepts(now) {
            DebounceGate { in_flight: true, last_accepted: Some(now), ..self }
        } else if self.warns(now) {
            DebounceGate { last_warned: Some(now), ..self }
        } else {
            self
        }
    }

    /// The debouncer after the triggered restart finished.
    pub open spec fn after_done(self) -> DebounceGate {
        DebounceGate { in_flight: false, ..self }
    }

    /// An idle debouncer with the given window that has not triggered yet.
    pub fn new(window_ms: u64) -> (r: DebounceGate)
        ensures
            r.window_ms == window_ms,
            r.last_accepted is None,
            r.last_warned is None,
            !r.in_flight,
    {
        DebounceGate { window_ms, last_accepted: None, last_warned: None, in_flight: false }
    }

    fn beyond(now: u64, since: Option<u64>, window: u64) -> (r: bool)
        ensures
            r == elapsed_beyond(now, since, window),
    {
        match since {
            Some(t) => now >= t && now - t > window,
            None => true,
        }
    }

    /// Decides on a batch of changes seen at `now`. A batch whose paths are
    /// all ignored is skipped silently and leaves the debouncer as it was.
    /// Otherwise the batch triggers a restart when no restart is running and
    /// the window has passed since the last trigger; else it is skipped, with
    /// a warning at most once per window.
    pub fn on_changes(&mut self, now: u64, changes: &Vec<ChangedPath>, rules: &Option<Vec<String>>) -> (r: GateDecision)
        ensures
            kept_paths(changes@, rule_list(*rules)).len() == 0 ==> {
                &&& *final(self) == *old(self)
                &&& r matches GateDecision::Skip { warn } && !warn
            },
            kept_paths(changes@, rule_list(*rules)).len() > 0 ==> {
                &&& *final(self) == old(self).after_changes(now)
                &&& old(self).accepts(now) ==> (r matches GateDecision::Trigger(p)
                    && p@.map_values(|s: String| s@) == kept_paths(changes@, rule_list(*rules)))
                &&& !old(self).accepts(now) ==> (r matches GateDecision::Skip { warn }
                    && warn == old(self).warns(now))
            },
    {
        let ghost rs = rule_list(*rules);
        let mut kept: Vec<String> = Vec::new();
        let mut i: usize = 0;
        while i < changes.len()
            invariant
                i <= changes.len(),
                rs == rule_list(*rules),
                kept@.map_values(|s: String| s@) == kept_paths(changes@.subrange(0, i as int), rs),
            decreases changes.len() - i,
        {
            let c = &changes[i];
            proof {
                assert(changes@.subrange(0, i + 1).drop_last() =~= changes@.subrange(0, i as int));
                assert(changes@.subrange(0, i + 1).last() == changes@[i as int]);
            }
            if !should_ignore(c.path.as_str(), c.is_dir, rules) {
                let ghost before = kept@;
                kept.push(c.path.clone());
                proof {
                    assert(kept@.map_values(|s: String| s@) =~= before.map_values(|s: String| s@).push(c.path@));
                }
            }
            i = i + 1;
        }
        proof {
            assert(changes@.subrange(0, changes.len() as int) =~= changes@);
        }
        if kept.len() == 0 {
            return GateDecision::Skip { warn: false };
        }
        if !self.in_flight && DebounceGate::beyond(now, self.last_accepted, self.window_ms) {
            self.in_flight = true;
            self.last_accepted = Some(now);
            return GateDecision::Trigger(kept);
        }
        let warn = DebounceGate::beyond(now, self.last_warned, self.window_ms);
        if warn {
            self.last_warned = Some(now);
        }
        GateDecision::Skip { warn }
    }

    /// Returns the debouncer to idle once the triggered restart has finished.
    pub fn restart_finished(&mut self)
        ensures
            *final(self) == old(self).after_done(),
    {
        self.in_flight = false;
    }
}

/// The debouncer after one input.
pub open spec fn apply(g: DebounceGate, e: GateEvent) -> DebounceGate {
    match e {
        GateEvent::Changes(now) => g.after_changes(now),
        GateEvent::RestartDone => g.after_done(),
    }
}

/// How many triggers a run of inputs produces, starting from `g`.
pub open spec fn trigger_count(g: DebounceGate, es: Seq<GateEvent>) -> nat
    decreases es.len(),
{
    if es.len() == 0 {
        0
    } else {
        let first: nat = match es[0] {
            GateEvent::Changes(now) => if g.accepts(now) { 1 } else { 0 },
            GateEvent::RestartDone => 0,
        };
        first + trigger_count(apply(g, es[0]), es.drop_first())
    }
}

/// Whether every change of `es` comes at or before `limit`.
pub open spec fn changes_until(es: Seq<GateEvent>, limit: int) -> bool {
    forall|j: int| 0 <= j < es.len() ==> (#[trigger] es[j] matches GateEvent::Changes(u) ==> u <= limit)
}

proof fn lemma_quiet_within_window(g: DebounceGate, t: u64, es: Seq<GateEvent>)
    requires
        g.last_accepted == Some(t),
        changes_until(es, t + g.window_ms),
    ensures
        trigger_count(g, es) == 0,
    decreases es.len(),
{
    if es.len() > 0 {
        let rest = es.drop_first();
        assert forall|j: int| 0 <= j < rest.len() implies (#[trigger] rest[j] matches GateEvent::Changes(u) ==> u <= t + g.window_ms) by {
            assert(rest[j] == es[j + 1]);
        }
        assert(es[0] matches GateEvent::Changes(u) ==> u <= t + g.window_ms);
        lemma_quiet_within_window(apply(g, es[0]), t, rest);
    }
}

/// After an accepted trigger at `t`, any run of further changes up to the
/// end of that window, with the restart finishing at any point or not at
/// all, gives no second trigger: the window holds exactly one.
pub proof fn lemma_one_trigger_per_window(g: DebounceGate, t: u64, es: Seq<GateEvent>)
    requires
        g.accepts(t),
        changes_until(es, t + g.window_ms),
    ensures
        trigger_count(g, seq![GateEvent::Changes(t)] + es) == 1,
{
    let all = seq![GateEvent::Changes(t)] + es;
    assert(all.drop_first() =~= es);
    lemma_quiet_within_window(g.after_changes(t), t, es);
}

} // verus!
