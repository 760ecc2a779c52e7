//! Debounced digital-input state machine.
//!
//! Raw boolean samples of a mechanical switch arrive with timestamps from a
//! monotonic clock (milliseconds). A sample that differs from the current
//! stable value is accepted only when at least a fixed window has elapsed
//! since the last accepted transition; anything faster is bounce noise and is
//! discarded. A sample equal to the stable value never counts as a change.

use vstd::prelude::*;

verus! {

/// Default debounce window, in milliseconds.
pub const DEBOUNCE_WINDOW_MS: u64 = 50;

/// Ephemeral result of feeding a single raw sample; not persisted.
#[derive(Clone, Copy, PartialEq, Eq, Structural, Debug)]
pub struct DebounceDecision {
    /// The stable value after the step (equal to the previous stable value
    /// unless the step accepted a transition).
    pub new_stable_value: bool,
    /// Whether this step accepted a transition.
    pub changed: bool,
}

/// Persistent state of the debounce gate: the last accepted stable value and
/// the timestamp of its last accepted transition.
#[derive(Clone, Copy, PartialEq, Eq, Structural, Debug)]
pub struct DebounceGate {
    /// Last accepted stable value of the input.
    pub stable_value: bool,
    /// Monotonic timestamp (ms) of the last accepted transition; seeded with
    /// the construction time.
    pub last_transition_ms: u64,
    /// Minimum time (ms) a differing sample must be separated from the last
    /// accepted transition to be accepted itself.
    pub window_ms: u64,
}

/// Whether a sampling step accepts a transition: the raw sample differs
/// from the stable value and at least `window_ms` milliseconds have elapsed
/// since the last accepted transition. A timestamp earlier than the last
/// transition (impossible on a monotonic clock) never accepts.
pub open spec fn spec_debounce_accepts(
    stable: bool,
    last_transition_ms: u64,
    window_ms: u64,
    raw: bool,
    now_ms: u64,
) -> bool {
    raw != stable && now_ms >= last_transition_ms + window_ms
}

/// A raw sample equal to the current stable value never counts as a change,
/// whatever the timestamps are.
pub proof fn lemma_equal_sample_never_changes(
    stable: bool,
    last_transition_ms: u64,
    window_ms: u64,
    now_ms: u64,
)
    ensures
        !spec_debounce_accepts(stable, last_transition_ms, window_ms, stable, now_ms),
{
}

impl DebounceGate {
    /// Start from an initial raw read, so that the first genuine
    /// sample never reports a spurious change merely for differing from a
    /// made-up default.
    pub fn new(initial_raw: bool, now_ms: u64, window_ms: u64) -> (gate: DebounceGate)
        ensures
            gate.stable_value == initial_raw,
            gate.last_transition_ms == now_ms,
            gate.window_ms == window_ms,
    {
        DebounceGate { stable_value: initial_raw, last_transition_ms: now_ms, window_ms }
    }

    /// Feed one raw sample taken at `now_ms`. Exactly when
    /// [`spec_debounce_accepts`] holds of the prior state, the sample is
    /// accepted: the stable value becomes `raw`, the transition time becomes
    /// `now_ms`, and `changed` is reported. Otherwise the state is unchanged
    /// and no change is reported.
    pub fn sample(&mut self, raw: bool, now_ms: u64) -> (decision: DebounceDecision)
        ensures
            decision.changed == spec_debounce_accepts(
                old(self).stable_value,
                old(self).last_transition_ms,
                old(self).window_ms,
                raw,
                now_ms,
            ),
            decision.new_stable_value == final(self).stable_value,
            final(self).window_ms == old(self).window_ms,
            decision.changed ==> final(self).stable_value == raw
                && final(self).last_transition_ms == now_ms,
            !decision.changed ==> *final(self) == *old(self),
    {
        if raw != self.stable_value {
            if now_ms >= self.last_transition_ms
                && now_ms - self.last_transition_ms >= self.window_ms {
                self.stable_value = raw;
                self.last_transition_ms = now_ms;
                return DebounceDecision { new_stable_value: raw, changed: true };
            }
        }
        DebounceDecision { new_stable_value: self.stable_value, changed: false }
    }
}

} // verus!
