//! A level that is built by requests and decays each frame only while it
//! lies strictly between zero and a threshold.
//!
//! Once the level stands at or above the threshold the holder is devoted
//! and the decay pauses; below it the level fades back to zero. Two
//! one-frame events report the transitions: `just_devoted` on the frame a
//! request takes the level from below the threshold to it, `just_lapsed`
//! on the frame the decay takes it to zero.
//!
//! As in [`crate::gauge`], the caller keeps the level, hands over the
//! comparisons the rules look at, and stores its candidate level only when
//! the operation takes effect.

use vstd::prelude::*;

verus! {

/// Enabled state and one-frame events of a threshold level.
#[derive(Clone, Copy, Debug, PartialEq, Eq, Structural)]
pub struct ThresholdEvents {
    /// A disabled level refuses every change; a new frame still clears its
    /// events.
    pub enabled: bool,
    /// Raised on the frame a request lifts the level to the threshold.
    pub just_devoted: bool,
    /// Raised on the frame the decay takes the level to zero.
    pub just_lapsed: bool,
}

impl ThresholdEvents {
    /// An enabled level with no event raised.
    pub open spec fn initial() -> ThresholdEvents {
        ThresholdEvents { enabled: true, just_devoted: false, just_lapsed: false }
    }

    /// Whether a request to raise the level changes it.
    pub open spec fn inspire_applies(self, amount_nonpositive: bool) -> bool {
        self.enabled && !amount_nonpositive
    }

    /// The events after a request: `was_devoted` is `level >= threshold`
    /// before the request, `now_devoted` the same comparison on the
    /// candidate `min(level + amount, max)`.
    pub open spec fn after_inspire(
        self,
        amount_nonpositive: bool,
        was_devoted: bool,
        now_devoted: bool,
    ) -> ThresholdEvents {
        ThresholdEvents {
            just_devoted: self.just_devoted || (self.inspire_applies(amount_nonpositive)
                && !was_devoted && now_devoted),
            ..self
        }
    }

    /// Whether a new frame decays the level: the level is enabled, above
    /// zero (`was_positive`) and below the threshold (`was_below_threshold`).
    pub open spec fn decay_applies(self, was_positive: bool, was_below_threshold: bool) -> bool {
        self.enabled && was_positive && was_below_threshold
    }

    /// The events after a new frame: both cleared, then `just_lapsed`
    /// raised when the decay applies and its candidate
    /// `max(level - rate * dt, 0)` is zero (`reaches_zero`).
    pub open spec fn after_frame(
        self,
        was_positive: bool,
        was_below_threshold: bool,
        reaches_zero: bool,
    ) -> ThresholdEvents {
        ThresholdEvents {
            enabled: self.enabled,
            just_devoted: false,
            just_lapsed: self.decay_applies(was_positive, was_below_threshold) && reaches_zero,
        }
    }

    /// Whether the holder is devoted, given `at_threshold`
    /// (`level >= threshold`).
    pub open spec fn devoted(self, at_threshold: bool) -> bool {
        at_threshold && self.enabled
    }

    /// Whether the level is fading, given `positive` (`level > 0`) and
    /// `below_threshold` (`level < threshold`).
    pub open spec fn fading(self, positive: bool, below_threshold: bool) -> bool {
        positive && below_threshold && self.enabled
    }

    /// A new, enabled level with no event raised.
    pub fn new() -> (t: ThresholdEvents)
        ensures
            t == ThresholdEvents::initial(),
    {
        ThresholdEvents { enabled: true, just_devoted: false, just_lapsed: false }
    }

    /// Decides a request to raise the level. Returns whether the caller
    /// stores its candidate `min(level + amount, max)`; raises
    /// `just_devoted` when the request crosses the threshold from below.
    pub fn inspire(&mut self, amount_nonpositive: bool, was_devoted: bool, now_devoted: bool) -> (applied:
        bool)
        ensures
            applied == old(self).inspire_applies(amount_nonpositive),
            *final(self) == old(self).after_inspire(amount_nonpositive, was_devoted, now_devoted),
    {
        if !self.enabled || amount_nonpositive {
            return false;
        }
        if !was_devoted && now_devoted {
            self.just_devoted = true;
        }
        true
    }

    /// Starts a new frame: clears both events, then returns whether the
    /// caller stores its decayed candidate `max(level - rate * dt, 0)`;
    /// raises `just_lapsed` when that candidate is zero.
    pub fn frame(&mut self, was_positive: bool, was_below_threshold: bool, reaches_zero: bool) -> (applied:
        bool)
        ensures
            applied == old(self).decay_applies(was_positive, was_below_threshold),
            *final(self) == old(self).after_frame(was_positive, was_below_threshold, reaches_zero),
    {
        self.just_devoted = false;
        self.just_lapsed = false;
        if !self.enabled {
            return false;
        }
        if was_positive && was_below_threshold {
            if reaches_zero {
                self.just_lapsed = true;
            }
            true
        } else {
            false
        }
    }

    /// Whether the holder is devoted: the level is at or above the
    /// threshold (`at_threshold`) and the level is enabled.
    pub fn is_devoted(&self, at_threshold: bool) -> (devoted: bool)
        ensures
            devoted == self.devoted(at_threshold),
    {
        at_threshold && self.enabled
    }

    /// Whether the level is fading: above zero, below the threshold, and
    /// enabled.
    pub fn is_fading(&self, positive: bool, below_threshold: bool) -> (fading: bool)
        ensures
            fading == self.fading(positive, below_threshold),
    {
        positive && below_threshold && self.enabled
    }

    /// The scaled output: `on` (the caller's `base * (1 + fraction)`) when
    /// enabled, `off` (the unscaled base) when disabled.
    pub fn output<T>(&self, on: T, off: T) -> (out: T)
        ensures
            out == (if self.enabled { on } else { off }),
    {
        if self.enabled {
            on
        } else {
            off
        }
    }
}

/// Devotion holds: while the level stands at or above the threshold, a new
/// frame neither decays it nor raises `just_lapsed`.
pub proof fn lemma_devoted_level_holds(
    t: ThresholdEvents,
    was_positive: bool,
    reaches_zero: bool,
)
    ensures
        !t.decay_applies(was_positive, false),
        !t.after_frame(was_positive, false, reaches_zero).just_lapsed,
{
}

/// `just_devoted` is edge-triggered: a request raises it only when the level
/// was below the threshold before and reaches it, so a level that was
/// already devoted never raises it again.
pub proof fn lemma_devotion_fires_on_crossing_only(
    t: ThresholdEvents,
    amount_nonpositive: bool,
    was_devoted: bool,
    now_devoted: bool,
)
    ensures
        t.after_inspire(amount_nonpositive, was_devoted, now_devoted).just_devoted && !t.just_devoted
            ==> !was_devoted && now_devoted && t.enabled,
        was_devoted ==> t.after_inspire(amount_nonpositive, was_devoted, now_devoted).just_devoted
            == t.just_devoted,
{
}

/// A disabled level is inert: requests change nothing, and a new frame only
/// clears the events.
pub proof fn lemma_disabled_threshold_is_inert(
    t: ThresholdEvents,
    amount_nonpositive: bool,
    was_devoted: bool,
    now_devoted: bool,
    was_positive: bool,
    was_below_threshold: bool,
    reaches_zero: bool,
)
    requires
        !t.enabled,
    ensures
        !t.inspire_applies(amount_nonpositive),
        t.after_inspire(amount_nonpositive, was_devoted, now_devoted) == t,
        !t.decay_applies(was_positive, was_below_threshold),
        t.after_frame(was_positive, was_below_threshold, reaches_zero) == (ThresholdEvents {
            enabled: false,
            just_devoted: false,
            just_lapsed: false,
        }),
{
}

/// A new frame forgets the events of the previous one: two levels that
/// agree on being enabled are alike after the same frame.
pub proof fn lemma_threshold_frame_forgets_events(
    t: ThresholdEvents,
    u: ThresholdEvents,
    was_positive: bool,
    was_below_threshold: bool,
    reaches_zero: bool,
)
    requires
        t.enabled == u.enabled,
    ensures
        t.after_frame(was_positive, was_below_threshold, reaches_zero) == u.after_frame(
            was_positive,
            was_below_threshold,
            reaches_zero,
        ),
        !t.after_frame(was_positive, was_below_threshold, reaches_zero).just_devoted,
{
}

/// Devoted and fading exclude each other: when the two comparisons on the
/// level (`level < threshold` and `level >= threshold`) are not both true,
/// as they never are for one level, the holder is never devoted and fading
/// at once; and a disabled level is neither.
pub proof fn lemma_devoted_and_fading_exclusive(
    t: ThresholdEvents,
    positive: bool,
    below_threshold: bool,
    at_threshold: bool,
)
    requires
        !(below_threshold && at_threshold),
    ensures
        !(t.fading(positive, below_threshold) && t.devoted(at_threshold)),
        !t.enabled ==> !t.fading(positive, below_threshold) && !t.devoted(at_threshold),
{
}


/// A request to raise the level takes effect exactly when the level is
/// enabled and the amount positive, whatever events this frame already
/// raised; it raises `just_devoted` exactly when it takes effect and crosses
/// the threshold from below, keeps an event already raised, and leaves
/// `just_lapsed` and the enabled state alone.
pub proof fn lemma_inspire_behaviour(
    t: ThresholdEvents,
    amount_nonpositive: bool,
    was_devoted: bool,
    now_devoted: bool,
)
    ensures
        t.inspire_applies(amount_nonpositive) == (t.enabled && !amount_nonpositive),
        t.after_inspire(amount_nonpositive, was_devoted, now_devoted).just_devoted == (t.just_devoted
            || (t.enabled && !amount_nonpositive && !was_devoted && now_devoted)),
        t.after_inspire(amount_nonpositive, was_devoted, now_devoted).just_lapsed == t.just_lapsed,
        t.after_inspire(amount_nonpositive, was_devoted, now_devoted).enabled == t.enabled,
{
}

/// A new frame decays the level exactly when it is enabled, above zero and
/// below the threshold, whatever events were raised before; afterwards
/// `just_devoted` is lowered and `just_lapsed` is raised exactly when the
/// decay took the level to zero.
pub proof fn lemma_threshold_frame_behaviour(
    t: ThresholdEvents,
    was_positive: bool,
    was_below_threshold: bool,
    reaches_zero: bool,
)
    ensures
        t.decay_applies(was_positive, was_below_threshold) == (t.enabled && was_positive
            && was_below_threshold),
        !t.after_frame(was_positive, was_below_threshold, reaches_zero).just_devoted,
        t.after_frame(was_positive, was_below_threshold, reaches_zero).just_lapsed == (t.enabled
            && was_positive && was_below_threshold && reaches_zero),
        t.after_frame(was_positive, was_below_threshold, reaches_zero).enabled == t.enabled,
{
}

/// The holder is devoted exactly when the level is at the threshold and
/// enabled, and fading exactly when the level is above zero, below the
/// threshold and enabled.
pub proof fn lemma_threshold_status(
    t: ThresholdEvents,
    positive: bool,
    below_threshold: bool,
    at_threshold: bool,
)
    ensures
        t.devoted(at_threshold) == (at_threshold && t.enabled),
        t.fading(positive, below_threshold) == (positive && below_threshold && t.enabled),
{
}


/// A new threshold level starts enabled with no event raised.
pub proof fn lemma_new_threshold_is_quiet(
    t: ThresholdEvents,
)
    requires
        t == ThresholdEvents::initial(),
    ensures
        t.enabled && !t.just_devoted && !t.just_lapsed,
{
}

} // verus!
