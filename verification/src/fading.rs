//! A level that rises on requests and fades silently each frame.
//!
//! Every accepted request raises `just_enthused`, and `just_peaked` when it
//! takes the level from below its maximum to it. A new frame clears both
//! events and lowers an enabled level above zero without raising anything:
//! the level fades silently.
//!
//! The caller keeps the level, hands over the comparisons the rules look
//! at, and stores its candidate level only when the operation takes effect.

use vstd::prelude::*;

verus! {

/// Enabled state and one-frame events of a fading level.
#[derive(Clone, Copy, Debug, PartialEq, Eq, Structural)]
pub struct FadingEvents {
    /// A disabled level refuses every change; a new frame still clears its
    /// events.
    pub enabled: bool,
    /// Raised by every accepted request.
    pub just_enthused: bool,
    /// Raised when a request takes the level to its maximum from below.
    pub just_peaked: bool,
}

impl FadingEvents {
    /// An enabled level with no event raised.
    pub open spec fn initial() -> FadingEvents {
        FadingEvents { enabled: true, just_enthused: false, just_peaked: false }
    }

    /// Whether a request to raise the level changes it.
    pub open spec fn inspire_applies(self, amount_nonpositive: bool) -> bool {
        self.enabled && !amount_nonpositive
    }

    /// The events after a request: `was_below_max` is `level < max` before
    /// it, `reaches_max` is `candidate >= max` for the candidate
    /// `min(level + amount, max)`.
    pub open spec fn after_inspire(
        self,
        amount_nonpositive: bool,
        was_below_max: bool,
        reaches_max: bool,
    ) -> FadingEvents {
        FadingEvents {
            enabled: self.enabled,
            just_enthused: self.just_enthused || self.inspire_applies(amount_nonpositive),
            just_peaked: self.just_peaked || (self.inspire_applies(amount_nonpositive)
                && was_below_max && reaches_max),
        }
    }

    /// Whether a new frame lowers the level: enabled and above zero.
    pub open spec fn fade_applies(self, was_positive: bool) -> bool {
        self.enabled && was_positive
    }

    /// The events after a new frame: both cleared, nothing raised.
    pub open spec fn after_frame(self) -> FadingEvents {
        FadingEvents { enabled: self.enabled, just_enthused: false, just_peaked: false }
    }

    /// A new, enabled level with no event raised.
    pub fn new() -> (f: FadingEvents)
        ensures
            f == FadingEvents::initial(),
    {
        FadingEvents { enabled: true, just_enthused: false, just_peaked: false }
    }

    /// Decides a request to raise the level. Returns whether the caller
    /// stores its candidate `min(level + amount, max)`; an accepted request
    /// raises `just_enthused`, and `just_peaked` when it reaches the
    /// maximum from below.
    pub fn inspire(&mut self, amount_nonpositive: bool, was_below_max: bool, reaches_max: bool) -> (applied:
        bool)
        ensures
            applied == old(self).inspire_applies(amount_nonpositive),
            *final(self) == old(self).after_inspire(amount_nonpositive, was_below_max, reaches_max),
    {
        if !self.enabled || amount_nonpositive {
            return false;
        }
        self.just_enthused = true;
        if was_below_max && reaches_max {
            self.just_peaked = true;
        }
        true
    }

    /// Starts a new frame: clears both events, then returns whether the
    /// caller stores its faded candidate `max(level - rate * dt, 0)`.
    pub fn frame(&mut self, was_positive: bool) -> (applied: bool)
        ensures
            applied == old(self).fade_applies(was_positive),
            *final(self) == old(self).after_frame(),
    {
        self.just_enthused = false;
        self.just_peaked = false;
        self.enabled && was_positive
    }

    /// Whether the holder is enthused: the level is above zero and enabled.
    pub fn is_enthused(&self, positive: bool) -> (enthused: bool)
        ensures
            enthused == (positive && self.enabled),
    {
        positive && self.enabled
    }

    /// Whether the level is peaked: at the maximum and enabled.
    pub fn is_peaked(&self, at_max: bool) -> (peaked: bool)
        ensures
            peaked == (at_max && self.enabled),
    {
        at_max && self.enabled
    }

    /// The scaled output: `on` (the caller's `base * (1 + fraction)`) when
    /// enabled, `off` (the unscaled base) when disabled.
    pub fn output<T>(&self, on: T, off: T) -> (out: T)
        ensures
            out == (if self.enabled { on } else { off }),
    {
        if self.enabled {
            on
        } else {
            off
        }
    }
}

/// Fading is silent: whatever the level and whether it fades, a new frame
/// leaves no event raised.
pub proof fn lemma_fading_is_silent(f: FadingEvents)
    ensures
        !f.after_frame().just_enthused,
        !f.after_frame().just_peaked,
{
}

/// A peak implies enthusiasm: a request that raises `just_peaked` raises
/// `just_enthused` too, and a request raises `just_enthused` exactly when it
/// is accepted.
pub proof fn lemma_peak_implies_enthused(
    f: FadingEvents,
    amount_nonpositive: bool,
    was_below_max: bool,
    reaches_max: bool,
)
    requires
        !f.just_enthused,
        !f.just_peaked,
    ensures
        f.after_inspire(amount_nonpositive, was_below_max, reaches_max).just_peaked ==> f.after_inspire(
            amount_nonpositive,
            was_below_max,
            reaches_max,
        ).just_enthused,
        f.after_inspire(amount_nonpositive, was_below_max, reaches_max).just_enthused
            == f.inspire_applies(amount_nonpositive),
{
}

/// A disabled level is inert: a request changes nothing, and a new frame
/// neither lowers the level nor leaves an event.
pub proof fn lemma_disabled_fading_is_inert(
    f: FadingEvents,
    amount_nonpositive: bool,
    was_below_max: bool,
    reaches_max: bool,
    was_positive: bool,
)
    requires
        !f.enabled,
    ensures
        !f.inspire_applies(amount_nonpositive),
        f.after_inspire(amount_nonpositive, was_below_max, reaches_max) == f,
        !f.fade_applies(was_positive),
{
}


/// A request takes effect exactly when the level is enabled and the amount
/// positive, whatever events this frame already raised; it raises
/// `just_enthused` whenever it takes effect and `just_peaked` exactly when
/// it also reaches the maximum from below, keeping events already raised.
pub proof fn lemma_fading_inspire_behaviour(
    f: FadingEvents,
    amount_nonpositive: bool,
    was_below_max: bool,
    reaches_max: bool,
)
    ensures
        f.inspire_applies(amount_nonpositive) == (f.enabled && !amount_nonpositive),
        f.after_inspire(amount_nonpositive, was_below_max, reaches_max).just_enthused == (
        f.just_enthused || (f.enabled && !amount_nonpositive)),
        f.after_inspire(amount_nonpositive, was_below_max, reaches_max).just_peaked == (f.just_peaked
            || (f.enabled && !amount_nonpositive && was_below_max && reaches_max)),
        f.after_inspire(amount_nonpositive, was_below_max, reaches_max).enabled == f.enabled,
{
}

/// A new frame lowers the level exactly when it is enabled and above zero,
/// whatever events were raised before, and leaves only the enabled state.
pub proof fn lemma_fading_frame_behaviour(f: FadingEvents, was_positive: bool)
    ensures
        f.fade_applies(was_positive) == (f.enabled && was_positive),
        f.after_frame() == (FadingEvents {
            enabled: f.enabled,
            just_enthused: false,
            just_peaked: false,
        }),
{
}


/// A new fading level starts enabled with no event raised.
pub proof fn lemma_new_fading_is_quiet(
    f: FadingEvents,
)
    requires
        f == FadingEvents::initial(),
    ensures
        f.enabled && !f.just_enthused && !f.just_peaked,
{
}

} // verus!
