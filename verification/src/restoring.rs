//! A level that refills by itself each frame and drops on disturbance.
//!
//! Each frame an enabled level below its maximum moves up toward it; a
//! disturbance lowers it. Two one-frame events: `just_achieved` on the frame
//! the refill reaches the maximum, `just_broken` when a disturbance hits a
//! level above zero.
//!
//! The caller keeps the level, hands over the comparisons the rules look
//! at, and stores its candidate level only when the operation takes effect.

use vstd::prelude::*;

verus! {

/// Enabled state and one-frame events of a restoring level.
#[derive(Clone, Copy, Debug, PartialEq, Eq, Structural)]
pub struct RestoringEvents {
    /// A disabled level refuses every change; a new frame still clears its
    /// events.
    pub enabled: bool,
    /// Raised on the frame the refill reaches the maximum.
    pub just_achieved: bool,
    /// Raised when a disturbance hits a level above zero.
    pub just_broken: bool,
}

impl RestoringEvents {
    /// An enabled level with no event raised.
    pub open spec fn initial() -> RestoringEvents {
        RestoringEvents { enabled: true, just_achieved: false, just_broken: false }
    }

    /// Whether a disturbance changes the level.
    pub open spec fn disturb_applies(self, amount_nonpositive: bool) -> bool {
        self.enabled && !amount_nonpositive
    }

    /// The events after a disturbance; `was_positive` is `level > 0` before
    /// it.
    pub open spec fn after_disturb(self, amount_nonpositive: bool, was_positive: bool) -> RestoringEvents {
        RestoringEvents {
            just_broken: self.just_broken || (self.disturb_applies(amount_nonpositive)
                && was_positive),
            ..self
        }
    }

    /// Whether a new frame refills the level: enabled and below the maximum.
    pub open spec fn refill_applies(self, was_below_max: bool) -> bool {
        self.enabled && was_below_max
    }

    /// The events after a new frame: both cleared, then `just_achieved`
    /// raised when the refill applies and its candidate
    /// `min(level + rate * dt, max)` reaches the maximum.
    pub open spec fn after_frame(self, was_below_max: bool, reaches_max: bool) -> RestoringEvents {
        RestoringEvents {
            enabled: self.enabled,
            just_achieved: self.refill_applies(was_below_max) && reaches_max,
            just_broken: false,
        }
    }

    /// A new, enabled level with no event raised.
    pub fn new() -> (r: RestoringEvents)
        ensures
            r == RestoringEvents::initial(),
    {
        RestoringEvents { enabled: true, just_achieved: false, just_broken: false }
    }

    /// Decides a disturbance. Returns whether the caller stores its
    /// candidate `max(level - amount, 0)`; raises `just_broken` when the
    /// level was above zero.
    pub fn disturb(&mut self, amount_nonpositive: bool, was_positive: bool) -> (applied: bool)
        ensures
            applied == old(self).disturb_applies(amount_nonpositive),
            *final(self) == old(self).after_disturb(amount_nonpositive, was_positive),
    {
        if !self.enabled || amount_nonpositive {
            return false;
        }
        if was_positive {
            self.just_broken = true;
        }
        true
    }

    /// Starts a new frame: clears both events, then returns whether the
    /// caller stores its refilled candidate `min(level + rate * dt, max)`;
    /// raises `just_achieved` when that candidate reaches the maximum.
    pub fn frame(&mut self, was_below_max: bool, reaches_max: bool) -> (applied: bool)
        ensures
            applied == old(self).refill_applies(was_below_max),
            *final(self) == old(self).after_frame(was_below_max, reaches_max),
    {
        self.just_achieved = false;
        self.just_broken = false;
        if !self.enabled {
            return false;
        }
        if was_below_max {
            if reaches_max {
                self.just_achieved = true;
            }
            true
        } else {
            false
        }
    }

    /// Whether the level is serene: at the maximum and enabled.
    pub fn is_serene(&self, at_max: bool) -> (serene: bool)
        ensures
            serene == (at_max && self.enabled),
    {
        at_max && self.enabled
    }

    /// Whether the level is unsettled: exactly zero and enabled.
    pub fn is_unsettled(&self, at_zero: bool) -> (unsettled: bool)
        ensures
            unsettled == (at_zero && self.enabled),
    {
        at_zero && self.enabled
    }

    /// The scaled output: `on` (the caller's `base * (1 + fraction)`) when
    /// enabled, `off` (the unscaled base) when disabled.
    pub fn output<T>(&self, on: T, off: T) -> (out: T)
        ensures
            out == (if self.enabled { on } else { off }),
    {
        if self.enabled {
            on
        } else {
            off
        }
    }
}

/// A full level stays put: once at the maximum, a new frame neither refills
/// it nor raises `just_achieved`.
pub proof fn lemma_full_level_rests(r: RestoringEvents, reaches_max: bool)
    ensures
        !r.refill_applies(false),
        !r.after_frame(false, reaches_max).just_achieved,
{
}

/// A disturbance of an empty level breaks nothing: `just_broken` is raised
/// only when the disturbed level was above zero.
pub proof fn lemma_break_needs_a_positive_level(r: RestoringEvents, amount_nonpositive: bool)
    ensures
        r.after_disturb(amount_nonpositive, false) == r,
{
}

/// A disabled level is inert: a disturbance changes nothing, and a new
/// frame only clears the events.
pub proof fn lemma_disabled_restoring_is_inert(
    r: RestoringEvents,
    amount_nonpositive: bool,
    was_positive: bool,
    was_below_max: bool,
    reaches_max: bool,
)
    requires
        !r.enabled,
    ensures
        !r.disturb_applies(amount_nonpositive),
        r.after_disturb(amount_nonpositive, was_positive) == r,
        !r.refill_applies(was_below_max),
        r.after_frame(was_below_max, reaches_max) == (RestoringEvents {
            enabled: false,
            just_achieved: false,
            just_broken: false,
        }),
{
}

/// A new frame forgets the events of the previous one: two levels that
/// agree on being enabled are alike after the same frame, and no
/// disturbance event survives it.
pub proof fn lemma_restoring_frame_forgets_events(
    r: RestoringEvents,
    s: RestoringEvents,
    was_below_max: bool,
    reaches_max: bool,
)
    requires
        r.enabled == s.enabled,
    ensures
        r.after_frame(was_below_max, reaches_max) == s.after_frame(was_below_max, reaches_max),
        !r.after_frame(was_below_max, reaches_max).just_broken,
{
}


/// A disturbance takes effect exactly when the level is enabled and the
/// amount positive, whatever events this frame already raised; it raises
/// `just_broken` exactly when it takes effect on a level above zero, keeps
/// an event already raised, and leaves `just_achieved` and the enabled
/// state alone.
pub proof fn lemma_disturb_behaviour(r: RestoringEvents, amount_nonpositive: bool, was_positive: bool)
    ensures
        r.disturb_applies(amount_nonpositive) == (r.enabled && !amount_nonpositive),
        r.after_disturb(amount_nonpositive, was_positive).just_broken == (r.just_broken || (r.enabled
            && !amount_nonpositive && was_positive)),
        r.after_disturb(amount_nonpositive, was_positive).just_achieved == r.just_achieved,
        r.after_disturb(amount_nonpositive, was_positive).enabled == r.enabled,
{
}

/// A new frame refills the level exactly when it is enabled and below the
/// maximum, whatever events were raised before; afterwards `just_broken` is
/// lowered and `just_achieved` is raised exactly when the refill reached the
/// maximum.
pub proof fn lemma_restoring_frame_behaviour(
    r: RestoringEvents,
    was_below_max: bool,
    reaches_max: bool,
)
    ensures
        r.refill_applies(was_below_max) == (r.enabled && was_below_max),
        r.after_frame(was_below_max, reaches_max).just_achieved == (r.enabled && was_below_max
            && reaches_max),
        !r.after_frame(was_below_max, reaches_max).just_broken,
        r.after_frame(was_below_max, reaches_max).enabled == r.enabled,
{
}


/// A new restoring level starts enabled with no event raised.
pub proof fn lemma_new_restoring_is_quiet(
    r: RestoringEvents,
)
    requires
        r == RestoringEvents::initial(),
    ensures
        r.enabled && !r.just_achieved && !r.just_broken,
{
}

} // verus!
