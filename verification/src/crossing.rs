//! Sign changes of a tracked value.
//!
//! An update replaces the tracked value; it raises `just_crossed_up` when
//! the value goes from non-positive to positive, and `just_crossed_down`
//! when it goes from non-negative to negative. A new frame clears both
//! events and nothing else. A disabled tracker ignores updates.
//!
//! The caller keeps the value and reports its sign comparisons before and
//! after the update.

use vstd::prelude::*;

verus! {

/// Enabled state and one-frame events of a sign-crossing tracker.
#[derive(Clone, Copy, Debug, PartialEq, Eq, Structural)]
pub struct CrossingEvents {
    /// A disabled tracker keeps its value; a new frame still clears its
    /// events.
    pub enabled: bool,
    /// Raised when the value goes from non-positive to positive.
    pub just_crossed_up: bool,
    /// Raised when the value goes from non-negative to negative.
    pub just_crossed_down: bool,
}

impl CrossingEvents {
    /// An enabled tracker with no event raised.
    pub open spec fn initial() -> CrossingEvents {
        CrossingEvents { enabled: true, just_crossed_up: false, just_crossed_down: false }
    }

    /// Whether an update replaces the value.
    pub open spec fn update_applies(self) -> bool {
        self.enabled
    }

    /// The events after an update: `was_non_positive` is `old <= 0`,
    /// `was_non_negative` is `old >= 0`, `now_positive` is `new > 0`,
    /// `now_negative` is `new < 0`.
    pub open spec fn after_update(
        self,
        was_non_positive: bool,
        was_non_negative: bool,
        now_positive: bool,
        now_negative: bool,
    ) -> CrossingEvents {
        CrossingEvents {
            enabled: self.enabled,
            just_crossed_up: self.just_crossed_up || (self.enabled && was_non_positive
                && now_positive),
            just_crossed_down: self.just_crossed_down || (self.enabled && was_non_negative
                && now_negative),
        }
    }

    /// The events after a new frame: both cleared.
    pub open spec fn after_frame(self) -> CrossingEvents {
        CrossingEvents { enabled: self.enabled, just_crossed_up: false, just_crossed_down: false }
    }

    /// A new, enabled tracker with no event raised.
    pub fn new() -> (c: CrossingEvents)
        ensures
            c == CrossingEvents::initial(),
    {
        CrossingEvents { enabled: true, just_crossed_up: false, just_crossed_down: false }
    }

    /// Decides an update. Returns whether the caller stores the new value;
    /// raises the crossing events the sign change calls for.
    pub fn update(
        &mut self,
        was_non_positive: bool,
        was_non_negative: bool,
        now_positive: bool,
        now_negative: bool,
    ) -> (applied: bool)
        ensures
            applied == old(self).update_applies(),
            *final(self) == old(self).after_update(
                was_non_positive,
                was_non_negative,
                now_positive,
                now_negative,
            ),
    {
        if !self.enabled {
            return false;
        }
        if was_non_positive && now_positive {
            self.just_crossed_up = true;
        }
        if was_non_negative && now_negative {
            self.just_crossed_down = true;
        }
        true
    }

    /// Starts a new frame: clears both events.
    pub fn frame(&mut self)
        ensures
            *final(self) == old(self).after_frame(),
    {
        self.just_crossed_up = false;
        self.just_crossed_down = false;
    }

    /// Whether the tracker reports a sign condition (`value > 0`,
    /// `value < 0` or `value == 0`, as `holds`): only an enabled tracker
    /// reports one.
    pub fn reports(&self, holds: bool) -> (reported: bool)
        ensures
            reported == (holds && self.enabled),
    {
        holds && self.enabled
    }

    /// The signed output: `if_positive` for a positive value, `if_negative`
    /// for a negative one, `otherwise` for zero, and `otherwise` as well
    /// when disabled.
    pub fn signed_output<T>(
        &self,
        positive: bool,
        negative: bool,
        if_positive: T,
        if_negative: T,
        otherwise: T,
    ) -> (out: T)
        ensures
            out == (if !self.enabled {
                otherwise
            } else if positive {
                if_positive
            } else if negative {
                if_negative
            } else {
                otherwise
            }),
    {
        if !self.enabled {
            otherwise
        } else if positive {
            if_positive
        } else if negative {
            if_negative
        } else {
            otherwise
        }
    }
}

/// One update crosses at most one way: when the new value is not both
/// positive and negative, an update raises at most one of the two events
/// that were lowered before it.
pub proof fn lemma_one_crossing_per_update(
    c: CrossingEvents,
    was_non_positive: bool,
    was_non_negative: bool,
    now_positive: bool,
    now_negative: bool,
)
    requires
        !c.just_crossed_up,
        !c.just_crossed_down,
        !(now_positive && now_negative),
    ensures
        !(c.after_update(was_non_positive, was_non_negative, now_positive, now_negative).just_crossed_up
            && c.after_update(
            was_non_positive,
            was_non_negative,
            now_positive,
            now_negative,
        ).just_crossed_down),
{
}

/// Staying on one side raises nothing: a value that was strictly positive
/// and stays positive, or was strictly negative and stays negative, leaves
/// the events as they were.
pub proof fn lemma_same_side_raises_nothing(c: CrossingEvents)
    ensures
        c.after_update(false, true, true, false) == c,
        c.after_update(true, false, false, true) == c,
{
}

/// A disabled tracker is inert: an update changes nothing.
pub proof fn lemma_disabled_crossing_is_inert(
    c: CrossingEvents,
    was_non_positive: bool,
    was_non_negative: bool,
    now_positive: bool,
    now_negative: bool,
)
    requires
        !c.enabled,
    ensures
        !c.update_applies(),
        c.after_update(was_non_positive, was_non_negative, now_positive, now_negative) == c,
{
}

/// A new frame forgets the crossings of the previous one, whether or not
/// the tracker is enabled, and changes nothing else.
pub proof fn lemma_crossing_frame_forgets_events(c: CrossingEvents)
    ensures
        c.after_frame() == (CrossingEvents {
            enabled: c.enabled,
            just_crossed_up: false,
            just_crossed_down: false,
        }),
{
}


/// An update takes effect exactly when the tracker is enabled; it raises
/// `just_crossed_up` exactly when it takes the value from non-positive to
/// positive and `just_crossed_down` exactly when it takes it from
/// non-negative to negative, keeping events already raised.
pub proof fn lemma_update_behaviour(
    c: CrossingEvents,
    was_non_positive: bool,
    was_non_negative: bool,
    now_positive: bool,
    now_negative: bool,
)
    ensures
        c.update_applies() == c.enabled,
        c.after_update(was_non_positive, was_non_negative, now_positive, now_negative).just_crossed_up
            == (c.just_crossed_up || (c.enabled && was_non_positive && now_positive)),
        c.after_update(
            was_non_positive,
            was_non_negative,
            now_positive,
            now_negative,
        ).just_crossed_down == (c.just_crossed_down || (c.enabled && was_non_negative
            && now_negative)),
        c.after_update(was_non_positive, was_non_negative, now_positive, now_negative).enabled
            == c.enabled,
{
}


/// A new tracker starts enabled with no event raised.
pub proof fn lemma_new_crossing_is_quiet(
    c: CrossingEvents,
)
    requires
        c == CrossingEvents::initial(),
    ensures
        c.enabled && !c.just_crossed_up && !c.just_crossed_down,
{
}

} // verus!
