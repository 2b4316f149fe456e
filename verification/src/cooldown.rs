//! A discharge gated by a cooldown timer.
//!
//! Firing is accepted only when enabled and the timer has run out; an
//! accepted shot restarts the timer at the full duration and raises the
//! one-frame event `just_fired`. Each frame clears the event and counts an
//! enabled, running timer down toward zero.
//!
//! The caller keeps the timer and the duration, reports whether the timer
//! is running (`timer > 0`), and restarts or counts it down when told to.

use vstd::prelude::*;

verus! {

/// Enabled state and one-frame event of a cooldown-gated discharge.
#[derive(Clone, Copy, Debug, PartialEq, Eq, Structural)]
pub struct CooldownEvents {
    /// A disabled discharge never fires and its timer stands still; a new
    /// frame still clears its event.
    pub enabled: bool,
    /// Raised on the frame a shot is fired.
    pub just_fired: bool,
}

impl CooldownEvents {
    /// An enabled discharge with no event raised.
    pub open spec fn initial() -> CooldownEvents {
        CooldownEvents { enabled: true, just_fired: false }
    }

    /// Whether a shot is accepted: enabled, and the timer not running
    /// (`cooling` is `timer > 0`).
    pub open spec fn fire_applies(self, cooling: bool) -> bool {
        self.enabled && !cooling
    }

    /// The event after a request to fire.
    pub open spec fn after_fire(self, cooling: bool) -> CooldownEvents {
        CooldownEvents {
            enabled: self.enabled,
            just_fired: self.just_fired || self.fire_applies(cooling),
        }
    }

    /// Whether a new frame counts the timer down: enabled and running.
    pub open spec fn countdown_applies(self, cooling: bool) -> bool {
        self.enabled && cooling
    }

    /// The event after a new frame: cleared.
    pub open spec fn after_frame(self) -> CooldownEvents {
        CooldownEvents { enabled: self.enabled, just_fired: false }
    }

    /// A new, enabled discharge with no event raised.
    pub fn new() -> (c: CooldownEvents)
        ensures
            c == CooldownEvents::initial(),
    {
        CooldownEvents { enabled: true, just_fired: false }
    }

    /// Decides a request to fire. Returns whether the caller restarts the
    /// timer at the full duration; an accepted shot raises `just_fired`.
    pub fn fire(&mut self, cooling: bool) -> (fired: bool)
        ensures
            fired == old(self).fire_applies(cooling),
            *final(self) == old(self).after_fire(cooling),
    {
        if !self.enabled || cooling {
            return false;
        }
        self.just_fired = true;
        true
    }

    /// Starts a new frame: clears the event, then returns whether the
    /// caller stores the counted-down timer `max(timer - dt, 0)`.
    pub fn frame(&mut self, cooling: bool) -> (count_down: bool)
        ensures
            count_down == old(self).countdown_applies(cooling),
            *final(self) == old(self).after_frame(),
    {
        self.just_fired = false;
        self.enabled && cooling
    }

    /// Whether the discharge is ready: the timer is exactly zero
    /// (`timer_zero`) and the discharge is enabled.
    pub fn is_ready(&self, timer_zero: bool) -> (ready: bool)
        ensures
            ready == (timer_zero && self.enabled),
    {
        timer_zero && self.enabled
    }

    /// The discharge output: `on` (the caller's power or range) when
    /// enabled, `off` (zero) when disabled.
    pub fn output<T>(&self, on: T, off: T) -> (out: T)
        ensures
            out == (if self.enabled { on } else { off }),
    {
        if self.enabled {
            on
        } else {
            off
        }
    }
}

/// No shot while cooling: whatever the state, a request made while the
/// timer runs is refused and raises nothing.
pub proof fn lemma_no_shot_while_cooling(c: CooldownEvents)
    ensures
        !c.fire_applies(true),
        c.after_fire(true) == c,
{
}

/// A disabled discharge is inert: it never fires, its timer never counts
/// down, and a new frame only clears its event.
pub proof fn lemma_disabled_cooldown_is_inert(c: CooldownEvents, cooling: bool)
    requires
        !c.enabled,
    ensures
        !c.fire_applies(cooling),
        c.after_fire(cooling) == c,
        !c.countdown_applies(cooling),
        c.after_frame() == (CooldownEvents { enabled: false, just_fired: false }),
{
}

/// The shot event lasts one frame: after a new frame it is lowered, and
/// raised again only by a new accepted shot.
pub proof fn lemma_shot_event_lasts_one_frame(c: CooldownEvents, cooling: bool)
    ensures
        !c.after_frame().just_fired,
        c.after_frame().after_fire(cooling).just_fired == c.fire_applies(cooling),
{
}


/// A shot is accepted exactly when the discharge is enabled and its timer
/// is not running, whatever events were raised before; an accepted shot
/// raises `just_fired`, and a refused one leaves it as it was.
pub proof fn lemma_fire_behaviour(c: CooldownEvents, cooling: bool)
    ensures
        c.fire_applies(cooling) == (c.enabled && !cooling),
        c.after_fire(cooling).just_fired == (c.just_fired || (c.enabled && !cooling)),
        c.after_fire(cooling).enabled == c.enabled,
{
}

/// A running timer of an enabled discharge counts down on every frame,
/// whether or not a shot was fired just before: the countdown depends only
/// on being enabled and the timer running. The frame lowers `just_fired`.
pub proof fn lemma_cooldown_frame_behaviour(c: CooldownEvents, d: CooldownEvents, cooling: bool)
    requires
        c.enabled == d.enabled,
    ensures
        c.countdown_applies(cooling) == (c.enabled && cooling),
        c.countdown_applies(cooling) == d.countdown_applies(cooling),
        c.after_frame() == (CooldownEvents { enabled: c.enabled, just_fired: false }),
{
}


/// A new discharge starts enabled with no event raised.
pub proof fn lemma_new_cooldown_is_quiet(
    c: CooldownEvents,
)
    requires
        c == CooldownEvents::initial(),
    ensures
        c.enabled && !c.just_fired,
{
}

} // verus!
