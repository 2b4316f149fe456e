//! A phase that alternates between a dark and a light stripe.
//!
//! Advancing the phase by a positive amount, when enabled, lets it run
//! through the stripe width; each time it wraps the stripe flips and the
//! one-frame event `just_switched` is raised. A new frame clears the event
//! and advances the phase by the speed when the speed is positive.
//!
//! The caller keeps the phase and the width and performs the wrapping
//! subtraction; for each wrap it calls [`StripeState::wrap`].

use vstd::prelude::*;

verus! {

/// Enabled state, current stripe and one-frame event of a stripe tracker.
#[derive(Clone, Copy, Debug, PartialEq, Eq, Structural)]
pub struct StripeState {
    /// A disabled tracker does not advance; a new frame still clears its
    /// event.
    pub enabled: bool,
    /// `true` in a dark stripe, `false` in a light one.
    pub dark_stripe: bool,
    /// Raised on a frame in which the stripe flipped.
    pub just_switched: bool,
}

impl StripeState {
    /// An enabled tracker in a dark stripe with no event raised.
    pub open spec fn initial() -> StripeState {
        StripeState { enabled: true, dark_stripe: true, just_switched: false }
    }

    /// Whether an advance moves the phase.
    pub open spec fn advance_applies(self, amount_nonpositive: bool) -> bool {
        self.enabled && !amount_nonpositive
    }

    /// The tracker after one wrap of the phase.
    pub open spec fn after_wrap(self) -> StripeState {
        StripeState { enabled: self.enabled, dark_stripe: !self.dark_stripe, just_switched: true }
    }

    /// The tracker after `n` wraps of the phase.
    pub open spec fn after_wraps(self, n: nat) -> StripeState
        decreases n,
    {
        if n == 0 {
            self
        } else {
            self.after_wraps((n - 1) as nat).after_wrap()
        }
    }

    /// Whether a new frame advances the phase: enabled and moving.
    pub open spec fn frame_advances(self, speed_positive: bool) -> bool {
        self.enabled && speed_positive
    }

    /// The tracker after the start of a new frame: the event cleared.
    pub open spec fn after_frame(self) -> StripeState {
        StripeState { just_switched: false, ..self }
    }

    /// A new, enabled tracker in a dark stripe.
    pub fn new() -> (s: StripeState)
        ensures
            s == StripeState::initial(),
    {
        StripeState { enabled: true, dark_stripe: true, just_switched: false }
    }

    /// Decides an advance by an amount: returns whether the caller adds it
    /// to the phase and wraps the phase through the width.
    pub fn advance(&self, amount_nonpositive: bool) -> (applied: bool)
        ensures
            applied == self.advance_applies(amount_nonpositive),
    {
        self.enabled && !amount_nonpositive
    }

    /// Records one wrap of the phase: the stripe flips and `just_switched`
    /// is raised.
    pub fn wrap(&mut self)
        ensures
            *final(self) == old(self).after_wrap(),
    {
        self.dark_stripe = !self.dark_stripe;
        self.just_switched = true;
    }

    /// Starts a new frame: clears `just_switched`, then returns whether the
    /// caller advances the phase by `speed * dt`.
    pub fn frame(&mut self, speed_positive: bool) -> (advances: bool)
        ensures
            advances == old(self).frame_advances(speed_positive),
            *final(self) == old(self).after_frame(),
    {
        self.just_switched = false;
        self.enabled && speed_positive
    }

    /// Whether the tracker reports a dark stripe.
    pub fn is_dark(&self) -> (dark: bool)
        ensures
            dark == (self.dark_stripe && self.enabled),
    {
        self.dark_stripe && self.enabled
    }

    /// Whether the tracker reports a light stripe.
    pub fn is_light(&self) -> (light: bool)
        ensures
            light == (!self.dark_stripe && self.enabled),
    {
        !self.dark_stripe && self.enabled
    }

    /// The stripe's output: `dark_value` in a dark stripe, `light_value`
    /// in a light one, `off` when disabled.
    pub fn contrast<T>(&self, dark_value: T, light_value: T, off: T) -> (out: T)
        ensures
            out == (if !self.enabled {
                off
            } else if self.dark_stripe {
                dark_value
            } else {
                light_value
            }),
    {
        if !self.enabled {
            off
        } else if self.dark_stripe {
            dark_value
        } else {
            light_value
        }
    }
}

/// Wraps alternate the stripe: after `n` wraps the stripe has flipped
/// exactly when `n` is odd, `just_switched` is raised when it was already
/// or `n` is positive, and the tracker stays enabled or disabled.
pub proof fn lemma_wraps_alternate(s: StripeState, n: nat)
    ensures
        s.after_wraps(n).dark_stripe == (if n % 2 == 1 { !s.dark_stripe } else { s.dark_stripe }),
        s.after_wraps(n).just_switched == (s.just_switched || n > 0),
        s.after_wraps(n).enabled == s.enabled,
    decreases n,
{
    if n > 0 {
        lemma_wraps_alternate(s, (n - 1) as nat);
    }
}

/// Two wraps come back: the stripe after two wraps is the stripe before
/// them.
pub proof fn lemma_two_wraps_return(s: StripeState)
    ensures
        s.after_wrap().after_wrap().dark_stripe == s.dark_stripe,
{
}

/// A disabled tracker does not advance, neither on request nor by itself.
pub proof fn lemma_disabled_stripe_is_inert(
    s: StripeState,
    amount_nonpositive: bool,
    speed_positive: bool,
)
    requires
        !s.enabled,
    ensures
        !s.advance_applies(amount_nonpositive),
        !s.frame_advances(speed_positive),
        s.after_frame().dark_stripe == s.dark_stripe,
{
}

/// A new frame forgets the switch of the previous one and keeps the
/// stripe: only a wrap flips it.
pub proof fn lemma_stripe_frame_keeps_stripe(s: StripeState)
    ensures
        !s.after_frame().just_switched,
        s.after_frame().dark_stripe == s.dark_stripe,
        s.after_frame().enabled == s.enabled,
{
}


/// An enabled tracker advances by any positive amount, in a dark stripe as
/// in a light one and whether or not it just switched; a disabled tracker
/// or a non-positive amount never advances.
pub proof fn lemma_advance_behaviour(s: StripeState, t: StripeState, amount_nonpositive: bool)
    requires
        s.enabled == t.enabled,
    ensures
        s.advance_applies(amount_nonpositive) == (s.enabled && !amount_nonpositive),
        s.advance_applies(amount_nonpositive) == t.advance_applies(amount_nonpositive),
{
}

/// A wrap flips the stripe and raises `just_switched`, keeping the enabled
/// state; a new frame advances exactly when enabled and moving, in either
/// stripe, keeps the stripe and lowers `just_switched`.
pub proof fn lemma_wrap_and_frame_behaviour(s: StripeState, speed_positive: bool)
    ensures
        s.after_wrap() == (StripeState {
            enabled: s.enabled,
            dark_stripe: !s.dark_stripe,
            just_switched: true,
        }),
        s.frame_advances(speed_positive) == (s.enabled && speed_positive),
        s.after_frame() == (StripeState {
            enabled: s.enabled,
            dark_stripe: s.dark_stripe,
            just_switched: false,
        }),
{
}


/// A new stripe tracker, in a dark stripe, starts enabled with no event raised.
pub proof fn lemma_new_stripe_is_quiet(
    s: StripeState,
)
    requires
        s == StripeState::initial(),
    ensures
        s.enabled && s.dark_stripe && !s.just_switched,
{
}

} // verus!
