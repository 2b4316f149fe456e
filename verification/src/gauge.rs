//! A level bounded by zero and a maximum.
//!
//! Requests fill the level (capped at the maximum) and drain it (floored at
//! zero); each frame the level moves on its own, toward the maximum for a
//! rising gauge and toward zero for a falling one. Two one-frame events
//! report the bounds: `just_full` on the frame the level reaches the
//! maximum from below, `just_empty` on the frame it reaches zero.
//!
//! The caller keeps the level. For each operation it computes the candidate
//! new level, hands over the comparisons the rules look at, and stores the
//! candidate only when the operation reports that it takes effect.

use vstd::prelude::*;

verus! {

/// Enabled state and one-frame events of a bounded gauge.
#[derive(Clone, Copy, Debug, PartialEq, Eq, Structural)]
pub struct GaugeEvents {
    /// A disabled gauge refuses every change; a new frame still clears its
    /// events.
    pub enabled: bool,
    /// Raised on the frame the level reaches the maximum from below.
    pub just_full: bool,
    /// Raised on the frame the level reaches zero.
    pub just_empty: bool,
}

/// One operation on a gauge, with the comparisons the caller made for it.
pub enum GaugeStep {
    /// A fill request: `amount <= 0`, `level < max` before, and
    /// `min(level + amount, max) >= max`.
    Fill { amount_nonpositive: bool, was_below_max: bool, reaches_max: bool },
    /// A drain request: `amount <= 0`, `level <= 0` before, and
    /// `max(level - amount, 0) <= 0`.
    Drain { amount_nonpositive: bool, was_empty: bool, reaches_empty: bool },
    /// A new frame of a rising gauge: `rate > 0`, `level < max` before, and
    /// `min(level + rate * dt, max) >= max`.
    RiseFrame { rate_positive: bool, was_below_max: bool, reaches_max: bool },
    /// A new frame of a falling gauge: `rate > 0`, `level > 0` before, and
    /// `max(level - rate * dt, 0) <= 0`.
    FallFrame { rate_positive: bool, was_positive: bool, reaches_empty: bool },
}

impl GaugeStep {
    /// Whether the step starts a new frame.
    pub open spec fn is_frame(self) -> bool {
        self is RiseFrame || self is FallFrame
    }
}

impl GaugeEvents {
    /// An enabled gauge with no event raised.
    pub open spec fn initial() -> GaugeEvents {
        GaugeEvents { enabled: true, just_full: false, just_empty: false }
    }

    /// Whether a fill request changes the level.
    pub open spec fn fill_applies(self, amount_nonpositive: bool) -> bool {
        self.enabled && !amount_nonpositive
    }

    /// Whether a drain request changes the level: the gauge must be enabled,
    /// the amount positive and the level above zero.
    pub open spec fn drain_applies(self, amount_nonpositive: bool, was_empty: bool) -> bool {
        self.enabled && !amount_nonpositive && !was_empty
    }

    /// Whether a frame of a rising gauge moves the level.
    pub open spec fn rise_applies(self, rate_positive: bool, was_below_max: bool) -> bool {
        self.enabled && rate_positive && was_below_max
    }

    /// Whether a frame of a falling gauge moves the level.
    pub open spec fn fall_applies(self, rate_positive: bool, was_positive: bool) -> bool {
        self.enabled && rate_positive && was_positive
    }

    /// Whether `step` changes the level.
    pub open spec fn applies(self, step: GaugeStep) -> bool {
        match step {
            GaugeStep::Fill { amount_nonpositive, .. } => self.fill_applies(amount_nonpositive),
            GaugeStep::Drain { amount_nonpositive, was_empty, .. } => self.drain_applies(
                amount_nonpositive,
                was_empty,
            ),
            GaugeStep::RiseFrame { rate_positive, was_below_max, .. } => self.rise_applies(
                rate_positive,
                was_below_max,
            ),
            GaugeStep::FallFrame { rate_positive, was_positive, .. } => self.fall_applies(
                rate_positive,
                was_positive,
            ),
        }
    }

    /// Whether `step` raises `just_full`.
    pub open spec fn raises_full(self, step: GaugeStep) -> bool {
        match step {
            GaugeStep::Fill { amount_nonpositive, was_below_max, reaches_max } => self.fill_applies(
                amount_nonpositive,
            ) && was_below_max && reaches_max,
            GaugeStep::RiseFrame { rate_positive, was_below_max, reaches_max } => self.rise_applies(
                rate_positive,
                was_below_max,
            ) && reaches_max,
            _ => false,
        }
    }

    /// Whether `step` raises `just_empty`.
    pub open spec fn raises_empty(self, step: GaugeStep) -> bool {
        match step {
            GaugeStep::Drain { amount_nonpositive, was_empty, reaches_empty } => self.drain_applies(
                amount_nonpositive,
                was_empty,
            ) && reaches_empty,
            GaugeStep::FallFrame { rate_positive, was_positive, reaches_empty } => self.fall_applies(
                rate_positive,
                was_positive,
            ) && reaches_empty,
            _ => false,
        }
    }

    /// The gauge after `step`: a new frame clears the events before the
    /// step raises its own; a request keeps the events already raised.
    pub open spec fn after(self, step: GaugeStep) -> GaugeEvents {
        if step.is_frame() {
            GaugeEvents {
                enabled: self.enabled,
                just_full: self.raises_full(step),
                just_empty: self.raises_empty(step),
            }
        } else {
            GaugeEvents {
                enabled: self.enabled,
                just_full: self.just_full || self.raises_full(step),
                just_empty: self.just_empty || self.raises_empty(step),
            }
        }
    }

    /// The gauge after each of `steps` in turn.
    pub open spec fn run(self, steps: Seq<GaugeStep>) -> GaugeEvents
        decreases steps.len(),
    {
        if steps.len() == 0 {
            self
        } else {
            self.run(steps.drop_last()).after(steps.last())
        }
    }

    /// A new, enabled gauge with no event raised.
    pub fn new() -> (g: GaugeEvents)
        ensures
            g == GaugeEvents::initial(),
    {
        GaugeEvents { enabled: true, just_full: false, just_empty: false }
    }

    /// Decides a fill request. Returns whether the caller stores its
    /// candidate level `min(level + amount, max)`; raises `just_full` when
    /// the request takes the level from below the maximum to it.
    pub fn fill(&mut self, amount_nonpositive: bool, was_below_max: bool, reaches_max: bool) -> (applied:
        bool)
        ensures
            applied == old(self).fill_applies(amount_nonpositive),
            *final(self) == old(self).after(
                GaugeStep::Fill { amount_nonpositive, was_below_max, reaches_max },
            ),
    {
        if !self.enabled || amount_nonpositive {
            return false;
        }
        if was_below_max && reaches_max {
            self.just_full = true;
        }
        true
    }

    /// Decides a drain request. Returns whether the caller stores its
    /// candidate level `max(level - amount, 0)`; raises `just_empty` when
    /// that candidate is zero.
    pub fn drain(&mut self, amount_nonpositive: bool, was_empty: bool, reaches_empty: bool) -> (applied:
        bool)
        ensures
            applied == old(self).drain_applies(amount_nonpositive, was_empty),
            *final(self) == old(self).after(
                GaugeStep::Drain { amount_nonpositive, was_empty, reaches_empty },
            ),
    {
        if !self.enabled || amount_nonpositive || was_empty {
            return false;
        }
        if reaches_empty {
            self.just_empty = true;
        }
        true
    }

    /// Starts a new frame of a rising gauge: clears both events, then
    /// returns whether the caller stores `min(level + rate * dt, max)`;
    /// raises `just_full` when that candidate reaches the maximum.
    pub fn rise_frame(&mut self, rate_positive: bool, was_below_max: bool, reaches_max: bool) -> (applied:
        bool)
        ensures
            applied == old(self).rise_applies(rate_positive, was_below_max),
            *final(self) == old(self).after(
                GaugeStep::RiseFrame { rate_positive, was_below_max, reaches_max },
            ),
    {
        self.just_full = false;
        self.just_empty = false;
        if self.enabled && rate_positive && was_below_max {
            if reaches_max {
                self.just_full = true;
            }
            true
        } else {
            false
        }
    }

    /// Starts a new frame of a falling gauge: clears both events, then
    /// returns whether the caller stores `max(level - rate * dt, 0)`;
    /// raises `just_empty` when that candidate is zero.
    pub fn fall_frame(&mut self, rate_positive: bool, was_positive: bool, reaches_empty: bool) -> (applied:
        bool)
        ensures
            applied == old(self).fall_applies(rate_positive, was_positive),
            *final(self) == old(self).after(
                GaugeStep::FallFrame { rate_positive, was_positive, reaches_empty },
            ),
    {
        self.just_full = false;
        self.just_empty = false;
        if self.enabled && rate_positive && was_positive {
            if reaches_empty {
                self.just_empty = true;
            }
            true
        } else {
            false
        }
    }

    /// Whether the gauge reports itself full: the level is at the maximum
    /// (`at_max`, that is `level >= max`) and the gauge is enabled.
    pub fn is_full(&self, at_max: bool) -> (full: bool)
        ensures
            full == (at_max && self.enabled),
    {
        at_max && self.enabled
    }

    /// Whether a scaled output is produced: an enabled gauge yields `on`
    /// (the caller's `scale * fraction`), a disabled one `off`.
    pub fn output<T>(&self, on: T, off: T) -> (out: T)
        ensures
            out == (if self.enabled { on } else { off }),
    {
        if self.enabled {
            on
        } else {
            off
        }
    }
}

/// A disabled gauge is inert: whatever the steps, none of them changes the
/// level, the gauge stays disabled, and no event is raised that was not
/// already raised before the first step.
pub proof fn lemma_disabled_gauge_is_inert(g: GaugeEvents, steps: Seq<GaugeStep>)
    requires
        !g.enabled,
    ensures
        forall|i: int| 0 <= i < steps.len() ==> !#[trigger] g.run(steps.take(i)).applies(steps[i]),
        !g.run(steps).enabled,
        g.run(steps).just_full ==> g.just_full,
        g.run(steps).just_empty ==> g.just_empty,
    decreases steps.len(),
{
    if steps.len() > 0 {
        let init = steps.drop_last();
        lemma_disabled_gauge_is_inert(g, init);
        assert forall|i: int| 0 <= i < steps.len() implies !#[trigger] g.run(steps.take(i)).applies(
            steps[i],
        ) by {
            if i < steps.len() - 1 {
                assert(steps.take(i) =~= init.take(i));
                assert(init[i] == steps[i]);
            } else {
                assert(steps.take(i) =~= init);
            }
        }
    }
}

/// No step changes whether the gauge is enabled.
pub proof fn lemma_run_keeps_enabled(g: GaugeEvents, steps: Seq<GaugeStep>)
    ensures
        g.run(steps).enabled == g.enabled,
    decreases steps.len(),
{
    if steps.len() > 0 {
        lemma_run_keeps_enabled(g, steps.drop_last());
    }
}

/// A new frame forgets the events of the previous one: two gauges that
/// agree on being enabled are alike after the same frame, whatever events
/// they held before it.
pub proof fn lemma_frame_forgets_events(g: GaugeEvents, h: GaugeEvents, frame: GaugeStep)
    requires
        frame.is_frame(),
        g.enabled == h.enabled,
    ensures
        g.after(frame) == h.after(frame),
{
}

/// Events are edge-triggered and tied to their bound: `just_full` is raised
/// only by a fill or a rising frame that starts below the maximum, and
/// `just_empty` only by a drain of a level above zero or a falling frame.
pub proof fn lemma_events_match_their_bound(g: GaugeEvents, step: GaugeStep)
    ensures
        g.raises_full(step) ==> match step {
            GaugeStep::Fill { was_below_max, .. } => was_below_max,
            GaugeStep::RiseFrame { was_below_max, .. } => was_below_max,
            _ => false,
        },
        g.raises_empty(step) ==> match step {
            GaugeStep::Drain { was_empty, .. } => !was_empty,
            GaugeStep::FallFrame { was_positive, .. } => was_positive,
            _ => false,
        },
{
}

/// The prefixes of `steps` shorter than it are the prefixes of its initial
/// part.
proof fn lemma_prefix_of_initial_part(g: GaugeEvents, steps: Seq<GaugeStep>, i: int)
    requires
        0 <= i < steps.len() - 1,
    ensures
        g.run(steps.take(i)) == g.run(steps.drop_last().take(i)),
        steps[i] == steps.drop_last()[i],
{
    assert(steps.take(i) =~= steps.drop_last().take(i));
}

/// Within a frame, requests only add events: after any requests, an event
/// is raised exactly when it was raised at the start or one of the
/// requests raised it.
#[verifier::spinoff_prover]
pub proof fn lemma_events_within_a_frame(g: GaugeEvents, steps: Seq<GaugeStep>)
    requires
        forall|i: int| 0 <= i < steps.len() ==> !(#[trigger] steps[i]).is_frame(),
    ensures
        g.run(steps).just_full <==> (g.just_full || exists|i: int|
            0 <= i < steps.len() && #[trigger] g.run(steps.take(i)).raises_full(steps[i])),
        g.run(steps).just_empty <==> (g.just_empty || exists|i: int|
            0 <= i < steps.len() && #[trigger] g.run(steps.take(i)).raises_empty(steps[i])),
    decreases steps.len(),
{
    if steps.len() > 0 {
        let init = steps.drop_last();
        let n = steps.len() - 1;
        let prev = g.run(init);
        let last = steps[n];
        assert forall|i: int| 0 <= i < init.len() implies !(#[trigger] init[i]).is_frame() by {
            assert(init[i] == steps[i]);
        }
        lemma_events_within_a_frame(g, init);
        assert(steps.take(n) =~= init);
        assert(g.run(steps) == prev.after(last));
        assert(!last.is_frame());
        assert(g.run(steps).just_full == (prev.just_full || prev.raises_full(last)));
        assert(g.run(steps).just_empty == (prev.just_empty || prev.raises_empty(last)));
        if exists|i: int| 0 <= i < steps.len() && #[trigger] g.run(steps.take(i)).raises_full(
            steps[i],
        ) {
            let i = choose|i: int| 0 <= i < steps.len() && #[trigger] g.run(steps.take(i)).raises_full(
                steps[i],
            );
            if i < n {
                lemma_prefix_of_initial_part(g, steps, i);
                assert(g.run(init.take(i)).raises_full(init[i]));
            }
        }
        if prev.just_full && !g.just_full {
            let i = choose|i: int| 0 <= i < init.len() && #[trigger] g.run(init.take(i)).raises_full(
                init[i],
            );
            lemma_prefix_of_initial_part(g, steps, i);
            assert(g.run(steps.take(i)).raises_full(steps[i]));
        }
        if prev.raises_full(last) {
            assert(g.run(steps.take(n)).raises_full(steps[n]));
        }
        if exists|i: int| 0 <= i < steps.len() && #[trigger] g.run(steps.take(i)).raises_empty(
            steps[i],
        ) {
            let i = choose|i: int| 0 <= i < steps.len() && #[trigger] g.run(steps.take(i)).raises_empty(
                steps[i],
            );
            if i < n {
                lemma_prefix_of_initial_part(g, steps, i);
                assert(g.run(init.take(i)).raises_empty(init[i]));
            }
        }
        if prev.just_empty && !g.just_empty {
            let i = choose|i: int| 0 <= i < init.len() && #[trigger] g.run(init.take(i)).raises_empty(
                init[i],
            );
            lemma_prefix_of_initial_part(g, steps, i);
            assert(g.run(steps.take(i)).raises_empty(steps[i]));
        }
        if prev.raises_empty(last) {
            assert(g.run(steps.take(n)).raises_empty(steps[n]));
        }
    }
}


/// Whether a step changes the level depends only on whether the gauge is
/// enabled and on the step's own comparisons, never on the events already
/// raised this frame.
pub proof fn lemma_gauge_gate_ignores_events(g: GaugeEvents, h: GaugeEvents, step: GaugeStep)
    requires
        g.enabled == h.enabled,
    ensures
        g.applies(step) == h.applies(step),
{
}

/// When each step changes the level: a fill of a positive amount always
/// does on an enabled gauge; a drain of a positive amount does when the
/// level is above zero; a frame does when the rate is positive and the
/// level has room to move toward its bound. A disabled gauge never moves.
pub proof fn lemma_gauge_steps_apply_when(g: GaugeEvents, step: GaugeStep)
    ensures
        match step {
            GaugeStep::Fill { amount_nonpositive, .. } => g.applies(step) == (g.enabled
                && !amount_nonpositive),
            GaugeStep::Drain { amount_nonpositive, was_empty, .. } => g.applies(step) == (g.enabled
                && !amount_nonpositive && !was_empty),
            GaugeStep::RiseFrame { rate_positive, was_below_max, .. } => g.applies(step) == (
            g.enabled && rate_positive && was_below_max),
            GaugeStep::FallFrame { rate_positive, was_positive, .. } => g.applies(step) == (g.enabled
                && rate_positive && was_positive),
        },
{
}

/// Each event is raised exactly when its bound is reached: `just_full`
/// when a fill or rising frame that applies takes the level from below the
/// maximum to it, `just_empty` when a drain or falling frame that applies
/// takes it to zero. A request keeps the events already raised and leaves
/// the other event alone; a frame keeps neither and raises only its own.
/// No step changes whether the gauge is enabled.
pub proof fn lemma_gauge_events_at_bounds(g: GaugeEvents, step: GaugeStep)
    ensures
        g.after(step).enabled == g.enabled,
        match step {
            GaugeStep::Fill { was_below_max, reaches_max, .. } => g.after(step).just_full == (
            g.just_full || (g.applies(step) && was_below_max && reaches_max)) && g.after(
                step,
            ).just_empty == g.just_empty,
            GaugeStep::Drain { reaches_empty, .. } => g.after(step).just_empty == (g.just_empty || (
            g.applies(step) && reaches_empty)) && g.after(step).just_full == g.just_full,
            GaugeStep::RiseFrame { reaches_max, .. } => g.after(step).just_full == (g.applies(step)
                && reaches_max) && !g.after(step).just_empty,
            GaugeStep::FallFrame { reaches_empty, .. } => g.after(step).just_empty == (g.applies(
                step,
            ) && reaches_empty) && !g.after(step).just_full,
        },
{
}


/// A new gauge starts enabled with no event raised.
pub proof fn lemma_new_gauge_is_quiet(
    g: GaugeEvents,
)
    requires
        g == GaugeEvents::initial(),
    ensures
        g.enabled && !g.just_full && !g.just_empty,
{
}

} // verus!
