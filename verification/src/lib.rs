//! Event logic of the engine's per-entity gameplay components.
//!
//! Every component of the engine keeps one or more numeric levels (a charge,
//! a cooldown timer, a phase) and a handful of one-frame event flags. The
//! numbers are floating point and live with the host; this crate holds the
//! part that decides: whether a requested change takes effect, which
//! one-frame events it raises, and how a new frame clears them. The host
//! describes its levels by the comparisons it made on them, and the
//! functions here are proved to follow the components' rules for every
//! outcome of those comparisons.
//!
//! - [`gauge`]: a level bounded by zero and a maximum, filled and drained
//!   by requests and moved toward one bound each frame.
//! - [`threshold`]: a level that decays only while below a threshold.
//! - [`restoring`]: a level that refills each frame and breaks on
//!   disturbance.
//! - [`fading`]: a level that rises on requests and fades silently.
//! - [`cooldown`]: a discharge gated by a cooldown timer.
//! - [`crossing`]: sign changes of a tracked value.
//! - [`stripe`]: a phase that alternates between two stripes as it wraps.

pub mod cooldown;
pub mod crossing;
pub mod fading;
pub mod gauge;
pub mod restoring;
pub mod stripe;
pub mod threshold;
