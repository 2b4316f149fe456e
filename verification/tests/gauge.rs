use bsengine_core::gauge::GaugeEvents;

fn raised(full: bool, empty: bool) -> GaugeEvents {
    GaugeEvents { enabled: true, just_full: full, just_empty: empty }
}

#[test]
fn new_gauge_is_enabled_and_quiet() {
    let g = GaugeEvents::new();
    assert_eq!(g, raised(false, false));
}

#[test]
fn fill_to_max_raises_full() {
    let mut g = GaugeEvents::new();
    // level 90 of 100, amount 20: below max before, candidate 100 reaches it
    assert!(g.fill(false, true, true));
    assert_eq!(g, raised(true, false));
}

#[test]
fn fill_below_max_applies_without_event() {
    let mut g = GaugeEvents::new();
    assert!(g.fill(false, true, false));
    assert_eq!(g, raised(false, false));
}

#[test]
fn fill_when_already_full_does_not_refire() {
    let mut g = GaugeEvents::new();
    assert!(g.fill(false, false, true));
    assert!(!g.just_full);
}

#[test]
fn fill_nonpositive_amount_is_refused() {
    let mut g = GaugeEvents::new();
    assert!(!g.fill(true, true, true));
    assert_eq!(g, raised(false, false));
}

#[test]
fn fill_keeps_events_raised_earlier_in_the_frame() {
    let mut g = raised(true, true);
    assert!(g.fill(false, true, false));
    assert_eq!(g, raised(true, true));
}

#[test]
fn disabled_gauge_refuses_fill_and_drain() {
    let mut g = GaugeEvents { enabled: false, just_full: false, just_empty: false };
    assert!(!g.fill(false, true, true));
    assert!(!g.drain(false, false, true));
    assert_eq!(g, GaugeEvents { enabled: false, just_full: false, just_empty: false });
}

#[test]
fn drain_to_zero_raises_empty() {
    let mut g = GaugeEvents::new();
    assert!(g.drain(false, false, true));
    assert_eq!(g, raised(false, true));
}

#[test]
fn drain_partway_applies_without_event() {
    let mut g = GaugeEvents::new();
    assert!(g.drain(false, false, false));
    assert_eq!(g, raised(false, false));
}

#[test]
fn drain_of_empty_gauge_is_refused() {
    let mut g = GaugeEvents::new();
    assert!(!g.drain(false, true, true));
    assert!(!g.just_empty);
}

#[test]
fn drain_nonpositive_amount_is_refused() {
    let mut g = GaugeEvents::new();
    assert!(!g.drain(true, false, true));
    assert!(!g.just_empty);
}

#[test]
fn rise_frame_clears_events_then_raises_full() {
    let mut g = raised(true, true);
    assert!(g.rise_frame(true, true, true));
    assert_eq!(g, raised(true, false));
}

#[test]
fn rise_frame_clears_events_when_nothing_moves() {
    let mut g = raised(true, true);
    assert!(!g.rise_frame(true, false, true));
    assert_eq!(g, raised(false, false));
}

#[test]
fn rise_frame_with_zero_rate_does_not_move() {
    let mut g = GaugeEvents::new();
    assert!(!g.rise_frame(false, true, true));
    assert_eq!(g, raised(false, false));
}

#[test]
fn rise_frame_below_max_moves_quietly() {
    let mut g = GaugeEvents::new();
    assert!(g.rise_frame(true, true, false));
    assert_eq!(g, raised(false, false));
}

#[test]
fn fall_frame_clears_events_then_raises_empty() {
    let mut g = raised(true, false);
    assert!(g.fall_frame(true, true, true));
    assert_eq!(g, raised(false, true));
}

#[test]
fn fall_frame_of_empty_gauge_does_not_move() {
    let mut g = raised(false, true);
    assert!(!g.fall_frame(true, false, true));
    assert_eq!(g, raised(false, false));
}

#[test]
fn disabled_gauge_frame_only_clears() {
    let mut g = GaugeEvents { enabled: false, just_full: true, just_empty: true };
    assert!(!g.rise_frame(true, true, true));
    assert_eq!(g, GaugeEvents { enabled: false, just_full: false, just_empty: false });
    let mut h = GaugeEvents { enabled: false, just_full: true, just_empty: true };
    assert!(!h.fall_frame(true, true, true));
    assert_eq!(h, GaugeEvents { enabled: false, just_full: false, just_empty: false });
}

#[test]
fn frame_forgets_previous_events() {
    let mut a = raised(true, true);
    let mut b = raised(false, false);
    a.rise_frame(true, true, false);
    b.rise_frame(true, true, false);
    assert_eq!(a, b);
}

#[test]
fn events_within_a_frame_accumulate() {
    let mut g = GaugeEvents::new();
    g.rise_frame(true, true, false);
    assert!(g.fill(false, true, true));
    assert!(g.drain(false, false, true));
    assert_eq!(g, raised(true, true));
    g.rise_frame(true, true, false);
    assert_eq!(g, raised(false, false));
}

#[test]
fn is_full_needs_max_and_enabled() {
    let g = GaugeEvents::new();
    assert!(g.is_full(true));
    assert!(!g.is_full(false));
    let d = GaugeEvents { enabled: false, just_full: false, just_empty: false };
    assert!(!d.is_full(true));
}

#[test]
fn output_is_gated_by_enabled() {
    let g = GaugeEvents::new();
    assert_eq!(g.output(50.0_f32, 0.0), 50.0);
    let d = GaugeEvents { enabled: false, just_full: false, just_empty: false };
    assert_eq!(d.output(50.0_f32, 0.0), 0.0);
}
