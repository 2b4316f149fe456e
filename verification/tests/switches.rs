use bsengine_core::cooldown::CooldownEvents;
use bsengine_core::crossing::CrossingEvents;
use bsengine_core::stripe::StripeState;

#[test]
fn cooldown_new_is_ready_and_quiet() {
    let c = CooldownEvents::new();
    assert_eq!(c, CooldownEvents { enabled: true, just_fired: false });
    assert!(c.is_ready(true));
}

#[test]
fn fire_when_ready_raises_event() {
    let mut c = CooldownEvents::new();
    assert!(c.fire(false));
    assert!(c.just_fired);
}

#[test]
fn fire_while_cooling_is_refused() {
    let mut c = CooldownEvents::new();
    assert!(!c.fire(true));
    assert!(!c.just_fired);
}

#[test]
fn fire_when_disabled_is_refused() {
    let mut c = CooldownEvents { enabled: false, just_fired: false };
    assert!(!c.fire(false));
    assert!(!c.just_fired);
}

#[test]
fn cooldown_frame_clears_and_counts_down() {
    let mut c = CooldownEvents { enabled: true, just_fired: true };
    assert!(c.frame(true));
    assert!(!c.just_fired);
    assert!(!c.frame(false));
}

#[test]
fn cooldown_disabled_frame_does_not_count_down() {
    let mut c = CooldownEvents { enabled: false, just_fired: true };
    assert!(!c.frame(true));
    assert!(!c.just_fired);
}

#[test]
fn cooldown_ready_and_output_gated() {
    let c = CooldownEvents::new();
    assert!(!c.is_ready(false));
    assert_eq!(c.output(10.0_f32, 0.0), 10.0);
    let d = CooldownEvents { enabled: false, just_fired: false };
    assert!(!d.is_ready(true));
    assert_eq!(d.output(10.0_f32, 0.0), 0.0);
}

#[test]
fn shot_event_lasts_one_frame() {
    let mut c = CooldownEvents::new();
    assert!(c.fire(false));
    c.frame(true);
    assert!(!c.just_fired);
    assert!(!c.fire(true));
    assert!(!c.just_fired);
}

fn crossing(up: bool, down: bool) -> CrossingEvents {
    CrossingEvents { enabled: true, just_crossed_up: up, just_crossed_down: down }
}

#[test]
fn crossing_new_is_quiet() {
    assert_eq!(CrossingEvents::new(), crossing(false, false));
}

#[test]
fn update_from_negative_to_positive_crosses_up() {
    let mut c = CrossingEvents::new();
    // -1 -> 1: non-positive before, not non-negative, positive after
    assert!(c.update(true, false, true, false));
    assert_eq!(c, crossing(true, false));
}

#[test]
fn update_from_zero_to_positive_crosses_up() {
    let mut c = CrossingEvents::new();
    assert!(c.update(true, true, true, false));
    assert_eq!(c, crossing(true, false));
}

#[test]
fn update_from_zero_to_negative_crosses_down() {
    let mut c = CrossingEvents::new();
    assert!(c.update(true, true, false, true));
    assert_eq!(c, crossing(false, true));
}

#[test]
fn update_from_positive_to_negative_crosses_down() {
    let mut c = CrossingEvents::new();
    assert!(c.update(false, true, false, true));
    assert_eq!(c, crossing(false, true));
}

#[test]
fn update_on_same_side_is_quiet() {
    let mut c = CrossingEvents::new();
    assert!(c.update(false, true, true, false));
    assert!(c.update(true, false, false, true));
    assert_eq!(c, crossing(false, false));
}

#[test]
fn update_to_zero_is_quiet() {
    let mut c = CrossingEvents::new();
    assert!(c.update(false, true, false, false));
    assert_eq!(c, crossing(false, false));
}

#[test]
fn update_when_disabled_is_refused() {
    let mut c = CrossingEvents { enabled: false, just_crossed_up: false, just_crossed_down: false };
    assert!(!c.update(true, false, true, false));
    assert!(!c.just_crossed_up);
}

#[test]
fn crossing_frame_clears_both() {
    let mut c = crossing(true, true);
    c.frame();
    assert_eq!(c, crossing(false, false));
    let mut d = CrossingEvents { enabled: false, just_crossed_up: true, just_crossed_down: true };
    d.frame();
    assert!(!d.just_crossed_up && !d.just_crossed_down);
}

#[test]
fn crossing_reports_and_signed_output() {
    let c = CrossingEvents::new();
    assert!(c.reports(true));
    assert!(!c.reports(false));
    assert_eq!(c.signed_output(true, false, 5.0_f32, -5.0, 0.0), 5.0);
    assert_eq!(c.signed_output(false, true, 5.0_f32, -5.0, 0.0), -5.0);
    assert_eq!(c.signed_output(false, false, 5.0_f32, -5.0, 0.0), 0.0);
    let d = CrossingEvents { enabled: false, just_crossed_up: false, just_crossed_down: false };
    assert!(!d.reports(true));
    assert_eq!(d.signed_output(true, false, 5.0_f32, -5.0, 0.0), 0.0);
}

#[test]
fn stripe_new_is_dark_and_quiet() {
    let s = StripeState::new();
    assert_eq!(s, StripeState { enabled: true, dark_stripe: true, just_switched: false });
    assert!(s.is_dark());
    assert!(!s.is_light());
}

#[test]
fn stripe_advance_gate() {
    let s = StripeState::new();
    assert!(s.advance(false));
    assert!(!s.advance(true));
    let d = StripeState { enabled: false, dark_stripe: true, just_switched: false };
    assert!(!d.advance(false));
}

#[test]
fn stripe_wrap_flips_and_raises_switch() {
    let mut s = StripeState::new();
    s.wrap();
    assert_eq!(s, StripeState { enabled: true, dark_stripe: false, just_switched: true });
    assert!(s.is_light());
}

#[test]
fn stripe_two_wraps_return() {
    let mut s = StripeState::new();
    s.wrap();
    s.wrap();
    assert!(s.dark_stripe);
    assert!(s.just_switched);
}

#[test]
fn stripe_frame_clears_switch() {
    let mut s = StripeState { enabled: true, dark_stripe: false, just_switched: true };
    assert!(s.frame(true));
    assert_eq!(s, StripeState { enabled: true, dark_stripe: false, just_switched: false });
    assert!(!s.frame(false));
}

#[test]
fn stripe_disabled_frame_does_not_advance() {
    let mut s = StripeState { enabled: false, dark_stripe: true, just_switched: true };
    assert!(!s.frame(true));
    assert!(!s.just_switched);
    assert!(!s.is_dark());
    assert!(!s.is_light());
}

#[test]
fn stripe_contrast() {
    let s = StripeState::new();
    assert_eq!(s.contrast(1.0_f32, 0.5, 0.0), 1.0);
    let l = StripeState { enabled: true, dark_stripe: false, just_switched: false };
    assert_eq!(l.contrast(1.0_f32, 0.5, 0.0), 0.5);
    let d = StripeState { enabled: false, dark_stripe: true, just_switched: false };
    assert_eq!(d.contrast(1.0_f32, 0.5, 0.0), 0.0);
}
