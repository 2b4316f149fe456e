use bsengine_core::fading::FadingEvents;
use bsengine_core::restoring::RestoringEvents;
use bsengine_core::threshold::ThresholdEvents;

fn devotion(devoted: bool, lapsed: bool) -> ThresholdEvents {
    ThresholdEvents { enabled: true, just_devoted: devoted, just_lapsed: lapsed }
}

#[test]
fn threshold_new_is_quiet() {
    assert_eq!(ThresholdEvents::new(), devotion(false, false));
}

#[test]
fn inspire_across_threshold_raises_devoted() {
    let mut t = ThresholdEvents::new();
    // level 0, threshold 5, amount 5: not devoted before, devoted after
    assert!(t.inspire(false, false, true));
    assert_eq!(t, devotion(true, false));
}

#[test]
fn inspire_when_already_devoted_does_not_refire() {
    let mut t = ThresholdEvents::new();
    assert!(t.inspire(false, true, true));
    assert!(!t.just_devoted);
}

#[test]
fn inspire_below_threshold_is_quiet() {
    let mut t = ThresholdEvents::new();
    assert!(t.inspire(false, false, false));
    assert_eq!(t, devotion(false, false));
}

#[test]
fn inspire_refused_for_nonpositive_amount_or_disabled() {
    let mut t = ThresholdEvents::new();
    assert!(!t.inspire(true, false, true));
    assert_eq!(t, devotion(false, false));
    let mut d = ThresholdEvents { enabled: false, just_devoted: false, just_lapsed: false };
    assert!(!d.inspire(false, false, true));
    assert!(!d.just_devoted);
}

#[test]
fn threshold_frame_decays_in_fading_band() {
    let mut t = devotion(true, false);
    // level 3 below threshold 5 decays to 2: not zero
    assert!(t.frame(true, true, false));
    assert_eq!(t, devotion(false, false));
}

#[test]
fn threshold_frame_raises_lapsed_at_zero() {
    let mut t = ThresholdEvents::new();
    assert!(t.frame(true, true, true));
    assert_eq!(t, devotion(false, true));
}

#[test]
fn threshold_frame_pauses_when_devoted() {
    let mut t = ThresholdEvents::new();
    assert!(!t.frame(true, false, false));
    assert_eq!(t, devotion(false, false));
}

#[test]
fn threshold_frame_idle_at_zero() {
    let mut t = ThresholdEvents::new();
    assert!(!t.frame(false, true, true));
    assert!(!t.just_lapsed);
}

#[test]
fn threshold_disabled_frame_clears_flags() {
    let mut t = ThresholdEvents { enabled: false, just_devoted: true, just_lapsed: true };
    assert!(!t.frame(true, true, true));
    assert_eq!(t, ThresholdEvents { enabled: false, just_devoted: false, just_lapsed: false });
}

#[test]
fn threshold_predicates() {
    let t = ThresholdEvents::new();
    assert!(t.is_devoted(true));
    assert!(!t.is_devoted(false));
    assert!(t.is_fading(true, true));
    assert!(!t.is_fading(false, true));
    assert!(!t.is_fading(true, false));
    let d = ThresholdEvents { enabled: false, just_devoted: false, just_lapsed: false };
    assert!(!d.is_devoted(true));
    assert!(!d.is_fading(true, true));
    assert_eq!(d.output(150.0_f32, 100.0), 100.0);
    assert_eq!(t.output(150.0_f32, 100.0), 150.0);
}

fn serenity(achieved: bool, broken: bool) -> RestoringEvents {
    RestoringEvents { enabled: true, just_achieved: achieved, just_broken: broken }
}

#[test]
fn restoring_new_is_quiet() {
    assert_eq!(RestoringEvents::new(), serenity(false, false));
}

#[test]
fn disturb_positive_level_raises_broken() {
    let mut r = RestoringEvents::new();
    assert!(r.disturb(false, true));
    assert_eq!(r, serenity(false, true));
}

#[test]
fn disturb_empty_level_applies_without_break() {
    let mut r = RestoringEvents::new();
    assert!(r.disturb(false, false));
    assert_eq!(r, serenity(false, false));
}

#[test]
fn disturb_refused_for_nonpositive_amount_or_disabled() {
    let mut r = RestoringEvents::new();
    assert!(!r.disturb(true, true));
    assert!(!r.just_broken);
    let mut d = RestoringEvents { enabled: false, just_achieved: false, just_broken: false };
    assert!(!d.disturb(false, true));
    assert!(!d.just_broken);
}

#[test]
fn restoring_frame_reaches_max_raises_achieved() {
    let mut r = serenity(false, true);
    assert!(r.frame(true, true));
    assert_eq!(r, serenity(true, false));
}

#[test]
fn restoring_frame_at_max_rests() {
    let mut r = serenity(true, false);
    assert!(!r.frame(false, true));
    assert_eq!(r, serenity(false, false));
}

#[test]
fn restoring_predicates() {
    let r = RestoringEvents::new();
    assert!(r.is_serene(true));
    assert!(r.is_unsettled(true));
    let d = RestoringEvents { enabled: false, just_achieved: false, just_broken: false };
    assert!(!d.is_serene(true));
    assert!(!d.is_unsettled(true));
    assert_eq!(d.output(20.0_f32, 10.0), 10.0);
}

fn zest(enthused: bool, peaked: bool) -> FadingEvents {
    FadingEvents { enabled: true, just_enthused: enthused, just_peaked: peaked }
}

#[test]
fn fading_new_is_quiet() {
    assert_eq!(FadingEvents::new(), zest(false, false));
}

#[test]
fn fading_inspire_raises_enthused() {
    let mut f = FadingEvents::new();
    assert!(f.inspire(false, true, false));
    assert_eq!(f, zest(true, false));
}

#[test]
fn fading_inspire_to_max_raises_peaked() {
    let mut f = FadingEvents::new();
    assert!(f.inspire(false, true, true));
    assert_eq!(f, zest(true, true));
}

#[test]
fn fading_inspire_at_max_does_not_repeak() {
    let mut f = FadingEvents::new();
    assert!(f.inspire(false, false, true));
    assert_eq!(f, zest(true, false));
}

#[test]
fn fading_inspire_refused() {
    let mut f = FadingEvents::new();
    assert!(!f.inspire(true, true, true));
    assert_eq!(f, zest(false, false));
    let mut d = FadingEvents { enabled: false, just_enthused: false, just_peaked: false };
    assert!(!d.inspire(false, true, true));
    assert!(!d.just_enthused);
}

#[test]
fn fading_frame_is_silent() {
    let mut f = zest(true, true);
    assert!(f.frame(true));
    assert_eq!(f, zest(false, false));
    assert!(!f.frame(false));
}

#[test]
fn fading_predicates() {
    let f = FadingEvents::new();
    assert!(f.is_enthused(true));
    assert!(!f.is_enthused(false));
    assert!(f.is_peaked(true));
    let d = FadingEvents { enabled: false, just_enthused: false, just_peaked: false };
    assert!(!d.is_enthused(true));
    assert!(!d.is_peaked(true));
    let mut c = d;
    assert!(!c.frame(true));
}

#[test]
fn devoted_and_fading_never_both() {
    let t = ThresholdEvents::new();
    // level 7, threshold 5: at threshold, not below
    assert!(t.is_devoted(true) && !t.is_fading(true, false));
    // level 3: below, not at threshold
    assert!(!t.is_devoted(false) && t.is_fading(true, true));
    let d = ThresholdEvents { enabled: false, just_devoted: false, just_lapsed: false };
    assert!(!d.is_devoted(true) && !d.is_fading(true, true));
}
