use dark_window::composition::{
    blur_policy, gradient_color, AccentPolicy, Backdrop, CompositionOutcome, Margins, Request,
    Stage, StrategySelector, WCA_ACCENT_POLICY,
};
use dark_window::paint::Color;

fn drive(dark: bool, replies: &[bool]) -> (Vec<Request>, StrategySelector) {
    let mut s = StrategySelector::new(dark);
    let mut requests = vec![s.request()];
    for &ok in replies {
        requests.push(s.advance(ok));
    }
    (requests, s)
}

fn sheet() -> Margins {
    Margins { left: -1, right: -1, top: -1, bottom: -1 }
}

#[test]
fn backdrop_values() {
    assert_eq!(Backdrop::Auto.value(), 0);
    assert_eq!(Backdrop::NoBackdrop.value(), 1);
    assert_eq!(Backdrop::MainWindow.value(), 2);
    assert_eq!(Backdrop::TransientWindow.value(), 3);
    assert_eq!(Backdrop::TabbedWindow.value(), 4);
}

#[test]
fn gradient_packs_alpha_over_tint() {
    assert_eq!(gradient_color(0x40, Color::new(0x2f, 0x2f, 0x2f)), 0x402f2f2f);
    assert_eq!(gradient_color(0xff, Color::new(1, 2, 3)), 0xff030201);
}

#[test]
fn blur_policy_layout() {
    let p = blur_policy();
    assert_eq!(p, AccentPolicy { accent_state: 3, accent_flags: 0, gradient_color: 0x402f2f2f, animation_id: 0 });
    assert_eq!(p.to_bytes(), vec![3, 0, 0, 0, 0, 0, 0, 0, 0x2f, 0x2f, 0x2f, 0x40, 0, 0, 0, 0]);
}

#[test]
fn accent_bytes_are_little_endian() {
    let p = AccentPolicy { accent_state: 0x04030201, accent_flags: 0x08070605, gradient_color: 0x0c0b0a09, animation_id: 0x100f0e0d };
    assert_eq!(p.to_bytes(), (1u8..=16).collect::<Vec<u8>>());
}

#[test]
fn accepted_backdrop_is_applied() {
    let (requests, s) = drive(false, &[true, true, true]);
    assert_eq!(
        requests,
        vec![
            Request::SetDarkChrome(false),
            Request::SetSystemBackdrop(Backdrop::TransientWindow),
            Request::EnableBlurBehind,
            Request::Finish(CompositionOutcome::SystemBackdropApplied),
        ]
    );
    assert_eq!(s.outcome(), Some(CompositionOutcome::SystemBackdropApplied));
}

#[test]
fn dark_unsupported_backdrop_falls_back_to_legacy_blur() {
    let (requests, s) = drive(true, &[true, false, true, true]);
    assert_eq!(
        requests,
        vec![
            Request::SetDarkChrome(true),
            Request::SetSystemBackdrop(Backdrop::TransientWindow),
            Request::ExtendFrame(sheet()),
            Request::ApplyAccentPolicy { attribute: WCA_ACCENT_POLICY, policy: blur_policy() },
            Request::Finish(CompositionOutcome::LegacyBlurApplied),
        ]
    );
    assert_eq!(s.outcome(), Some(CompositionOutcome::LegacyBlurApplied));
}

#[test]
fn missing_legacy_capability_fails() {
    let (_, s) = drive(false, &[true, false, true, false]);
    assert_eq!(s.outcome(), Some(CompositionOutcome::Failed));
}

#[test]
fn failed_chrome_step_is_not_fatal() {
    let (_, a) = drive(true, &[false, true, true]);
    assert_eq!(a.outcome(), Some(CompositionOutcome::SystemBackdropApplied));
    let (_, b) = drive(true, &[false, false, false, true]);
    assert_eq!(b.outcome(), Some(CompositionOutcome::LegacyBlurApplied));
}

#[test]
fn selector_is_pending_until_done() {
    let (_, s) = drive(true, &[true]);
    assert_eq!(s.stage, Stage::SystemBackdrop);
    assert_eq!(s.outcome(), None);
    let (_, mut done) = drive(true, &[true, true, true]);
    assert_eq!(done.advance(false), Request::Finish(CompositionOutcome::SystemBackdropApplied));
}
