use dark_window::composition::{CompositionOutcome, Request, Stage, StrategySelector};
use dark_window::controller::{Event, Phase, Response, WindowController};
use dark_window::paint::{palette, Palette, Rect};

fn client() -> Rect {
    Rect { left: 0, top: 0, right: 320, bottom: 240 }
}

fn paint_of(c: &mut WindowController) -> (Palette, bool) {
    match c.handle(Event::EraseBackground(client())) {
        Response::Paint(p) => (p.palette, p.force_redraw),
        other => panic!("expected a paint plan, got {other:?}"),
    }
}

#[test]
fn fresh_light_window_paints_white_and_redraws_once() {
    let mut c = WindowController::new(Some(1));
    assert!(!c.is_dark);
    match c.handle(Event::Create) {
        Response::Compose(s) => assert_eq!(s, StrategySelector { dark: false, stage: Stage::DarkChrome }),
        other => panic!("expected composition, got {other:?}"),
    }
    assert_eq!(c.phase, Phase::Running);
    let (p, redraw) = paint_of(&mut c);
    assert_eq!(p, palette(false));
    assert_eq!(p.background.to_colorref(), 0x00ffffff);
    assert_eq!(p.text.to_colorref(), 0);
    assert!(redraw);
    for _ in 0..5 {
        let (p, redraw) = paint_of(&mut c);
        assert_eq!(p, palette(false));
        assert!(!redraw);
    }
}

#[test]
fn dark_window_paints_dark_palette() {
    let mut c = WindowController::new(Some(0));
    let _ = c.handle(Event::Create);
    let (p, _) = paint_of(&mut c);
    assert_eq!(p, palette(true));
}

#[test]
fn setting_change_to_dark_repaints_dark() {
    let mut c = WindowController::new(Some(1));
    let _ = c.handle(Event::Create);
    let _ = paint_of(&mut c);
    match c.handle(Event::SettingChange(Some(0))) {
        Response::Refresh { dark } => assert!(dark),
        other => panic!("expected refresh, got {other:?}"),
    }
    let (p, redraw) = paint_of(&mut c);
    assert_eq!(p, palette(true));
    assert!(!redraw);
}

#[test]
fn repeated_setting_change_is_idempotent() {
    let mut c = WindowController::new(Some(0));
    let _ = c.handle(Event::Create);
    let _ = c.handle(Event::SettingChange(Some(1)));
    let once = c;
    let (p1, _) = paint_of(&mut c.clone());
    let _ = c.handle(Event::SettingChange(Some(1)));
    assert_eq!(c, once);
    let (p2, _) = paint_of(&mut c);
    assert_eq!(p1, p2);
    assert_eq!(p2, palette(false));
}

#[test]
fn unreadable_setting_falls_back_to_light() {
    let mut c = WindowController::new(Some(0));
    match c.handle(Event::SettingChange(None)) {
        Response::Refresh { dark } => assert!(!dark),
        other => panic!("expected refresh, got {other:?}"),
    }
    assert!(!c.is_dark);
}

#[test]
fn destroy_quits_then_passes_everything_through() {
    let mut c = WindowController::new(Some(1));
    let _ = c.handle(Event::Create);
    assert!(matches!(c.handle(Event::Destroy), Response::Quit));
    assert_eq!(c.phase, Phase::Destroyed);
    assert!(matches!(c.handle(Event::EraseBackground(client())), Response::PassThrough));
    assert!(matches!(c.handle(Event::Destroy), Response::PassThrough));
}

#[test]
fn other_events_and_second_create_pass_through() {
    let mut c = WindowController::new(Some(1));
    assert!(matches!(c.handle(Event::Other), Response::PassThrough));
    let _ = c.handle(Event::Create);
    assert!(matches!(c.handle(Event::Create), Response::PassThrough));
    assert_eq!(c.phase, Phase::Running);
}

#[test]
fn dark_window_with_legacy_blur_keeps_dark_palette() {
    let mut c = WindowController::new(Some(0));
    let mut selector = match c.handle(Event::Create) {
        Response::Compose(s) => s,
        other => panic!("expected composition, got {other:?}"),
    };
    let mut requests = vec![selector.request()];
    for ok in [true, false, true, true] {
        requests.push(selector.advance(ok));
    }
    assert_eq!(requests[0], Request::SetDarkChrome(true));
    assert!(requests.iter().any(|r| matches!(r, Request::ExtendFrame(_))));
    assert_eq!(selector.outcome(), Some(CompositionOutcome::LegacyBlurApplied));
    let (p, redraw) = paint_of(&mut c);
    assert_eq!(p, palette(true));
    assert!(redraw);
}
