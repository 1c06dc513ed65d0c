//! The decisions of a demo host.
use welding::host::{
    drops_popup, is_timed_out, pick_surface_format, popup_viewport, probe_cookie, protocol_call,
    run_failed, surface_step, FrameOutcome, HostAction, HostEvent, HostState, SurfaceStatus,
    TickWants, Viewport,
};
use welding::{KeyEventKind, MouseAction, MouseButton, PhysicalSize, Platform, PopupRect};

fn painted(platform: Platform) -> HostState {
    let mut state = HostState::new(platform);
    state.frame_acquired(FrameOutcome::Imported);
    state
}

#[test]
fn input_waits_for_the_first_frame() {
    let key = HostEvent::Key { code: Some(65), pressed: true, text: Some('a') };
    let moved = HostEvent::CursorMoved { x: 1, y: 2, click_x: 1, click_y: 2 };
    let mut state = HostState::new(Platform::Linux);
    assert!(state.window_event(key).is_empty());
    assert!(state.window_event(moved).is_empty());
    assert!(state.window_event(HostEvent::MouseWheel { delta_x: 0, delta_y: 1 }).is_empty());
    assert_eq!(state.cursor, (1, 2), "the place is remembered all the same");
    let mut macos = HostState::new(Platform::Macos);
    assert_eq!(macos.window_event(moved).len(), 1);
}

#[test]
fn a_pressed_key_is_sent_with_its_text() {
    let mut state = painted(Platform::Linux);
    state.window_event(HostEvent::ModifiersChanged { shift: true, ctrl: false, alt: false, meta: false });
    let sent = |actions: Vec<HostAction>| -> Vec<(KeyEventKind, i32, Option<char>, bool)> {
        actions
            .into_iter()
            .map(|action| match action {
                HostAction::Key(k) => (k.kind, k.windows_key_code, k.character, k.modifiers.shift),
                other => panic!("unexpected action: {other:?}"),
            })
            .collect()
    };
    assert_eq!(
        sent(state.window_event(HostEvent::Key { code: Some(65), pressed: true, text: Some('A') })),
        vec![
            (KeyEventKind::RawKeyDown, 65, None, true),
            (KeyEventKind::Char, 65, Some('A'), true),
        ]
    );
    assert_eq!(
        sent(state.window_event(HostEvent::Key { code: Some(65), pressed: false, text: Some('A') })),
        vec![(KeyEventKind::KeyUp, 65, None, true)]
    );
    assert!(state.window_event(HostEvent::Key { code: None, pressed: true, text: None }).is_empty());
}

#[test]
fn a_click_lands_where_the_pointer_is_and_holds_its_button() {
    let mut state = painted(Platform::Linux);
    state.window_event(HostEvent::CursorMoved { x: 9, y: 9, click_x: 10, click_y: 9 });
    let actions =
        state.window_event(HostEvent::MouseInput { button: Some(MouseButton::Right), pressed: true });
    match actions[..] {
        [HostAction::Mouse(event)] => {
            assert_eq!((event.x, event.y), (10, 9));
            assert_eq!((event.button, event.action), (MouseButton::Right, MouseAction::Pressed));
            assert!(event.modifiers.right_mouse_button && !event.modifiers.left_mouse_button);
        }
        _ => panic!("not one mouse event"),
    }
    state.window_event(HostEvent::MouseInput { button: Some(MouseButton::Right), pressed: false });
    assert!(!state.modifiers.right_mouse_button);
    assert!(state.window_event(HostEvent::MouseInput { button: None, pressed: true }).is_empty());
}

#[test]
fn closing_differs_by_platform() {
    let mut linux = HostState::new(Platform::Linux);
    assert_eq!(
        linux.window_event(HostEvent::CloseRequested),
        vec![HostAction::Close, HostAction::Exit]
    );
    let mut windows = HostState::new(Platform::Windows);
    assert_eq!(windows.window_event(HostEvent::CloseRequested), vec![HostAction::Close]);
    assert!(windows.window_event(HostEvent::CloseRequested).is_empty(), "closing once is enough");
    assert!(!windows.is_over(false) && windows.is_over(true));
}

#[test]
fn a_surface_has_at_least_one_pixel() {
    let mut state = HostState::new(Platform::Linux);
    assert_eq!(
        state.window_event(HostEvent::Resized(PhysicalSize::new(0, 7))),
        vec![
            HostAction::ConfigureSurface(PhysicalSize::new(1, 7)),
            HostAction::Resize(PhysicalSize::new(0, 7)),
        ]
    );
    assert!(state.window_event(HostEvent::ScaleFactorChanged { forced: true }).is_empty());
    assert_eq!(
        state.window_event(HostEvent::ScaleFactorChanged { forced: false }),
        vec![HostAction::ApplyScale]
    );
}

#[test]
fn focus_is_given_once_the_browser_paints() {
    let mut state = HostState::new(Platform::Linux);
    assert!(!state.take_focus_attempt());
    state.frame_acquired(FrameOutcome::Imported);
    assert!(state.take_focus_attempt());
    assert!(!state.take_focus_attempt(), "one attempt per focus");
    state.focus_moved(false);
    assert!(state.window_event(HostEvent::Focused).is_empty());
    assert!(state.take_focus_attempt());
    state.focus_moved(true);
    assert!(!state.focus_pending);
    let mut macos = HostState::new(Platform::Macos);
    assert_eq!(macos.window_event(HostEvent::Focused), vec![HostAction::MoveFocus]);
    macos.frame_acquired(FrameOutcome::Imported);
    assert!(!macos.take_focus_attempt(), "nothing is put off on macOS");
}

#[test]
fn import_errors_do_not_flood_the_log() {
    let mut state = HostState::new(Platform::Linux);
    let logged: Vec<u64> = (1..=1000u64)
        .filter(|_| state.frame_acquired(FrameOutcome::Failed))
        .collect();
    assert_eq!(logged, vec![1, 500, 1000]);
    assert_eq!(state.frames_imported, 0);
    for platform in [Platform::Windows, Platform::Macos] {
        let mut state = HostState::new(platform);
        assert!((0..3).all(|_| state.frame_acquired(FrameOutcome::Failed)));
        assert!(!state.frame_acquired(FrameOutcome::NothingNew));
    }
}

const ALL: TickWants = TickWants {
    protocol: true,
    snapshot: true,
    script: true,
    cookies: true,
    history: true,
    snapshot_held: false,
    elapsed: 0,
};

#[test]
fn checks_happen_once_each_at_their_tick() {
    let mut state = HostState::new(Platform::Linux);
    let plans: Vec<_> = (1..=300).map(|tick| (tick, state.tick(ALL))).collect();
    let at = |pick: fn(&welding::host::TickPlan) -> bool| -> Vec<i32> {
        plans.iter().filter(|(_, plan)| pick(plan)).map(|(tick, _)| *tick).collect()
    };
    assert_eq!(at(|plan| plan.script), vec![61]);
    assert_eq!(at(|plan| plan.cookies), vec![61]);
    assert_eq!(at(|plan| plan.snapshot), vec![91]);
    assert_eq!(at(|plan| plan.protocol_message), vec![200]);
    assert_eq!(at(|plan| plan.page_checks), vec![200, 201]);
    assert_eq!(at(|plan| plan.history), vec![200, 201]);
}

#[test]
fn history_is_looked_at_once_on_macos_when_the_page_had_time() {
    let mut state = HostState::new(Platform::Macos);
    let early = TickWants { elapsed: 1_999_999_999, ..ALL };
    let late = TickWants { elapsed: 2_000_000_000, ..ALL };
    assert!(!state.tick(early).history);
    assert!(!state.tick(TickWants { history: false, ..late }).history);
    assert!(state.tick(late).history);
    assert!((0..300).all(|_| !state.tick(late).history));
}

#[test]
fn a_held_capture_waits_on_macos_only() {
    let held = TickWants { snapshot_held: true, ..ALL };
    let mut state = HostState::new(Platform::Macos);
    assert!((0..200).all(|_| !state.tick(held).snapshot));
    assert!(state.tick(ALL).snapshot && !state.tick(ALL).snapshot);
    let mut linux = HostState::new(Platform::Linux);
    assert_eq!((0..200).filter(|_| linux.tick(held).snapshot).count(), 1);
}

#[test]
fn drawn_frames_are_the_clock_on_windows() {
    let mut state = HostState::new(Platform::Windows);
    let plans: Vec<_> = (1..=300).map(|frame| (frame, state.draw_tick(ALL))).collect();
    let at = |pick: fn(&welding::host::TickPlan) -> bool| -> Vec<i32> {
        plans.iter().filter(|(_, plan)| pick(plan)).map(|(frame, _)| *frame).collect()
    };
    assert_eq!(at(|plan| plan.script), vec![92]);
    assert_eq!(at(|plan| plan.snapshot), vec![91]);
    assert_eq!(at(|plan| plan.page_checks), vec![200]);
    assert_eq!(at(|plan| plan.history), vec![200]);
}

#[test]
fn a_run_ends_by_its_frames_its_popups_or_its_time() {
    let mut state = painted(Platform::Linux);
    assert!(!state.has_frames(None) && state.has_frames(Some(1)) && !state.has_frames(Some(2)));
    assert!(state.is_done(false, Some(1), None) && !state.is_done(true, Some(1), None));
    state.popup_imported();
    assert!(state.is_done(true, None, Some(1)));
    assert!(is_timed_out(5, Some(5)) && !is_timed_out(4, Some(5)) && !is_timed_out(9, None));
    assert!(run_failed(true, None) && run_failed(true, Some(false)));
    assert!(!run_failed(true, Some(true)) && !run_failed(false, None));
    let mut windows = painted(Platform::Windows);
    assert!(!windows.finish(false, Some(1), false), "nothing was drawn");
    assert!(windows.finish(true, Some(1), false));
    assert!(!windows.finish(true, Some(1), true), "a run closes once");
}

#[test]
fn a_popup_is_cut_off_at_the_view() {
    let view = PhysicalSize::new(100, 50);
    let at = |x: i32, y: i32, width: u32, height: u32| {
        popup_viewport(PopupRect { x, y, width, height }, view)
    };
    assert_eq!(at(10, 5, 20, 10), Some(Viewport { x: 10, y: 5, width: 20, height: 10 }));
    assert_eq!(at(-10, 45, 20, 10), Some(Viewport { x: 0, y: 45, width: 20, height: 5 }));
    assert_eq!(at(100, 5, 20, 10), None);
    assert_eq!(at(5, 5, 0, 10), None);
    assert_eq!(at(i32::MIN, i32::MIN, u32::MAX, u32::MAX), Some(Viewport { x: 0, y: 0, width: 100, height: 50 }));
    assert!(drops_popup(false, true) && !drops_popup(true, true) && !drops_popup(false, false));
}

#[test]
fn a_lost_surface_is_configured_again() {
    let step = |status: SurfaceStatus| {
        let step = surface_step(status);
        (step.draw, step.reconfigure, step.redraw)
    };
    assert_eq!(step(SurfaceStatus::Ready), (true, false, true));
    assert_eq!(step(SurfaceStatus::Stale), (false, true, true));
    assert_eq!(step(SurfaceStatus::Skipped), (false, false, true));
    assert_eq!(step(SurfaceStatus::Invalid), (false, false, false));
}

#[test]
fn an_srgb_format_is_preferred() {
    assert_eq!(pick_surface_format(&vec![false, true, true]), 1);
    assert_eq!(pick_surface_format(&vec![false, false]), 0);
}

#[test]
fn the_protocol_call_is_json() {
    let json = protocol_call("Page.enable");
    assert_eq!(json, "{\"id\":1,\"method\":\"Page.enable\"}");
    let value: serde_json::Value = serde_json::from_str(&json).unwrap();
    assert_eq!(value["method"].as_str(), Some("Page.enable"));
    assert_eq!(probe_cookie(Platform::Windows).value, "w5");
    assert_eq!(probe_cookie(Platform::Macos).value, "parity");
    let cookie = probe_cookie(Platform::Linux);
    assert_eq!((cookie.name.as_str(), cookie.value.as_str()), ("weld_probe", "parity"));
    assert_eq!((cookie.domain.as_str(), cookie.path.as_str()), ("example.com", "/"));
}
