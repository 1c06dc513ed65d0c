//! Unattended input.
use welding::scripted::{
    answer_auth_if_challenged, answer_permission_if_asked, finish_page_drag_if_started,
    recover_if_crashed, Gesture, ImeMode, ScriptedAction, ScriptedInput, ScriptedVars, GAP, SECOND,
    SETTLE,
};
use welding::{
    DragEventKind, DragOperations, DragPayload, KeyEventKind, MouseAction, MouseButton,
    NavigationEvent, ProcessTerminationStatus, TouchPhase,
};

fn nothing() -> ScriptedVars {
    ScriptedVars {
        click_at: None,
        wheel: None,
        key: None,
        crash_after_secs: None,
        ime: None,
        ime_mode: None,
        hide_cycle: false,
        devtools: false,
        right_click_at: None,
        touch_at: None,
        drop_file: None,
        page_drag: None,
    }
}

fn everything() -> ScriptedInput {
    ScriptedInput::from_env(ScriptedVars {
        click_at: Some("3,4".to_owned()),
        wheel: Some(" -120 ".to_owned()),
        key: Some("qx".to_owned()),
        crash_after_secs: Some("5".to_owned()),
        ime: Some("日本".to_owned()),
        ime_mode: None,
        hide_cycle: true,
        devtools: true,
        right_click_at: Some("5,6".to_owned()),
        touch_at: Some("7,8".to_owned()),
        drop_file: Some("/f".to_owned()),
        page_drag: Some("1,2,3,4".to_owned()),
    })
}

/// Runs the gesture of one stage of a fresh script.
fn stage(mut scripted: ScriptedInput, stage: u32) -> Gesture {
    scripted.ready_at = Some(0);
    scripted.stage = stage;
    scripted.tick(true, SETTLE + GAP * stage as u64).gesture.expect("the gesture is due")
}

#[test]
fn nothing_scripted_is_not_armed() {
    let mut idle = ScriptedInput::from_env(nothing());
    assert!(!idle.armed());
    let outcome = idle.tick(true, u64::MAX);
    assert!(outcome.crash.is_none() && outcome.gesture.is_none());
    assert!(ScriptedInput::from_env(ScriptedVars { devtools: true, ..nothing() }).armed());
    assert!(!ScriptedInput::from_env(ScriptedVars { ime: Some(String::new()), ..nothing() }).armed());
    assert!(!ScriptedInput::from_env(ScriptedVars { click_at: Some("x".to_owned()), ..nothing() }).armed());
}

#[test]
fn gestures_wait_for_the_page_and_for_each_other() {
    let mut s = everything();
    assert!(s.tick(false, 0).gesture.is_none());
    assert_eq!(s.ready_at, None);
    assert!(s.tick(true, SECOND).gesture.is_none());
    assert_eq!(s.ready_at, Some(SECOND));
    assert!(s.tick(true, SECOND + SETTLE - 1).gesture.is_none());
    assert!(s.tick(true, SECOND + SETTLE).gesture.is_some());
    assert!(s.tick(true, SECOND + SETTLE).gesture.is_none(), "one gesture per gap");
    assert!(s.tick(true, SECOND + SETTLE + GAP).gesture.is_some());
    assert_eq!(s.stage, 2);
}

#[test]
fn the_crash_keeps_its_own_schedule_and_happens_once() {
    let mut s = ScriptedInput::from_env(ScriptedVars {
        crash_after_secs: Some("1".to_owned()),
        ..nothing()
    });
    assert!(s.tick(true, 0).crash.is_none());
    assert!(s.tick(true, SECOND - 1).crash.is_none());
    assert!(matches!(
        s.tick(true, SECOND).crash,
        Some(ScriptedAction::NavigateToUrl(url)) if url == "chrome://crash"
    ));
    assert!(s.tick(true, 9 * SECOND).crash.is_none());
}

#[test]
fn a_touch_starts_and_ends() {
    let gesture = stage(everything(), 0);
    assert!(!gesture.stops_on_error);
    assert!(matches!(
        gesture.actions[..],
        [
            ScriptedAction::Touch { x: 7, y: 8, phase: TouchPhase::Started },
            ScriptedAction::Touch { x: 7, y: 8, phase: TouchPhase::Ended },
        ]
    ));
}

#[test]
fn a_dropped_file_is_carried_in_once() {
    for (n, wanted) in
        [(1, DragEventKind::Enter), (2, DragEventKind::Over), (3, DragEventKind::Drop)]
    {
        let gesture = stage(everything(), n);
        let [ScriptedAction::Drag(input)] = &gesture.actions[..] else { panic!("not one drag") };
        assert_eq!(input.kind, wanted);
        assert_eq!((input.x, input.y), (7, 8));
        assert_eq!(input.allowed_operations, DragOperations(DragOperations::COPY));
        assert_eq!(input.payload.is_some(), wanted == DragEventKind::Enter);
        if let Some(payload) = &input.payload {
            assert_eq!(payload.files[0].path, "/f");
        }
    }
    let mut untouched = everything();
    untouched.touch_at = None;
    let gesture = stage(untouched, 3);
    assert!(matches!(&gesture.actions[..], [ScriptedAction::Drag(input)] if (input.x, input.y) == (10, 10)));
}

fn mouse(gesture: &Gesture) -> Vec<(i32, i32, MouseButton, MouseAction, bool)> {
    gesture
        .actions
        .iter()
        .filter_map(|action| match action {
            ScriptedAction::Mouse(e) => {
                Some((e.x, e.y, e.button, e.action, e.modifiers.left_mouse_button))
            }
            _ => None,
        })
        .collect()
}

#[test]
fn a_page_drag_holds_the_button() {
    let gesture = stage(everything(), 4);
    assert!(gesture.stops_on_error);
    let left = MouseButton::Left;
    assert_eq!(
        mouse(&gesture),
        vec![
            (1, 2, left, MouseAction::Moved, false),
            (1, 2, left, MouseAction::Pressed, true),
            (3, 4, left, MouseAction::Moved, true),
        ]
    );
    let mut still = everything();
    still.page_drag = Some((1, 2, 1, 2));
    assert_eq!(mouse(&stage(still, 4))[0], (1, 2, left, MouseAction::Moved, true));
}

#[test]
fn clicks_and_the_wheel_go_where_they_are_scripted() {
    let click = stage(everything(), 5);
    assert!(matches!(click.actions[0], ScriptedAction::MoveFocus));
    assert_eq!(
        mouse(&click).iter().map(|e| (e.0, e.1, e.3)).collect::<Vec<_>>(),
        vec![
            (3, 4, MouseAction::Moved),
            (3, 4, MouseAction::Pressed),
            (3, 4, MouseAction::Released),
        ]
    );
    assert_eq!(
        mouse(&stage(everything(), 6)),
        vec![(3, 4, MouseButton::Left, MouseAction::WheelScrolled { delta_x: 0, delta_y: -120 }, false)]
    );
    let right = mouse(&stage(everything(), 12));
    assert_eq!(right.len(), 3);
    assert!(right.iter().all(|e| (e.0, e.1, e.2) == (5, 6, MouseButton::Right)));
}

#[test]
fn a_key_is_pressed_typed_and_released() {
    let gesture = stage(everything(), 7);
    let keys: Vec<_> = gesture
        .actions
        .iter()
        .map(|action| match action {
            ScriptedAction::Key(k) => (k.kind, k.windows_key_code, k.character),
            other => panic!("unexpected action: {other:?}"),
        })
        .collect();
    assert_eq!(
        keys,
        vec![
            (KeyEventKind::RawKeyDown, 'Q' as i32, Some('q')),
            (KeyEventKind::Char, 'Q' as i32, Some('q')),
            (KeyEventKind::KeyUp, 'Q' as i32, Some('q')),
        ]
    );
}

#[test]
fn composing_follows_its_mode() {
    let run = |mode: &str| {
        let mut s = everything();
        s.ime_mode = ScriptedInput::from_env(ScriptedVars {
            ime_mode: Some(mode.to_owned()),
            ..nothing()
        })
        .ime_mode;
        stage(s, 8).actions
    };
    let composed = |action: &ScriptedAction| {
        matches!(action, ScriptedAction::ImeSetComposition { text, selection: (2, 2) } if text == "日本")
    };
    let committed =
        |action: &ScriptedAction| matches!(action, ScriptedAction::ImeCommitText(text) if text == "日本");
    let both = run("both");
    assert!(both.len() == 2 && composed(&both[0]) && committed(&both[1]));
    let commit = run("commit");
    assert!(commit.len() == 1 && committed(&commit[0]));
    let compose = run("compose");
    assert!(compose.len() == 1 && composed(&compose[0]));
    let finish = run("finish");
    assert!(matches!(finish[1], ScriptedAction::ImeFinishComposing { keep_selection: false }));
    assert_eq!(everything().ime_mode, ImeMode::Both);
}

#[test]
fn the_view_is_hidden_and_shown_again() {
    assert!(matches!(stage(everything(), 9).actions[..], [ScriptedAction::SetVisible(false)]));
    assert!(matches!(stage(everything(), 10).actions[..], [ScriptedAction::SetVisible(true)]));
    assert!(matches!(stage(everything(), 11).actions[..], [ScriptedAction::OpenDevTools]));
    assert!(stage(everything(), 13).actions.is_empty());
}

fn terminated(status: ProcessTerminationStatus) -> NavigationEvent {
    NavigationEvent::ContentProcessTerminated {
        status,
        error_code: 0,
        error_string: String::new(),
    }
}

#[test]
fn a_crash_is_recovered_from_unless_memory_ran_out() {
    let recover = |event: &NavigationEvent, enabled: bool| {
        recover_if_crashed("https://start/", event, enabled)
    };
    let crashed = terminated(ProcessTerminationStatus::Crashed);
    let recovery = recover(&crashed, true);
    assert!(matches!(
        &recovery.actions[..],
        [ScriptedAction::NavigateToUrl(url), ScriptedAction::RequestRepaint]
            if url == "https://start/"
    ));
    assert!(recovery.goes_on(true), "the repaint does not hang on the page");
    assert!(recover(&crashed, false).actions.is_empty());
    assert!(recover(&terminated(ProcessTerminationStatus::OutOfMemory), true).actions.is_empty());
    assert!(recover(&NavigationEvent::LoadStart { url: String::new() }, true).actions.is_empty());
}

#[test]
fn a_gesture_stops_where_it_says() {
    let drag = stage(everything(), 4);
    assert!(drag.goes_on(false) && !drag.goes_on(true));
    let late = &mut everything();
    late.tick(true, 0);
    let at = SETTLE + 2 * GAP;
    assert!(late.tick(true, at).gesture.is_some());
    assert!(late.tick(true, at + 1).gesture.is_some(), "a late host catches up");
}

#[test]
fn questions_are_answered_from_the_environment() {
    let asked = NavigationEvent::PermissionRequested {
        id: 3,
        origin: String::new(),
        permissions: vec![],
        raw: 0,
    };
    assert_eq!(answer_permission_if_asked(&asked, Some("grant")), Some((3, true)));
    assert_eq!(answer_permission_if_asked(&asked, Some("Grant")), Some((3, false)));
    assert_eq!(answer_permission_if_asked(&asked, None), None);
    let challenged = NavigationEvent::AuthChallenged {
        id: 8,
        origin_url: String::new(),
        host: String::new(),
        port: 1,
        realm: String::new(),
        scheme: String::new(),
        is_proxy: false,
    };
    assert_eq!(
        answer_auth_if_challenged(&challenged, Some("u:p")),
        Some((8, "u".to_owned(), "p".to_owned()))
    );
    assert_eq!(answer_auth_if_challenged(&challenged, None), None);
    assert_eq!(answer_auth_if_challenged(&asked, Some("u:p")), None);
    let dragged = NavigationEvent::DragStarted {
        payload: DragPayload::default(),
        allowed_operations: DragOperations(3),
        x: 4,
        y: 5,
    };
    assert_eq!(
        finish_page_drag_if_started(&dragged, true),
        Some((4, 5, DragOperations(DragOperations::COPY)))
    );
    assert_eq!(finish_page_drag_if_started(&dragged, false), None);
}
