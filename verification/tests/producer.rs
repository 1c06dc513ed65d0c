//! Producers: what they ask of their browser and what its reports come to.
use welding::capabilities::CefSurfaceMode;
use welding::commands::{BrowserCommand, BrowserLink, TextRange};
use welding::cookies::CookieManagerPath;
use welding::drag::{DragCommand, OfferedDrag};
use welding::error::WeldError;
use welding::handlers::{painted_planes, MenuParams, MessageArguments, WEB_MESSAGE};
use welding::input::PointerInput;
use welding::linux_cef::{LinuxCefConfig, LinuxCefProducer};
use welding::macos_cef::{MacosCefConfig, MacosCefProducer};
use welding::native_frame::{CpuBitmap, NativeFrame, TextureFormat};
use welding::page::ScriptMessagePath;
use welding::scripts::EVAL_RESULT;
use welding::setup::BrowserSetup;
use welding::windows_cef::{WindowsCefConfig, WindowsCefProducer};
use welding::{
    CefSurfaceConfig, CefSurfaceEvent, ContextMenuTarget, CursorShape, DragEventKind, DragFile,
    DragInput, DragOperations, DragPayload, EventModifiers, ImportError, InteropBackend, KeyEvent,
    KeyEventKind, MouseAction, MouseButton, MouseEvent, NativeFrameKind, NavigationEvent, PhysicalSize, Platform, PopupRect,
    ProcessTerminationStatus, WebRequestId, ZoomCommand,
};

type Linux = LinuxCefProducer<u8, u8, u8, u8>;
type Macos = MacosCefProducer<u8, u8, u8, u8>;
type Windows = WindowsCefProducer<u8, u8, u8, u8>;

const UP: BrowserLink = BrowserLink { browser: true, host: true, main_frame: true };
const DOWN: BrowserLink = BrowserLink { browser: false, host: false, main_frame: false };

fn linux() -> Linux {
    let config = LinuxCefConfig {
        surface: CefSurfaceConfig { devtools_protocol: true, ..CefSurfaceConfig::default() },
    };
    let (mut producer, _) = Linux::new(config, &None).unwrap();
    producer.browser_created(Some(7)).unwrap();
    producer
}

fn reason<T: std::fmt::Debug>(outcome: Result<T, WeldError>) -> String {
    outcome.unwrap_err().message()
}

fn frame(generation: u64) -> NativeFrame<u8> {
    NativeFrame::CpuBitmap(CpuBitmap {
        data: vec![],
        size: PhysicalSize::new(1, 1),
        format: TextureFormat::Bgra8Unorm,
        generation,
    })
}

#[test]
fn a_producer_starts_as_configured() {
    let config = LinuxCefConfig {
        surface: CefSurfaceConfig {
            initial_url: "https://a/".to_owned(),
            user_data_dir: Some("/cache/p".to_owned()),
            handle_auth_challenges: true,
            ..CefSurfaceConfig::default()
        },
    };
    let (producer, setup) = Linux::new(config, &Some("/cache".to_owned())).unwrap();
    assert_eq!(setup.url, "https://a/");
    assert_eq!(setup.windowless_frame_rate, 60);
    assert_eq!(setup.background_color, 0xFFFF_FFFF);
    assert!(setup.windowless_rendering_enabled && setup.shared_texture_enabled);
    assert!(!setup.external_begin_frame_enabled);
    assert_eq!(setup.profile.cache_path.as_deref(), Some("/cache/p"));
    assert!(producer.page.auth.is_enabled() && !producer.page.permissions.is_enabled());
    assert_eq!(producer.surface_mode(), CefSurfaceMode::AcceleratedPaint);
}

#[test]
fn a_profile_outside_the_cache_makes_no_producer() {
    let config = LinuxCefConfig {
        surface: CefSurfaceConfig {
            user_data_dir: Some("/elsewhere".to_owned()),
            ..CefSurfaceConfig::default()
        },
    };
    assert_eq!(
        reason(Linux::new(config, &Some("/cache".to_owned())).map(|_| ())),
        "CEF surface creation failed: CefSurfaceConfig::user_data_dir (/elsewhere) must be inside CefRuntimeConfig::cache_path (/cache)"
    );
    let (mut producer, _) = Linux::new(LinuxCefConfig::default(), &None).unwrap();
    assert_eq!(
        reason(producer.browser_created(None)),
        "CEF surface creation failed: browser_host_create_browser_sync returned None"
    );
}

#[test]
fn frames_and_popups_have_slots_of_their_own() {
    let mut p = linux();
    assert!(p.acquire_native_frame().is_none());
    let first = p.next_paint_generation(false);
    p.on_accelerated_paint(false, frame(first));
    let second = p.next_paint_generation(false);
    p.on_accelerated_paint(false, frame(second));
    p.on_accelerated_paint(true, frame(9));
    assert!(p.acquire_popup().is_none(), "a hidden popup is not handed out");
    p.page.on_popup_size(1, 2, 3, 4);
    p.on_popup_show(true);
    assert_eq!(p.popup_rect(), Some(PopupRect { x: 1, y: 2, width: 3, height: 4 }));
    assert_eq!(p.acquire_popup().map(|(frame, _)| frame.generation()), Some(9));
    assert!(p.acquire_popup().is_none());
    assert_eq!(p.acquire_native_frame().map(|frame| frame.generation()), Some(second));
    p.on_accelerated_paint(true, frame(10));
    p.on_popup_show(false);
    p.on_popup_show(true);
    assert!(p.acquire_popup().is_none(), "hiding drops the stale frame");
    assert_eq!(painted_planes(0, 4), None);
    assert_eq!(painted_planes(-1, 4), None);
    assert_eq!(painted_planes(5, 4), None);
    assert_eq!(painted_planes(4, 4), Some(4));
}

#[test]
fn a_missing_browser_is_reported_as_such() {
    assert_eq!(
        reason(DOWN.navigate_to_url("u".to_owned())),
        "CEF browser operation failed: cef_frame_t::load_url: requires `cef-runtime` feature or pending wiring"
    );
    assert!(reason(DOWN.navigate_to_string("u".to_owned())).contains("cef_frame_t::load_string:"));
    assert!(reason(DOWN.reload()).contains("cef_browser_t::reload:"));
    assert!(reason(DOWN.stop()).contains("cef_browser_t::stop_load:"));
    assert!(reason(DOWN.go_back()).contains("cef_browser_t::go_back:"));
    assert!(reason(DOWN.go_forward()).contains("cef_browser_t::go_forward:"));
    assert!(reason(DOWN.request_repaint()).contains("cef_browser_host_t::invalidate:"));
    assert_eq!(
        reason(DOWN.set_visible(true)),
        "not supported on this platform: visibility requires the cef-runtime feature"
    );
    assert!(reason(DOWN.print(Platform::Linux)).contains("embedder-owned print handler"));
    assert!(reason(UP.open_devtools(Platform::Macos)).contains("DevTools crashes CEF 148"));
    assert!(reason(DOWN.send_drag_input(enter(None), true, Platform::Linux)).contains("drag target input:"));
}

#[test]
fn verbs_become_commands() {
    let one = |commands: Result<Vec<BrowserCommand>, WeldError>| {
        let mut commands = commands.unwrap();
        assert_eq!(commands.len(), 1);
        commands.remove(0)
    };
    assert!(matches!(one(UP.navigate_to_url("u".into())), BrowserCommand::LoadUrl(u) if u == "u"));
    assert!(matches!(one(UP.set_visible(true)), BrowserCommand::WasHidden(false)));
    assert!(matches!(one(UP.zoom(ZoomCommand::In)), BrowserCommand::Zoom(ZoomCommand::In)));
    assert!(matches!(one(UP.move_focus()), BrowserCommand::SetFocus));
    assert!(matches!(one(UP.print(Platform::Windows)), BrowserCommand::Print));
    assert!(matches!(one(UP.open_devtools(Platform::Linux)), BrowserCommand::ShowDevTools));
    assert!(matches!(
        one(UP.find("t".into(), true, false, true)),
        BrowserCommand::Find { forward: true, match_case: false, find_next: true, .. }
    ));
    assert!(matches!(
        one(UP.ime_set_composition("t".into(), (1, 2))),
        BrowserCommand::ImeSetComposition {
            replacement: TextRange { from: u32::MAX, to: u32::MAX },
            selection: TextRange { from: 1, to: 2 },
            ..
        }
    ));
    assert!(matches!(
        one(UP.post_web_message("x")),
        BrowserCommand::ExecuteJavaScript { code, url }
            if url == "weld://post_web_message" && code.contains("{data:\"x\",")
    ));
    assert!(matches!(
        UP.request_repaint().unwrap()[..],
        [BrowserCommand::WasResized, BrowserCommand::Invalidate]
    ));
    assert_eq!(UP.scale_factor_changed().len(), 3);
    assert!(DOWN.scale_factor_changed().is_empty());
    assert!(matches!(
        UP.finish_drag_source(1, 2, DragOperations(1)).unwrap()[..],
        [BrowserCommand::DragSourceEnded { x: 1, y: 2, .. }, BrowserCommand::DragSourceSystemDragEnded]
    ));
}

#[test]
fn input_is_translated() {
    let event = MouseEvent {
        x: 3,
        y: 4,
        button: MouseButton::Middle,
        action: MouseAction::Released,
        modifiers: EventModifiers { ctrl: true, ..EventModifiers::default() },
    };
    match &UP.send_mouse_input(event).unwrap()[..] {
        [BrowserCommand::Pointer(PointerInput::Click { at, button, up, count })] => {
            assert_eq!((at.x, at.y, at.modifiers), (3, 4, 4));
            assert_eq!((*button, *up, *count), (MouseButton::Middle, true, 1));
        }
        other => panic!("unexpected commands: {other:?}"),
    }
    let key = KeyEvent {
        kind: KeyEventKind::Char,
        windows_key_code: 65,
        native_key_code: 0,
        character: Some('\u{1F600}'),
        modifiers: EventModifiers::default(),
    };
    match &UP.send_keyboard_input(key).unwrap()[..] {
        [BrowserCommand::Key(input)] => {
            assert_eq!(input.character, 0xF600);
            assert_eq!(input.unmodified_character, 0xF600);
        }
        other => panic!("unexpected commands: {other:?}"),
    }
}

fn enter(payload: Option<DragPayload>) -> DragInput {
    DragInput {
        kind: DragEventKind::Enter,
        payload,
        x: 1,
        y: 2,
        modifiers: EventModifiers::default(),
        allowed_operations: DragOperations(17),
    }
}

fn files(paths: &[(&str, Option<&str>)]) -> DragPayload {
    DragPayload {
        files: paths
            .iter()
            .map(|(path, name)| DragFile {
                path: path.to_string(),
                display_name: name.map(str::to_owned),
            })
            .collect(),
        link_url: Some("https://l/".to_owned()),
        ..DragPayload::default()
    }
}

#[test]
fn an_entering_drag_carries_named_files() {
    let payload = files(&[
        ("/a/b.txt", None),
        ("/a/b.txt", Some("shown")),
        ("/a/./c//", None),
        ("/", None),
        ("/a/..", None),
    ]);
    match UP.send_drag_input(enter(Some(payload)), true, Platform::Linux) {
        Ok(DragCommand::Enter { contents, at, allowed }) => {
            let names: Vec<_> = contents.files.iter().map(|f| f.display_name.as_str()).collect();
            assert_eq!(names, vec!["b.txt", "shown", "c", "/", "/a/.."]);
            assert_eq!(contents.link_url.as_deref(), Some("https://l/"));
            assert_eq!((at.x, at.y, allowed), (1, 2, DragOperations(17)));
        }
        other => panic!("unexpected command: {other:?}"),
    }
    assert!(reason(UP.send_drag_input(enter(None), true, Platform::Linux)).ends_with("requires a DragPayload"));
    assert!(reason(UP.send_drag_input(enter(Some(files(&[("/a", None), ("b/c", None)]))), true, Platform::Linux))
        .ends_with("dragged file path must be absolute: b/c"));
    assert!(reason(UP.send_drag_input(enter(Some(files(&[("b", None)]))), false, Platform::Linux))
        .ends_with("cef_drag_data_create returned None"));
    let over = DragInput { kind: DragEventKind::Over, ..enter(None) };
    assert!(matches!(UP.send_drag_input(over, false, Platform::Linux), Ok(DragCommand::Over { .. })));
    let leave = DragInput { kind: DragEventKind::Leave, ..enter(None) };
    assert!(matches!(UP.send_drag_input(leave, false, Platform::Linux), Ok(DragCommand::Leave)));
}

#[test]
fn a_script_request_is_accepted_sent_and_answered() {
    let mut p = linux();
    let id = WebRequestId::new(4_294_967_296);
    assert!(reason(p.page.request_script_result(ScriptMessagePath::NoFrame, id, "s".into()))
        .ends_with("browser has no main frame yet"));
    assert!(reason(p.page.request_script_result(ScriptMessagePath::NoMessage, id, "s".into()))
        .ends_with("could not create a process message"));
    assert!(reason(p.page.request_script_result(ScriptMessagePath::NoArguments, id, "s".into()))
        .ends_with("process message has no argument list"));
    match p.page.request_script_result(ScriptMessagePath::Complete, id, "2+2".into()) {
        Ok(BrowserCommand::SendEvalRequest { id, script }) => {
            assert_eq!((id.as_str(), script.as_str()), ("4294967296", "2+2"));
        }
        other => panic!("unexpected outcome: {other:?}"),
    }
    assert!(reason(p.page.request_script_result(ScriptMessagePath::Complete, id, "s".into()))
        .ends_with("already in flight"));
    p.page.script_sent(id, true).unwrap();
    let answer = |first: &str, second: i32| {
        Some(MessageArguments { first: first.into(), second, third: "4".into() })
    };
    assert!(!p.page.on_process_message_received(false, EVAL_RESULT, answer("4294967296", 1)));
    assert!(p.page.on_process_message_received(true, EVAL_RESULT, answer("x", 1)));
    assert!(p.page.poll_web_event().is_none());
    assert!(p.page.on_process_message_received(true, EVAL_RESULT, answer("4294967296", 1)));
    assert!(matches!(
        p.page.poll_web_event(),
        Some(CefSurfaceEvent::ScriptCompleted { id: seen, result: Ok(value) })
            if seen == id && value == "4"
    ));
    p.page.request_script_result(ScriptMessagePath::Complete, id, "s".into()).unwrap();
    assert!(reason(p.page.script_sent(id, false)).ends_with("CEF rejected the script process message"));
    p.page.request_script_result(ScriptMessagePath::Complete, id, "s".into()).unwrap();
}

#[test]
fn a_page_can_talk_to_its_host() {
    let mut p = linux();
    let said = Some(MessageArguments { first: "hello".into(), second: 0, third: String::new() });
    assert!(p.page.on_process_message_received(true, WEB_MESSAGE, said));
    assert!(matches!(p.page.poll_web_event(), Some(CefSurfaceEvent::WebMessage(text)) if text == "hello"));
    assert!(p.page.on_process_message_received(true, WEB_MESSAGE, None));
    assert!(!p.page.on_process_message_received(true, "other", None));
    assert!(p.page.poll_web_event().is_none());
}

#[test]
fn a_lost_renderer_is_reported_and_settles_scripts() {
    let mut p = linux();
    p.page.scripts.begin(WebRequestId::new(8)).unwrap();
    p.page.scripts.begin(WebRequestId::new(3)).unwrap();
    p.page.on_render_process_terminated(3, -5, "oom".to_owned());
    assert!(matches!(
        p.page.poll_web_event(),
        Some(CefSurfaceEvent::Navigation(NavigationEvent::ContentProcessTerminated {
            status: ProcessTerminationStatus::OutOfMemory,
            error_code: -5,
            ..
        }))
    ));
    for expected in [8, 3] {
        assert!(matches!(
            p.page.poll_web_event(),
            Some(CefSurfaceEvent::ScriptCompleted { id, result: Err(_) }) if id.get() == expected
        ));
    }
    assert!(p.page.poll_web_event().is_none());
}

#[test]
fn closing_settles_what_is_in_flight() {
    let mut p = linux();
    p.page.scripts.begin(WebRequestId::new(1)).unwrap();
    let _guard = p.page.request_cookies(CookieManagerPath::Complete, WebRequestId::new(2)).unwrap();
    assert!(reason(p.page.request_cookies(CookieManagerPath::NoHost, WebRequestId::new(3)))
        .ends_with("browser has no CEF host for its cookie context"));
    assert!(matches!(p.close(UP)[..], [BrowserCommand::CloseBrowser { force: true }]));
    assert_eq!(p.browser_id(), 0);
    assert!(matches!(
        p.page.poll_web_event(),
        Some(CefSurfaceEvent::ScriptCompleted { result: Err(reason), .. }) if reason == "browser closed"
    ));
    assert!(matches!(
        p.page.poll_web_event(),
        Some(CefSurfaceEvent::CookiesCompleted { result: Err(reason), .. }) if reason == "browser closed"
    ));
    p.page.on_before_close();
    assert!(p.page.poll_web_event().is_none());
    assert!(p.close(DOWN).is_empty());
}

#[test]
fn the_protocol_is_observed_once() {
    let mut p = linux();
    assert!(reason(p.page.send_devtools_message(DOWN, "{}".into())).ends_with("the browser is not ready yet"));
    assert!(matches!(
        &p.page.send_devtools_message(UP, "{}".into()).unwrap()[..],
        [BrowserCommand::AddDevToolsObserver, BrowserCommand::SendDevToolsMessage(json)] if json == "{}"
    ));
    assert!(matches!(p.page.poll_devtools_message(UP).1[..], [BrowserCommand::AddDevToolsObserver]));
    p.page.observer_added(true);
    assert_eq!(p.page.send_devtools_message(UP, "{}".into()).unwrap().len(), 1);
    p.page.devtools.on_message(Some(b"m"));
    let (message, commands) = p.page.poll_devtools_message(UP);
    assert_eq!(message.as_deref(), Some("m"));
    assert!(commands.is_empty());
    assert_eq!(p.page.devtools_dropped(), 0);
    let (off, _) = Linux::new(LinuxCefConfig::default(), &None).unwrap();
    assert!(reason(off.page.send_devtools_message(UP, "{}".into()))
        .ends_with("set CefSurfaceConfig::devtools_protocol to use the DevTools protocol"));
}

#[test]
fn captures_have_ids_of_their_own() {
    let mut p = linux();
    assert!(reason(p.page.request_snapshot_png(DOWN).1).ends_with("the browser is not ready yet"));
    let (commands, id) = p.page.request_snapshot_png(UP);
    assert_eq!(id.unwrap().cef_message_id(), 1);
    assert!(matches!(
        commands[..],
        [BrowserCommand::AddDevToolsObserver, BrowserCommand::CaptureScreenshot { message_id: 1 }]
    ));
    p.page.observer_added(true);
    p.page.next_snapshot_id = i32::MAX;
    let (commands, id) = p.page.request_snapshot_png(UP);
    assert_eq!(id.unwrap().cef_message_id(), i32::MAX);
    assert_eq!(commands.len(), 1);
    let (commands, refused) = p.page.request_snapshot_png(UP);
    assert!(commands.is_empty());
    assert!(reason(refused).ends_with("snapshot request id 1 is already pending"));
    assert_eq!(p.page.next_snapshot_id, 2);
    p.page.snapshots.complete(1, true, Some(br#"{"data":"iVBORw0KGgo="}"#));
    assert_eq!(p.page.poll_snapshot_png().unwrap().id.cef_message_id(), 1);
    assert!(p.page.poll_snapshot_png().is_none());
}

#[test]
fn only_the_main_frame_is_reported() {
    let mut p = linux();
    p.page.on_load_start(false, "sub".to_owned());
    p.page.on_load_end(false, "sub".to_owned(), 200);
    p.page.on_load_error(false, "sub".to_owned(), -3, "e".to_owned());
    p.page.on_address_change(false, "sub".to_owned());
    assert!(p.page.poll_web_event().is_none());
    p.page.on_load_start(true, "main".to_owned());
    p.page.on_load_end(true, "main".to_owned(), 404);
    p.page.on_load_error(true, "main".to_owned(), -3, "e".to_owned());
    p.page.on_address_change(true, "main".to_owned());
    p.page.on_title_change("t".to_owned());
    let mut next = || match p.page.poll_web_event() {
        Some(CefSurfaceEvent::Navigation(event)) => event,
        other => panic!("unexpected event: {other:?}"),
    };
    assert!(matches!(next(), NavigationEvent::LoadStart { url } if url == "main"));
    assert!(matches!(next(), NavigationEvent::LoadEnd { http_status: 404, .. }));
    assert!(matches!(next(), NavigationEvent::LoadError { error_code: -3, .. }));
    assert!(matches!(next(), NavigationEvent::AddressChanged { .. }));
    assert!(matches!(next(), NavigationEvent::TitleChanged { title } if title == "t"));
}

#[test]
fn the_rest_of_the_page_is_reported_too() {
    let mut p = linux();
    assert!(p.page.on_before_popup("w".to_owned(), true), "a second browser is denied");
    p.page.on_find_result(3, 1, true);
    p.page.on_pdf_print_finished("/p.pdf".to_owned(), false);
    p.page.on_console_message(2, "m".to_owned(), "s".to_owned(), 9);
    p.page.on_before_context_menu(MenuParams {
        x: 5,
        y: 6,
        flags: 1 | 4,
        link_url: "l".to_owned(),
        source_url: String::new(),
        page_url: "p".to_owned(),
        selection_text: String::new(),
    });
    assert!(p.page.start_dragging(
        OfferedDrag {
            is_file: true,
            paths: vec![Some("/a".to_owned()), None],
            is_link: false,
            link_url: "ignored".to_owned(),
            link_title: String::new(),
            is_fragment: true,
            fragment_text: "text".to_owned(),
            fragment_html: String::new(),
            fragment_base_url: String::new(),
        },
        64,
        7,
        8,
    ));
    let mut next = || match p.page.poll_web_event() {
        Some(CefSurfaceEvent::Navigation(event)) => event,
        other => panic!("unexpected event: {other:?}"),
    };
    assert!(matches!(next(), NavigationEvent::NewWindowRequested { user_gesture: true, .. }));
    assert!(matches!(
        next(),
        NavigationEvent::FindResult { count: 3, active_match: 1, final_update: true }
    ));
    assert!(matches!(next(), NavigationEvent::PdfPrintFinished { ok: false, .. }));
    assert!(matches!(next(), NavigationEvent::ConsoleMessage { level: 2, line: 9, .. }));
    assert!(matches!(
        next(),
        NavigationEvent::ContextMenuRequested { x: 5, y: 6, targets, .. }
            if targets == vec![ContextMenuTarget::Page, ContextMenuTarget::Link]
    ));
    match next() {
        NavigationEvent::DragStarted { payload, allowed_operations, x: 7, y: 8 } => {
            assert_eq!(payload.files.len(), 1);
            assert_eq!(payload.link_url, None);
            assert_eq!(payload.fragment_text.as_deref(), Some("text"));
            assert_eq!(payload.fragment_html, None);
            assert_eq!(allowed_operations, DragOperations(64));
        }
        other => panic!("unexpected event: {other:?}"),
    }
    p.page.on_cursor_change(2);
    assert_eq!(p.page.poll_cursor_shape(), Some(CursorShape::Pointer));
    let bounds = PopupRect { x: 1, y: 2, width: 3, height: 4 };
    p.page.on_ime_composition_range_changed(bounds, None);
    let composition = p.page.poll_ime_composition().unwrap();
    assert_eq!((composition.bounds, composition.selection_end), (bounds, 0));
    p.page.on_ime_composition_range_changed(bounds, Some((1, 2)));
    assert_eq!(p.page.poll_ime_composition().unwrap().selection_end, 2);
}

#[test]
fn a_new_size_is_announced() {
    let mut p = linux();
    assert!(matches!(p.resize(UP, PhysicalSize::new(3, 4))[..], [BrowserCommand::WasResized]));
    assert_eq!(p.size, PhysicalSize::new(3, 4));
    assert!(p.resize(DOWN, PhysicalSize::new(5, 6)).is_empty());
}

#[test]
fn a_windows_browser_may_be_closed_before_it_arrives() {
    let (mut p, _) =
        Windows::new(WindowsCefConfig::default(), InteropBackend::Dx12, &None)
            .unwrap();
    assert!(p.creation_answered(true).is_ok());
    assert!(reason(p.creation_answered(false))
        .ends_with("browser_host_create_browser returned false"));
    assert!(p.close(DOWN).is_empty());
    assert!(!p.is_closed());
    assert!(matches!(p.on_after_created(4)[..], [BrowserCommand::CloseBrowser { force: true }]));
    assert_eq!(p.browser_id(), 4);
    p.on_before_close();
    assert!(p.is_closed());
    assert_eq!(p.browser_id(), 0);
    let (mut kept, _) =
        Windows::new(WindowsCefConfig::default(), InteropBackend::Dx12, &None)
            .unwrap();
    assert!(kept.on_after_created(5).is_empty());
    assert_eq!(kept.resize(UP, PhysicalSize::new(1, 1)).len(), 2);
    assert_eq!((kept.next_generation(), kept.next_generation()), (1, 2));
    kept.on_accelerated_paint(false, 1);
    kept.on_accelerated_paint(true, 2);
    kept.on_accelerated_paint(false, 3);
    assert_eq!((kept.acquire_frame(), kept.acquire_frame(), kept.popup_frame), (Some(3), None, Some(2)));
}

#[test]
fn a_macos_browser_exists_from_the_start() {
    let (mut p, _) = Macos::new(MacosCefConfig::default(), &None).unwrap();
    assert!(reason(p.browser_created(None))
        .ends_with("browser_host_create_browser_sync returned None"));
    p.browser_created(Some(3)).unwrap();
    assert_eq!(p.browser_id(), 3);
    assert!(p.acquire_native_frame().is_none() && p.page.poll_web_event().is_none());
    assert!(matches!(p.resize(UP, PhysicalSize::new(1, 1))[..], [BrowserCommand::WasResized]));
    assert!(matches!(p.close(UP)[..], [BrowserCommand::CloseBrowser { force: true }]));
    assert_eq!(p.browser_id(), 0);
}

#[test]
fn every_browser_is_created_off_screen_with_a_profile_of_its_own() {
    let surface = |dir: &str| CefSurfaceConfig {
        initial_url: "https://a/".to_owned(),
        background_color: Some([1, 2, 3]),
        user_data_dir: Some(dir.to_owned()),
        ..CefSurfaceConfig::default()
    };
    let check = |setup: BrowserSetup, dir: &str| {
        assert!(setup.windowless_rendering_enabled && setup.shared_texture_enabled);
        assert!(!setup.external_begin_frame_enabled);
        assert_eq!((setup.windowless_frame_rate, setup.background_color), (60, 0xff01_0203));
        assert_eq!(setup.url, "https://a/");
        assert_eq!(setup.profile.cache_path.as_deref(), Some(dir));
        assert!(setup.profile.persist_session_cookies);
    };
    let cache = Some("/c".to_owned());
    let macos = |dir: &str| {
        Macos::new(MacosCefConfig { surface: surface(dir) }, &cache)
    };
    check(macos("/c/p").unwrap().1, "/c/p");
    assert!(macos("/c/../p").is_err());
    let drive = Some("C:\\c".to_owned());
    let windows = |dir: &str, backend: InteropBackend| {
        Windows::new(WindowsCefConfig { surface: surface(dir) }, backend, &drive)
    };
    check(windows("c:/c/p", InteropBackend::Dx12).unwrap().1, "c:/c/p");
    assert!(matches!(windows("p", InteropBackend::Dx12), Err(WeldError::SurfaceCreation(_))));
    assert!(matches!(
        windows("p", InteropBackend::Vulkan),
        Err(WeldError::Import(ImportError::BackendMismatch {
            frame: NativeFrameKind::Dx12SharedTexture,
            wgpu: InteropBackend::Vulkan,
        }))
    ));
}

#[test]
fn a_hidden_popup_loses_its_frame_on_every_platform() {
    let shown = PopupRect { x: 1, y: 2, width: 3, height: 4 };
    let (mut w, _) =
        Windows::new(WindowsCefConfig::default(), InteropBackend::Dx12, &None).unwrap();
    w.page.on_popup_size(1, 2, 3, -4);
    w.on_popup_show(true);
    w.on_accelerated_paint(true, 7);
    assert_eq!((w.popup_rect(), w.acquire_popup()), (None, None), "it has no size yet");
    w.page.on_popup_size(1, 2, 3, 4);
    assert_eq!(w.popup_rect(), Some(shown));
    assert_eq!((w.acquire_popup(), w.acquire_popup()), (Some((7, shown)), None));
    w.on_accelerated_paint(true, 8);
    w.on_popup_show(false);
    assert_eq!((w.popup_frame, w.popup_rect()), (None, None));
    w.on_popup_show(true);
    assert_eq!(w.acquire_popup(), None, "a popup that is gone is not handed out");

    let (mut m, _) = Macos::new(MacosCefConfig::default(), &None).unwrap();
    m.page.on_popup_size(1, 2, 3, 4);
    m.on_popup_show(true);
    let generation = m.next_paint_generation(true);
    m.on_accelerated_paint(true, frame(generation));
    assert!(matches!(m.acquire_popup(), Some((f, rect)) if f.generation() == 1 && rect == shown));
    m.on_accelerated_paint(true, frame(9));
    m.on_popup_show(false);
    m.on_popup_show(true);
    assert!(m.acquire_popup().is_none() && m.popup_rect() == Some(shown));
}

#[test]
fn pages_are_heard_on_every_platform() {
    let (mut w, _) =
        Windows::new(WindowsCefConfig::default(), InteropBackend::Dx12, &None).unwrap();
    let (mut m, _) = Macos::new(MacosCefConfig::default(), &None).unwrap();
    for page in [&mut w.page, &mut m.page] {
        page.on_load_start(false, "sub".to_owned());
        assert!(page.poll_web_event().is_none());
        page.on_title_change("t".to_owned());
        assert!(page.on_before_popup("w".to_owned(), false));
        assert!(matches!(
            page.poll_web_event(),
            Some(CefSurfaceEvent::Navigation(NavigationEvent::TitleChanged { title })) if title == "t"
        ));
        assert!(matches!(
            page.poll_web_event(),
            Some(CefSurfaceEvent::Navigation(NavigationEvent::NewWindowRequested { url, .. }))
                if url == "w"
        ));
        page.on_cursor_change(2);
        assert_eq!(page.poll_cursor_shape(), Some(CursorShape::Pointer));
        page.scripts.begin(WebRequestId::new(1)).unwrap();
    }
    w.on_before_close();
    m.close(DOWN);
    for page in [&mut w.page, &mut m.page] {
        assert!(matches!(
            page.poll_web_event(),
            Some(CefSurfaceEvent::ScriptCompleted { result: Err(reason), .. })
                if reason == "browser closed"
        ));
    }
}
