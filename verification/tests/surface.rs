//! Capabilities, configuration, menus and drag effects.
use welding::bits::report;
use welding::capabilities::{BrowserFeatureStatus, CefSurfaceCapabilities, CefSurfaceMode};
use welding::surface::{context_menu_targets, termination_status, EventModifiers};
use welding::{
    CefSurfaceConfig, ContextMenuTarget, DragOperations, Platform, ProcessTerminationStatus,
};

/// A capability report that overstates is worse than a missing feature.
#[test]
fn probe_only_claims_what_is_wired() {
    let caps = CefSurfaceCapabilities::probe();

    assert_eq!(caps.script_execution, BrowserFeatureStatus::Supported);
    assert_eq!(caps.devtools, BrowserFeatureStatus::Supported);
    let macos = CefSurfaceCapabilities::probe_for(Platform::Macos, false);
    assert!(matches!(macos.devtools, BrowserFeatureStatus::Unsupported(_)));
    assert_eq!(caps.console_messages, BrowserFeatureStatus::Supported);
    assert_eq!(caps.cookies, BrowserFeatureStatus::Supported);
    assert_eq!(caps.script_result, BrowserFeatureStatus::Supported);
    assert_eq!(caps.downloads, BrowserFeatureStatus::Supported);
    assert!(caps.accelerated_paint_available);
    assert_eq!(caps.preferred_mode, CefSurfaceMode::AcceleratedPaint);

    assert_eq!(caps.context_menus, BrowserFeatureStatus::Supported);
    let windows = CefSurfaceCapabilities::probe_for(Platform::Windows, false);
    assert_eq!(windows.printer, BrowserFeatureStatus::Supported);
    assert!(matches!(caps.printer, BrowserFeatureStatus::Unsupported(_)));
    assert_eq!(caps.drag_drop, BrowserFeatureStatus::Supported);
    assert_eq!(caps.touch, BrowserFeatureStatus::Supported);
    assert_eq!(caps.png_snapshot, BrowserFeatureStatus::Supported);
    assert_eq!(caps.profile_isolation, BrowserFeatureStatus::Supported);

    let status = caps.cookie_change_events;
    assert!(
        matches!(status, BrowserFeatureStatus::Unsupported(reason) if !reason.is_empty()),
        "expected an explained Unsupported, got {status:?}"
    );

    assert_eq!(caps.permission_requests, BrowserFeatureStatus::Supported);
    assert_eq!(caps.devtools_protocol, BrowserFeatureStatus::Supported);

    // Implemented and registered, never seen to fire.
    assert!(matches!(caps.auth_challenges, BrowserFeatureStatus::Partial(_)));

    // Creation is handled, rendering is not.
    assert!(matches!(caps.popups, BrowserFeatureStatus::Partial(_)));
}

#[test]
fn a_platform_without_a_gpu_path_falls_back() {
    let bare = CefSurfaceCapabilities::probe_for(Platform::Other, false);
    assert!(!bare.accelerated_paint_available);
    assert_eq!(bare.preferred_mode, CefSurfaceMode::Unsupported);
    let cpu = CefSurfaceCapabilities::probe_for(Platform::Other, true);
    assert!(cpu.cpu_paint_available);
    assert_eq!(cpu.preferred_mode, CefSurfaceMode::CpuPaint);
}

/// Transparency is alpha 0, and there is no partial option.
#[test]
fn background_color_maps_to_cef_argb() {
    let mut config = CefSurfaceConfig::default();
    assert_eq!(config.background_color, Some([255, 255, 255]));
    assert_eq!(config.cef_background_color(), 0xFFFF_FFFF);

    config.background_color = Some([0x12, 0x34, 0x56]);
    assert_eq!(config.cef_background_color(), 0xFF12_3456);

    config.background_color = None;
    assert_eq!(config.cef_background_color(), 0);
}

#[test]
fn an_unset_configuration_is_an_empty_page() {
    let config = CefSurfaceConfig::default();
    assert_eq!(config.initial_url, "about:blank");
    assert_eq!((config.initial_size.width, config.initial_size.height), (800, 600));
    assert!(config.prefer_accelerated);
    assert!(!config.devtools_protocol);
    assert!(!config.handle_auth_challenges);
    assert!(!config.handle_permission_requests);
    assert_eq!(config.download_dir, None);
    assert_eq!(config.user_data_dir, None);
}

#[test]
fn the_flags_seen_from_a_real_right_click_decode() {
    // A right-click on plain page text reported 3.
    assert_eq!(
        context_menu_targets(3),
        vec![ContextMenuTarget::Page, ContextMenuTarget::Frame]
    );
}

#[test]
fn a_link_inside_a_page_reports_both() {
    let got = context_menu_targets(1 | 1 << 2);
    assert!(got.contains(&ContextMenuTarget::Page));
    assert!(got.contains(&ContextMenuTarget::Link));
}

#[test]
fn an_unnamed_flag_is_reported_not_dropped() {
    let odd = 1 << 20;
    assert_eq!(context_menu_targets(odd), vec![ContextMenuTarget::Other(odd)]);
}

#[test]
fn nothing_under_the_cursor_decodes_to_nothing() {
    assert!(context_menu_targets(0).is_empty());
}

#[test]
fn drag_effects_are_a_set_not_a_single_choice() {
    let effects = DragOperations(DragOperations::COPY) | DragOperations(DragOperations::MOVE);
    assert_eq!(effects.0, 0b1_0001);
    assert_eq!(DragOperations(DragOperations::NONE).0, 0);
}

#[test]
fn every_flag_is_reported_once() {
    let got = context_menu_targets(u32::MAX);
    assert_eq!(got.len(), 32);
    assert_eq!(got[5], ContextMenuTarget::Editable);
    assert_eq!(got[31], ContextMenuTarget::Other(1 << 31));
}

#[test]
fn bits_are_reported_in_the_named_order_then_ascending() {
    assert_eq!(report(0b1011_0110, &vec![16, 2, 8]), vec![16, 2, 4, 32, 128]);
}

#[test]
fn an_unknown_termination_is_carried_through() {
    assert_eq!(termination_status(0), ProcessTerminationStatus::Abnormal);
    assert_eq!(termination_status(1), ProcessTerminationStatus::Killed);
    assert_eq!(termination_status(2), ProcessTerminationStatus::Crashed);
    assert_eq!(termination_status(3), ProcessTerminationStatus::OutOfMemory);
    assert_eq!(termination_status(4), ProcessTerminationStatus::LaunchFailed);
    assert_eq!(termination_status(5), ProcessTerminationStatus::IntegrityFailure);
    assert_eq!(termination_status(99), ProcessTerminationStatus::Unknown(99));
}

#[test]
fn each_modifier_sets_its_own_flag() {
    let all = EventModifiers {
        shift: true,
        ctrl: true,
        alt: true,
        meta: true,
        left_mouse_button: true,
        middle_mouse_button: true,
        right_mouse_button: true,
    };
    assert_eq!(welding::input::modifiers(all), 0xfe);
    assert_eq!(welding::input::modifiers(EventModifiers::default()), 0);
    let meta = EventModifiers { meta: true, ..EventModifiers::default() };
    assert_eq!(welding::input::modifiers(meta), 0x80);
}
