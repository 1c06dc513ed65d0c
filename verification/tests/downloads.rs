//! Downloads: where they land, what is remembered and what is reported.
use std::path::Path;
use welding::downloads::{
    native_path, safe_file_name, DownloadItem, DownloadOp, Downloads, PROGRESS_INTERVAL,
};
use welding::error::WeldError;
use welding::{CefSurfaceEvent, NavigationEvent, Platform, WebEventQueue};

const MILLISECOND: u64 = 1_000_000;

fn downloads() -> Downloads {
    let mut d = Downloads::default();
    d.set_dir(Some("/downloads".to_owned()));
    d
}

#[test]
fn a_suggested_name_cannot_escape_the_download_directory() {
    let d = downloads();
    for hostile in [
        "../../.bashrc",
        "../.bashrc",
        "/etc/passwd",
        "..\\..\\evil.dll",
        "C:\\Windows\\evil.dll",
    ] {
        let path = d.destination_for(hostile).expect("dir is set");
        assert_eq!(
            Path::new(&path).parent(),
            Some(Path::new("/downloads")),
            "{hostile} escaped to {path:?}"
        );
    }
}

#[test]
fn an_unusable_name_still_produces_a_path() {
    let d = downloads();
    for empty in ["", "   ", "..", "/", "\\"] {
        assert_eq!(
            Path::new(&d.destination_for(empty).unwrap()),
            Path::new("/downloads/download"),
            "{empty:?} produced no usable name"
        );
    }
}

#[test]
fn an_ordinary_name_is_left_alone() {
    let d = downloads();
    assert_eq!(
        Path::new(&d.destination_for("report.pdf").unwrap()),
        Path::new("/downloads/report.pdf")
    );
}

#[test]
fn no_directory_means_no_destination() {
    let d = Downloads::default();
    assert!(!d.is_enabled());
    assert_eq!(d.destination_for("report.pdf"), None);
}

#[test]
fn a_pending_op_is_delivered_once() {
    let mut d = Downloads::default();
    d.request(7, DownloadOp::Pause);
    assert_eq!(d.take_pending(7), Some(DownloadOp::Pause));
    assert_eq!(d.take_pending(7), None);
}

#[test]
fn started_is_reported_once_per_download() {
    let mut d = Downloads::default();
    assert!(d.mark_started(1));
    assert!(!d.mark_started(1));
    assert!(d.mark_started(2));
}

#[test]
fn nothing_is_reported_before_the_download_is_accepted() {
    let mut d = Downloads::default();
    assert!(!d.has_started(1), "CEF updates an item before offering it");
    d.mark_started(1);
    assert!(d.has_started(1));
    d.forget(1);
    assert!(!d.has_started(1));
}

#[test]
fn progress_is_throttled_then_allowed_again() {
    let mut d = Downloads::default();
    let t0: u64 = 5_000_000_000;
    assert!(d.due_for_progress(1, t0), "first update always reports");
    assert!(!d.due_for_progress(1, t0 + 10 * MILLISECOND));
    assert!(d.due_for_progress(1, t0 + PROGRESS_INTERVAL));
    // Throttling is per download, not global.
    assert!(d.due_for_progress(2, t0 + 10 * MILLISECOND));
}

#[test]
fn forgetting_a_download_clears_its_state() {
    let mut d = Downloads::default();
    d.request(3, DownloadOp::Cancel);
    d.mark_started(3);
    d.due_for_progress(3, 1);
    d.forget(3);
    assert_eq!(d.take_pending(3), None);
    assert!(d.mark_started(3), "state survived forget()");
}

#[test]
fn a_name_keeps_its_final_component() {
    for (suggested, file) in [
        ("../../.bashrc", ".bashrc"),
        ("C:\\Windows\\evil.dll", "evil.dll"),
        ("a/b\\c.txt", "c.txt"),
        ("\u{a0} name.txt \u{3000}", "name.txt"),
        ("name...", "name"),
        ("a .", "a "),
        ("C:evil.dll", "C:evil.dll"),
    ] {
        assert_eq!(safe_file_name(suggested, Platform::Linux), file, "{suggested:?}");
    }
}

#[test]
fn a_drive_is_not_part_of_a_name_on_windows() {
    assert_eq!(safe_file_name("C:evil.dll", Platform::Windows), "evil.dll");
    assert_eq!(safe_file_name("C:", Platform::Windows), "download");
    assert_eq!(safe_file_name("ab:c", Platform::Windows), "ab:c");
    let mut d = Downloads::new(Platform::Windows);
    d.set_dir(Some("C:/downloads".to_owned()));
    assert_eq!(d.destination_for("D:x").unwrap(), "C:\\downloads\\x");
    d.set_dir(Some("C:".to_owned()));
    assert_eq!(d.destination_for("x").unwrap(), "C:x");
}

#[test]
fn a_directory_may_end_in_a_separator() {
    let mut d = Downloads::default();
    d.set_dir(Some("/downloads/".to_owned()));
    assert_eq!(d.destination_for("x").unwrap(), "/downloads/x");
    d.set_dir(Some(String::new()));
    assert_eq!(d.destination_for("x").unwrap(), "x");
}

#[test]
fn separators_are_those_of_the_platform() {
    assert_eq!(native_path("C:/a/b".to_owned(), Platform::Windows), "C:\\a\\b");
    assert_eq!(native_path("/a/b".to_owned(), Platform::Linux), "/a/b");
}

#[test]
fn a_clock_that_runs_backwards_reports_nothing() {
    let mut d = Downloads::default();
    assert!(d.due_for_progress(1, 1_000_000_000));
    assert!(!d.due_for_progress(1, 0));
    assert!(!d.due_for_progress(1, 1_000_000_000 + PROGRESS_INTERVAL - 1));
}

fn item(received: i64, complete: bool, canceled: bool) -> DownloadItem {
    DownloadItem {
        id: 4,
        total_bytes: 100,
        received_bytes: received,
        complete,
        canceled,
        interrupted: false,
        interrupt_reason: 0,
        full_path: "/downloads/x".to_owned(),
    }
}

fn nav(events: &mut WebEventQueue) -> Option<NavigationEvent> {
    match events.poll()? {
        CefSurfaceEvent::Navigation(event) => Some(event),
        other => panic!("unexpected event: {other:?}"),
    }
}

#[test]
fn a_download_is_announced_reported_and_ended() {
    let mut d = downloads();
    let mut events = WebEventQueue::default();
    assert_eq!(d.on_update(4), None);
    let path = d.on_before_download(&mut events, 4, "https://a/x".to_owned(), -1, "x".to_owned());
    assert_eq!(path.as_deref(), Some("/downloads/x"));
    assert!(matches!(
        nav(&mut events),
        Some(NavigationEvent::DownloadStarted { id: 4, total_bytes_expected: None, .. })
    ));
    d.request_download(4, DownloadOp::Pause).unwrap();
    assert_eq!(d.on_update(4), Some(Some(DownloadOp::Pause)));
    assert_eq!(d.on_update(4), Some(None));
    d.report_update(&mut events, item(-5, false, false), 0);
    d.report_update(&mut events, item(7, false, false), 1);
    assert!(matches!(
        nav(&mut events),
        Some(NavigationEvent::DownloadProgress {
            id: 4,
            bytes_received: 0,
            total_bytes_expected: Some(100)
        })
    ));
    assert!(nav(&mut events).is_none(), "progress is throttled");
    let ended = DownloadItem { interrupted: true, interrupt_reason: -3, ..item(9, true, false) };
    d.report_update(&mut events, ended, 2);
    assert!(matches!(
        nav(&mut events),
        Some(NavigationEvent::DownloadProgress { bytes_received: 9, .. })
    ));
    assert!(matches!(
        nav(&mut events),
        Some(NavigationEvent::DownloadFinished { id: 4, error: Some(reason), .. })
            if reason == "interrupted: -3"
    ));
    assert!(nav(&mut events).is_none());
    assert!(!d.has_started(4));
}

#[test]
fn a_cancelled_download_is_not_finished() {
    let mut d = downloads();
    let mut events = WebEventQueue::default();
    d.mark_started(4);
    d.report_update(&mut events, item(9, true, true), 2);
    assert!(matches!(nav(&mut events), Some(NavigationEvent::DownloadProgress { .. })));
    assert!(matches!(
        nav(&mut events),
        Some(NavigationEvent::DownloadCancelled { id: 4, destination_path })
            if destination_path == "/downloads/x"
    ));
    assert!(nav(&mut events).is_none());
}

#[test]
fn a_refused_download_is_not_announced() {
    let mut d = Downloads::default();
    let mut events = WebEventQueue::default();
    let path = d.on_before_download(&mut events, 4, "u".to_owned(), 1, "x".to_owned());
    assert_eq!(path, None);
    assert!(events.poll().is_none());
    assert!(matches!(
        d.request_download(4, DownloadOp::Cancel),
        Err(WeldError::PlatformUnsupported(
            "no download_dir is configured, so there are no downloads to steer"
        ))
    ));
}
