//! Permission requests: what a mask asks for, and how a request is answered.
use welding::error::WeldError;
use welding::permissions::{
    decode, decode_media, Pending, PermissionReply, Permissions, RequestAction, CAMERA_STREAM,
    CLIPBOARD, GEOLOCATION, IDLE_DETECTION, KEYBOARD_LOCK, LOCAL_FONTS, MIC_STREAM, MIDI_SYSEX,
    NOTIFICATIONS, POINTER_LOCK, PROTECTED_MEDIA_IDENTIFIER, STORAGE_ACCESS,
};
use welding::{CefSurfaceEvent, NavigationEvent, PermissionKind, WebEventQueue};

type Held = Permissions<&'static str, &'static str>;

#[test]
fn the_bits_seen_from_a_real_page_decode() {
    assert_eq!(decode(0x100), vec![PermissionKind::Geolocation]);
    assert_eq!(decode(1 << 15), vec![PermissionKind::Notifications]);
    assert_eq!(decode(1 << 2), vec![PermissionKind::CameraStream]);
}

#[test]
fn several_at_once_all_come_back() {
    let got = decode(GEOLOCATION | NOTIFICATIONS | CAMERA_STREAM);
    assert_eq!(got.len(), 3);
    assert!(got.contains(&PermissionKind::Geolocation));
    assert!(got.contains(&PermissionKind::Notifications));
    assert!(got.contains(&PermissionKind::CameraStream));
}

#[test]
fn an_unnamed_bit_is_reported_not_dropped() {
    let odd = 1 << 30;
    assert_eq!(decode(odd), vec![PermissionKind::Other(odd)]);
    // and alongside a known one
    let got = decode(GEOLOCATION | odd);
    assert_eq!(got.len(), 2, "a known bit swallowed the unknown one: {got:?}");
    assert!(got.contains(&PermissionKind::Other(odd)));
}

#[test]
fn every_named_bit_is_distinct() {
    // Two names that share a bit would misreport what a page asked for.
    let named = [
        CAMERA_STREAM,
        MIC_STREAM,
        GEOLOCATION,
        NOTIFICATIONS,
        CLIPBOARD,
        MIDI_SYSEX,
        POINTER_LOCK,
        KEYBOARD_LOCK,
        LOCAL_FONTS,
        IDLE_DETECTION,
        STORAGE_ACCESS,
        PROTECTED_MEDIA_IDENTIFIER,
    ];
    let mut seen = named.to_vec();
    seen.sort_unstable();
    seen.dedup();
    assert_eq!(seen.len(), named.len(), "two permissions share a bit");
    for bit in named {
        assert_eq!(decode(bit).len(), 1, "{bit:#x} decoded to more than one");
    }
}

#[test]
fn nothing_requested_decodes_to_nothing() {
    assert!(decode(0).is_empty());
}

#[test]
fn permissions_answering_is_off_until_the_host_asks_for_it() {
    let mut p = Held::default();
    assert!(!p.is_enabled(), "an unwired host must not leave pages waiting on a prompt");
    p.set_enabled(true);
    assert!(p.is_enabled());
}

#[test]
fn ids_are_unique_and_never_zero() {
    let mut p = Held::default();
    let ids: Vec<_> = (0..4).map(|_| p.next_id()).collect();
    assert!(!ids.contains(&0));
    let mut sorted = ids.clone();
    sorted.sort_unstable();
    sorted.dedup();
    assert_eq!(sorted.len(), ids.len(), "ids repeated: {ids:?}");
    assert_eq!(p.outstanding(), 0);
}

#[test]
fn named_permissions_come_first_and_the_rest_in_ascending_order() {
    assert_eq!(
        decode((1 << 30) | (1 << 0) | NOTIFICATIONS | CAMERA_STREAM),
        vec![
            PermissionKind::CameraStream,
            PermissionKind::Notifications,
            PermissionKind::Other(1),
            PermissionKind::Other(1 << 30),
        ]
    );
    assert_eq!(decode(u32::MAX).len(), 32);
}

#[test]
fn media_bits_have_names_of_their_own() {
    assert_eq!(
        decode_media(0b1_1111),
        vec![
            PermissionKind::MicStream,
            PermissionKind::CameraStream,
            PermissionKind::DesktopAudioCapture,
            PermissionKind::DesktopVideoCapture,
            PermissionKind::Other(16),
        ]
    );
    assert_eq!(decode_media(u32::MAX).len(), 32);
}

#[test]
fn a_prompt_that_nobody_answers_is_denied_at_once() {
    let mut p = Held::default();
    let mut events = WebEventQueue::default();
    let action =
        p.on_show_permission_prompt(&mut events, "https://a.example/".to_owned(), 0x100, Some("cb"));
    assert!(matches!(action, RequestAction::DenyNow("cb")));
    assert_eq!(p.outstanding(), 0);
    match events.poll() {
        Some(CefSurfaceEvent::Navigation(NavigationEvent::PermissionRequested {
            id,
            origin,
            permissions,
            raw,
        })) => {
            assert_eq!(id, 1);
            assert_eq!(origin, "https://a.example/");
            assert_eq!(permissions, vec![PermissionKind::Geolocation]);
            assert_eq!(raw, 0x100);
        }
        other => panic!("unexpected event: {other:?}"),
    }
    assert!(matches!(
        p.on_show_permission_prompt(&mut events, String::new(), 1, None),
        RequestAction::Unanswerable
    ));
}

#[test]
fn a_held_request_is_answered_once() {
    let mut p = Held::default();
    let mut events = WebEventQueue::default();
    p.set_enabled(true);
    assert!(matches!(
        p.on_show_permission_prompt(&mut events, String::new(), 0x100, Some("prompt")),
        RequestAction::Held
    ));
    assert!(matches!(
        p.on_request_media_access_permission(&mut events, String::new(), 3, Some("media")),
        RequestAction::Held
    ));
    assert_eq!(p.outstanding(), 2);
    assert!(matches!(
        p.answer_permission(1, true),
        Ok(PermissionReply::Prompt { callback: "prompt", accept: true })
    ));
    // Media is granted exactly what it asked for.
    assert!(matches!(
        p.answer_permission(2, true),
        Ok(PermissionReply::Media { callback: "media", allowed: 3 })
    ));
    assert!(matches!(
        p.answer_permission(2, true),
        Err(WeldError::PlatformUnsupported("no permission request is waiting on that id"))
    ));
    p.hold(9, Pending::Media("again", 3));
    assert!(matches!(
        p.answer_permission(9, false),
        Ok(PermissionReply::Media { callback: "again", allowed: 0 })
    ));
    assert!(p.take(9).is_none());
}
