//! One-shot PNG captures.
use welding::error::WeldError;
use welding::snapshot::{
    decode_png, decoded_capture, encoded_capture, SnapshotChannel, MAX_ADMITTED_CAPTURES,
};
use welding::SnapshotRequestId;

fn reason<T: std::fmt::Debug>(outcome: Result<T, WeldError>) -> String {
    match outcome {
        Err(WeldError::BrowserOp(reason)) => reason,
        other => panic!("unexpected outcome: {other:?}"),
    }
}

#[test]
fn captures_decode_only_their_own_result() {
    let mut snapshots = SnapshotChannel::default();
    let request = SnapshotRequestId::from_cef_message_id(7);
    snapshots.begin(request).unwrap();
    snapshots.complete(6, true, Some(br#"{"data":"iVBORw0KGgo="}"#));
    assert!(snapshots.take().is_none());
    snapshots.complete(7, true, Some(br#"{"data":"iVBORw0KGgo="}"#));
    let completion = snapshots.take().unwrap();
    assert_eq!(completion.id, request);
    assert_eq!(completion.result.unwrap(), b"\x89PNG\r\n\x1a\n");
}

#[test]
fn invalid_cdp_answers_become_visible_errors() {
    let mut snapshots = SnapshotChannel::default();
    snapshots
        .begin(SnapshotRequestId::from_cef_message_id(1))
        .unwrap();
    snapshots.complete(1, true, Some(br#"{}"#));
    assert!(matches!(
        snapshots.take().map(|completion| completion.result),
        Some(Err(WeldError::BrowserOp(_)))
    ));
}

#[test]
fn admitted_results_are_never_evicted() {
    let mut snapshots = SnapshotChannel::default();
    for id in 1..=MAX_ADMITTED_CAPTURES as i32 {
        snapshots
            .begin(SnapshotRequestId::from_cef_message_id(id))
            .unwrap();
    }
    assert!(matches!(
        snapshots.begin(SnapshotRequestId::from_cef_message_id(17)),
        Err(WeldError::BrowserOp(message)) if message.contains("backlog is full")
    ));

    for id in 1..=MAX_ADMITTED_CAPTURES as i32 {
        snapshots.complete(id, true, Some(br#"{"data":"iVBORw0KGgo="}"#));
    }
    for id in 1..=MAX_ADMITTED_CAPTURES as i32 {
        let completion = snapshots.take().unwrap();
        assert_eq!(completion.id, SnapshotRequestId::from_cef_message_id(id));
        assert!(completion.result.is_ok());
    }
    assert!(snapshots.take().is_none());
}

#[test]
fn every_kind_of_bad_answer_says_what_is_wrong() {
    assert_eq!(
        reason(decode_png(None)),
        "Page.captureScreenshot succeeded without a result payload"
    );
    assert_eq!(
        reason(decode_png(Some(b"x"))),
        "invalid Page.captureScreenshot result: expected value at line 1 column 1"
    );
    for no_field in [&b"{}"[..], b"[]", b"\"data\"", br#"{"data":3}"#, br#"{"date":"iVBO"}"#] {
        assert_eq!(
            reason(decode_png(Some(no_field))),
            "Page.captureScreenshot result has no PNG data field"
        );
    }
    assert_eq!(
        reason(decode_png(Some(br#"{"data":"iVBORw0KGgo"}"#))),
        "invalid base64 PNG from Page.captureScreenshot: Invalid padding"
    );
    assert_eq!(
        reason(decode_png(Some(br#"{"data":"aGVsbG8="}"#))),
        "Page.captureScreenshot returned bytes without PNG magic"
    );
    assert_eq!(
        decode_png(Some(br#"{"x":[1],"data":"iVBORw0KGgpo"}"#)).unwrap(),
        b"\x89PNG\r\n\x1a\nh"
    );
}

#[test]
fn the_steps_of_decoding_are_exact() {
    assert_eq!(encoded_capture(Ok(Some("abc".to_owned()))).unwrap(), "abc");
    assert_eq!(
        reason(encoded_capture(Err("why".to_owned()))),
        "invalid Page.captureScreenshot result: why"
    );
    assert_eq!(
        reason(decoded_capture(Err("why".to_owned()))),
        "invalid base64 PNG from Page.captureScreenshot: why"
    );
    assert_eq!(
        reason(decoded_capture(Ok(b"\x89PNG\r\n\x1a".to_vec()))),
        "Page.captureScreenshot returned bytes without PNG magic"
    );
    assert!(decoded_capture(Ok(b"\x89PNG\r\n\x1a\n.".to_vec())).is_ok());
}

#[test]
fn a_failed_capture_carries_its_reason() {
    let mut snapshots = SnapshotChannel::default();
    let begin = |snapshots: &mut SnapshotChannel, id: i32| {
        snapshots.begin(SnapshotRequestId::from_cef_message_id(id))
    };
    begin(&mut snapshots, -3).unwrap();
    assert_eq!(
        reason(begin(&mut snapshots, -3)),
        "snapshot request id -3 is already pending"
    );
    snapshots.complete(-3, false, Some(b"no\xff"));
    assert_eq!(
        reason(snapshots.take().unwrap().result),
        "Page.captureScreenshot failed: no\u{fffd}"
    );
    begin(&mut snapshots, -3).unwrap();
    snapshots.complete(-3, false, None);
    assert_eq!(
        reason(snapshots.take().unwrap().result),
        "Page.captureScreenshot failed: CEF supplied no error payload"
    );
}
