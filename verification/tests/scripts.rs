//! Script requests, and text on its way into a page.
use welding::error::WeldError;
use welding::js::{escape_js_string, web_message_script};
use welding::scripts::{evaluation_reply, wrap_script, Evaluation, PendingScripts};
use welding::{CefSurfaceEvent, WebEventQueue, WebRequestId};

#[test]
fn a_bare_expression_survives_wrapping() {
    assert!(wrap_script("2+2").contains("return (2+2)"));
}

#[test]
fn undefined_is_normalised_to_json_null() {
    // JSON.stringify(undefined) is undefined, not a string, so without this the
    // renderer would have nothing to send back.
    assert!(wrap_script("whatever").contains("__weld === undefined"));
}

#[test]
fn accepted_scripts_settle_once_and_duplicate_ids_are_refused() {
    let mut events = WebEventQueue::default();
    let mut scripts = PendingScripts::new();
    let id = WebRequestId::new(u64::MAX);
    scripts.begin(id).unwrap();
    assert!(scripts.begin(id).is_err());
    scripts.complete(&mut events, id, Ok("4".into()));
    scripts.complete(&mut events, id, Ok("duplicate".into()));
    assert!(matches!(
        events.poll(),
        Some(CefSurfaceEvent::ScriptCompleted { id: seen, result: Ok(value) })
            if seen == id && value == "4"
    ));
    assert!(events.poll().is_none());
}

#[test]
fn renderer_loss_fails_pending_scripts_in_acceptance_order() {
    let mut events = WebEventQueue::default();
    let mut scripts = PendingScripts::new();
    scripts.begin(WebRequestId::new(8)).unwrap();
    scripts.begin(WebRequestId::new(3)).unwrap();
    scripts.fail_all(&mut events, "renderer exited");
    for expected in [8, 3] {
        assert!(matches!(
            events.poll(),
            Some(CefSurfaceEvent::ScriptCompleted { id, result: Err(reason) })
                if id.get() == expected && reason == "renderer exited"
        ));
    }
    assert!(events.poll().is_none());
}

#[test]
fn a_duplicate_request_says_why_it_is_refused() {
    let mut scripts = PendingScripts::new();
    scripts.begin(WebRequestId::new(1)).unwrap();
    assert!(matches!(
        scripts.begin(WebRequestId::new(1)),
        Err(WeldError::BrowserOp(reason)) if reason == "that script request id is already in flight"
    ));
    scripts.abort(WebRequestId::new(1));
    scripts.begin(WebRequestId::new(1)).unwrap();
}

#[test]
fn wrapping_keeps_the_script_and_nothing_else() {
    assert_eq!(
        wrap_script("a"),
        "(function() { var __weld = (function() { return (a); })(); return __weld === undefined ? \"null\" : JSON.stringify(__weld); })()"
    );
}

#[test]
fn an_evaluation_always_has_an_answer() {
    let done = |ran: bool, value: Option<&str>, exception: Option<&str>| {
        evaluation_reply(Some(Evaluation {
            ran,
            value: value.map(str::to_owned),
            exception: exception.map(str::to_owned),
        }))
    };
    assert_eq!(done(true, Some("4"), None), (true, "4".to_owned()));
    assert_eq!(done(true, None, Some("ignored")), (true, "null".to_owned()));
    assert_eq!(done(false, Some("ignored"), Some("boom")), (false, "boom".to_owned()));
    assert_eq!(done(false, None, None), (false, "script evaluation failed".to_owned()));
    assert_eq!(evaluation_reply(None), (false, "frame has no V8 context".to_owned()));
}

#[test]
fn request_ids_survive_text() {
    for id in [0, 9, 10, 4_294_967_296, u64::MAX] {
        let text = WebRequestId::new(id).to_text();
        assert_eq!(text, id.to_string());
        assert_eq!(WebRequestId::from_text(&text), Some(WebRequestId::new(id)));
    }
    assert_eq!(WebRequestId::from_text(""), None);
    assert_eq!(WebRequestId::from_text("-1"), None);
    assert_eq!(WebRequestId::from_text("18446744073709551616"), None);
}

#[test]
fn a_literal_escapes_what_would_end_it() {
    assert_eq!(escape_js_string(""), "\"\"");
    assert_eq!(escape_js_string("a\"b\\c"), "\"a\\\"b\\\\c\"");
    assert_eq!(escape_js_string("\n\r\t"), "\"\\n\\r\\t\"");
    assert_eq!(escape_js_string("\u{1}\u{1f} é"), "\"\\u0001\\u001f é\"");
    // A JSON parser reads the text back.
    let text = "\u{0}\u{7f}\u{2028}\"\\/\u{10ffff}";
    let read: serde_json::Value = serde_json::from_str(&escape_js_string(text)).unwrap();
    assert_eq!(read.as_str(), Some(text));
}

#[test]
fn a_message_is_dispatched_as_data() {
    assert_eq!(
        web_message_script("hi\""),
        "window.dispatchEvent(new MessageEvent('message',{data:\"hi\\\"\",origin:'weld'}));"
    );
}

#[test]
fn events_come_out_in_the_order_they_went_in() {
    let mut events = WebEventQueue::default();
    events.push(CefSurfaceEvent::WebMessage("a".into()));
    events.push(CefSurfaceEvent::WebMessage("b".into()));
    assert!(matches!(events.poll(), Some(CefSurfaceEvent::WebMessage(text)) if text == "a"));
    assert!(matches!(events.poll(), Some(CefSurfaceEvent::WebMessage(text)) if text == "b"));
    assert!(events.poll().is_none());
}
