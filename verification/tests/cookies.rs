//! Cookie reads and writes.
use welding::cookies::{
    delete_answered, from_cef, manager, set_answered, to_cef, CookieJar, CookieManagerPath,
    FinishOnDrop, RawCookie,
};
use welding::error::WeldError;
use welding::{CefSurfaceEvent, Cookie, SameSite, WebEventQueue, WebRequestId};

fn jar() -> (CookieJar, WebEventQueue) {
    (CookieJar::new(), WebEventQueue::default())
}

fn completed(events: &mut WebEventQueue) -> Option<(WebRequestId, Vec<Cookie>)> {
    match events.poll()? {
        CefSurfaceEvent::CookiesCompleted { id, result: Ok(cookies) } => Some((id, cookies)),
        other => panic!("unexpected event: {other:?}"),
    }
}

fn cookie(name: &str) -> Cookie {
    Cookie { name: name.into(), ..Default::default() }
}

#[test]
fn a_batch_is_handed_over_once() {
    let (mut jar, mut events) = jar();
    let id = WebRequestId::new(7);
    jar.begin(id).unwrap();
    jar.push(cookie("a"));
    jar.push(cookie("b"));
    assert!(events.poll().is_none(), "an unfinished visit must not emit");

    jar.finish(&mut events, id);
    let (completed_id, batch) = completed(&mut events).unwrap();
    assert_eq!(completed_id, id);
    assert_eq!(batch.len(), 2);
    assert!(events.poll().is_none(), "a batch is delivered exactly once");
}

#[test]
fn a_second_read_is_rejected_until_the_first_settles() {
    let (mut jar, mut events) = jar();
    let first = WebRequestId::new(1);
    jar.begin(first).unwrap();
    assert!(jar.begin(WebRequestId::new(2)).is_err());
    jar.finish(&mut events, first);
    assert_eq!(completed(&mut events).unwrap().0, first);
    jar.begin(WebRequestId::new(2)).unwrap();
}

#[test]
fn an_empty_result_is_still_an_answer() {
    // "no cookies" and "not answered yet" must not look the same to a host.
    let (mut jar, mut events) = jar();
    let id = WebRequestId::new(9);
    jar.begin(id).unwrap();
    jar.finish(&mut events, id);
    assert_eq!(completed(&mut events), Some((id, Vec::new())));
}

#[test]
fn dropping_the_visitor_publishes_the_answer() {
    // A store with no cookies never calls the visitor, so only its destruction
    // can end the read.
    let (mut jar, mut events) = jar();
    let id = WebRequestId::new(11);
    jar.begin(id).unwrap();
    let mut guard = FinishOnDrop::new(id);
    guard.share();
    guard.release(&mut jar, &mut events);
    assert!(events.poll().is_none(), "a surviving handle keeps the read open");
    guard.release(&mut jar, &mut events);
    assert_eq!(completed(&mut events), Some((id, Vec::new())));
}

#[test]
fn a_refused_visit_emits_no_completion() {
    let (mut jar, mut events) = jar();
    let id = WebRequestId::new(13);
    jar.begin(id).unwrap();
    let mut guard = FinishOnDrop::new(id);
    guard.disarm();
    jar.abort(id);
    guard.release(&mut jar, &mut events);
    assert!(events.poll().is_none());
    jar.begin(WebRequestId::new(14)).unwrap();
}

#[test]
fn closing_settles_the_active_read_once() {
    let (mut jar, mut events) = jar();
    let id = WebRequestId::new(15);
    jar.begin(id).unwrap();
    jar.fail_active(&mut events, "browser closed");
    jar.finish(&mut events, id);
    assert!(matches!(
        events.poll(),
        Some(CefSurfaceEvent::CookiesCompleted { id: seen, result: Err(reason) })
            if seen == id && reason == "browser closed"
    ));
    assert!(events.poll().is_none());
}

#[test]
fn a_visit_that_the_browser_refuses_leaves_no_trace() {
    let (mut jar, mut events) = jar();
    let id = WebRequestId::new(21);
    let mut guard = jar.begin_visit(id).unwrap();
    assert!(matches!(
        jar.begin_visit(WebRequestId::new(22)),
        Err(WeldError::BrowserOp(reason)) if reason == "a cookie read is already in flight"
    ));
    assert!(matches!(
        jar.visit_answered(&mut guard, false),
        Err(WeldError::BrowserOp(reason)) if reason == "CEF refused the cookie visit"
    ));
    guard.release(&mut jar, &mut events);
    assert!(events.poll().is_none());
    let mut guard = jar.begin_visit(id).unwrap();
    jar.visit_answered(&mut guard, true).unwrap();
    jar.push(cookie("late"));
    guard.release(&mut jar, &mut events);
    assert_eq!(completed(&mut events), Some((id, vec![cookie("late")])));
}

#[test]
fn only_its_own_id_finishes_a_read() {
    let (mut jar, mut events) = jar();
    jar.begin(WebRequestId::new(5)).unwrap();
    jar.finish(&mut events, WebRequestId::new(6));
    jar.abort(WebRequestId::new(6));
    assert!(events.poll().is_none());
    jar.finish(&mut events, WebRequestId::new(5));
    assert!(completed(&mut events).is_some());
}

#[test]
fn cookies_survive_the_browser() {
    for same_site in [None, Some(SameSite::Strict), Some(SameSite::Lax), Some(SameSite::NoRestriction)]
    {
        let make = || Cookie {
            name: "n".into(),
            value: "v".into(),
            domain: "d".into(),
            path: "/".into(),
            secure: true,
            http_only: false,
            same_site,
            expires: Some(-5),
            partitioned: false,
        };
        assert_eq!(from_cef(to_cef(make())), make());
    }
}

#[test]
fn a_raw_cookie_is_read_flag_by_flag() {
    let got = from_cef(RawCookie {
        name: "n".into(),
        value: "v".into(),
        domain: "d".into(),
        path: "/p".into(),
        secure: 0,
        httponly: 7,
        has_expires: 0,
        expires: 99,
        same_site: 42,
    });
    assert!(!got.secure && got.http_only && !got.partitioned);
    assert_eq!((got.expires, got.same_site), (None, None));
    let raw = to_cef(Cookie { same_site: Some(SameSite::Strict), ..Default::default() });
    assert_eq!((raw.same_site, raw.has_expires, raw.expires), (3, 0, 0));
}

#[test]
fn what_the_browser_refuses_is_said() {
    let reason = |outcome: Result<(), WeldError>| match outcome {
        Err(WeldError::BrowserOp(reason)) => reason,
        other => panic!("unexpected outcome: {other:?}"),
    };
    assert_eq!(
        reason(set_answered("https://a.example/", false)),
        "CEF rejected the cookie for https://a.example/; check the domain and path against the URL"
    );
    assert!(set_answered("x", true).is_ok());
    assert_eq!(reason(delete_answered(false)), "CEF refused the cookie delete");
    assert!(delete_answered(true).is_ok());
    assert_eq!(
        reason(manager(CookieManagerPath::NoHost)),
        "browser has no CEF host for its cookie context"
    );
    assert_eq!(
        reason(manager(CookieManagerPath::NoContext)),
        "browser has no CEF request context for cookies"
    );
    assert_eq!(
        reason(manager(CookieManagerPath::NoManager)),
        "CEF request context has no cookie manager"
    );
    assert!(manager(CookieManagerPath::Complete).is_ok());
}
