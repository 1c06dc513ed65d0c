//! HTTP authentication challenges.
use welding::auth::{AuthChallenges, Challenge, ChallengeAction};
use welding::error::WeldError;
use welding::ids::IdCounter;
use welding::{CefSurfaceEvent, NavigationEvent, WebEventQueue};

type Held = AuthChallenges<&'static str>;

fn challenge(port: i32) -> Challenge {
    Challenge {
        origin_url: "https://a.example/x".to_owned(),
        is_proxy: false,
        host: "a.example".to_owned(),
        port,
        realm: "r".to_owned(),
        scheme: "basic".to_owned(),
    }
}

#[test]
fn auth_answering_is_off_until_the_host_asks_for_it() {
    let mut a = Held::default();
    assert!(
        !a.is_enabled(),
        "a host that never wired auth up must not be left holding requests open"
    );
    a.set_enabled(true);
    assert!(a.is_enabled());
}

#[test]
fn ids_are_unique_per_challenge() {
    let mut a = Held::default();
    let ids: Vec<_> = (0..4).map(|_| a.next_id()).collect();
    let mut sorted = ids.clone();
    sorted.sort_unstable();
    sorted.dedup();
    assert_eq!(sorted.len(), ids.len(), "ids repeated: {ids:?}");
}

#[test]
fn zero_is_never_handed_out() {
    // 0 reads like "no challenge" in host code, so it is skipped.
    let mut a = Held::default();
    assert_ne!(a.next_id(), 0);
}

#[test]
fn nothing_is_outstanding_before_a_challenge() {
    assert_eq!(Held::default().outstanding(), 0);
}

#[test]
fn ids_count_up_from_one() {
    let mut ids = IdCounter::default();
    assert_eq!((ids.next(), ids.next(), ids.next()), (1, 2, 3));
}

#[test]
fn a_challenge_that_nobody_answers_is_declined_at_once() {
    let mut a = Held::default();
    let mut events = WebEventQueue::default();
    let action = a.auth_credentials(&mut events, challenge(70_000), Some("cb"));
    assert!(matches!(action, ChallengeAction::DeclineNow("cb")));
    assert_eq!(a.outstanding(), 0);
    match events.poll() {
        Some(CefSurfaceEvent::Navigation(NavigationEvent::AuthChallenged {
            id,
            host,
            port,
            realm,
            scheme,
            is_proxy,
            origin_url,
        })) => {
            assert_eq!((id, port, is_proxy), (1, 65_535, false));
            assert_eq!((host.as_str(), realm.as_str(), scheme.as_str()), ("a.example", "r", "basic"));
            assert_eq!(origin_url, "https://a.example/x");
        }
        other => panic!("unexpected event: {other:?}"),
    }
    assert!(matches!(
        a.auth_credentials(&mut events, challenge(-1), None),
        ChallengeAction::Unanswerable
    ));
    assert!(matches!(
        events.poll(),
        Some(CefSurfaceEvent::Navigation(NavigationEvent::AuthChallenged { id: 2, port: 0, .. }))
    ));
}

#[test]
fn a_held_challenge_is_answered_once() {
    let mut a = Held::default();
    let mut events = WebEventQueue::default();
    a.set_enabled(true);
    assert!(matches!(
        a.auth_credentials(&mut events, challenge(443), Some("cb")),
        ChallengeAction::Held
    ));
    assert_eq!(a.outstanding(), 1);
    assert!(matches!(a.answer_auth(1), Ok("cb")));
    assert!(matches!(
        a.answer_auth(1),
        Err(WeldError::PlatformUnsupported("no auth challenge is waiting on that id"))
    ));
}
