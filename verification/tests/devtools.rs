//! The DevTools protocol queue.
use welding::devtools::{DevToolsChannel, MAX_QUEUED};

#[test]
fn the_protocol_is_off_until_asked_for() {
    let mut c = DevToolsChannel::default();
    assert!(!c.is_enabled(), "CDP is chatty; do not subscribe by default");
    c.set_enabled(true);
    assert!(c.is_enabled());
}

#[test]
fn messages_come_back_in_order() {
    let mut c = DevToolsChannel::default();
    c.push("first".into());
    c.push("second".into());
    assert_eq!(c.pop().as_deref(), Some("first"));
    assert_eq!(c.pop().as_deref(), Some("second"));
    assert_eq!(c.pop(), None);
}

#[test]
fn a_host_that_stops_polling_loses_the_oldest_and_is_told() {
    let mut c = DevToolsChannel::default();
    for i in 0..MAX_QUEUED + 10 {
        c.push(format!("m{i}"));
    }
    assert_eq!(c.dropped(), 10, "drops must be counted, not silent");
    // The newest survive; the oldest are the ones gone.
    assert_eq!(c.pop().as_deref(), Some("m10"));
}

#[test]
fn nothing_is_dropped_while_the_host_keeps_up() {
    let mut c = DevToolsChannel::default();
    for i in 0..MAX_QUEUED * 3 {
        c.push(format!("m{i}"));
        assert_eq!(c.pop(), Some(format!("m{i}")));
    }
    assert_eq!(c.dropped(), 0);
}

#[test]
fn messages_are_queued_only_where_the_protocol_is_on() {
    let mut c = DevToolsChannel::default();
    c.on_message(Some(b"{}"));
    assert_eq!(c.pop(), None);
    c.set_enabled(true);
    c.on_message(None);
    assert_eq!(c.pop(), None);
    c.on_message(Some(b"{\"a\":\xff}"));
    assert_eq!(c.pop().as_deref(), Some("{\"a\":\u{fffd}}"));
}
