use pg_listen_bridge::{
    decode, Bridge, DecodedEvent, DriverAction, Notification, Phase, Pull, RawMessage,
    SourceEvent, StreamError, TransportError,
};

fn note(channel: &str, payload: &str, sender_id: i32) -> Notification {
    Notification { channel: channel.to_string(), payload: payload.to_string(), sender_id }
}

fn msg(n: Notification) -> SourceEvent {
    SourceEvent::Message(RawMessage::Notification(n))
}

fn other(text: &str) -> SourceEvent {
    SourceEvent::Message(RawMessage::Other(text.to_string()))
}

fn transport(text: &str) -> TransportError {
    TransportError { message: text.to_string() }
}

#[test]
fn example_scenario_skips_other_events_and_ends_cleanly() {
    let mut b = Bridge::new("alerts".to_string());
    assert_eq!(b.deliver(msg(note("alerts", "{\"k\":1}", 42))), DriverAction::Continue);
    assert_eq!(b.deliver(other("notice")), DriverAction::Continue);
    assert_eq!(b.deliver(msg(note("alerts", "{\"k\":2}", 42))), DriverAction::Continue);
    assert_eq!(b.deliver(SourceEvent::Closed), DriverAction::Stop);
    assert_eq!(b.next(), Pull::Item(note("alerts", "{\"k\":1}", 42)));
    assert_eq!(b.next(), Pull::Item(note("alerts", "{\"k\":2}", 42)));
    assert_eq!(b.next(), Pull::EndOfStream);
}

#[test]
fn decode_keeps_notification_fields_exactly() {
    let n = note("MiXed", "  raw \u{e9} payload ", -7);
    assert_eq!(decode(RawMessage::Notification(n.clone())), DecodedEvent::Notification(n));
}

#[test]
fn decode_classifies_other_messages_as_ignored() {
    assert_eq!(
        decode(RawMessage::Other("notice: vacuum".to_string())),
        DecodedEvent::Ignored("notice: vacuum".to_string())
    );
}

#[test]
fn only_notifications_reach_the_consumer() {
    let mut b = Bridge::new("c".to_string());
    b.deliver(other("a"));
    b.deliver(other("b"));
    assert_eq!(b.buffered_len(), 2);
    assert_eq!(b.next(), Pull::Pending);
    assert_eq!(b.buffered_len(), 0);
    b.deliver(msg(note("c", "x", 1)));
    b.deliver(other("c"));
    assert_eq!(b.next(), Pull::Item(note("c", "x", 1)));
    assert_eq!(b.next(), Pull::Pending);
}

#[test]
fn order_is_preserved() {
    let mut b = Bridge::new("c".to_string());
    for p in ["m1", "m2", "m3"] {
        assert_eq!(b.deliver(msg(note("c", p, 5))), DriverAction::Continue);
    }
    assert_eq!(b.next(), Pull::Item(note("c", "m1", 5)));
    assert_eq!(b.next(), Pull::Item(note("c", "m2", 5)));
    assert_eq!(b.next(), Pull::Item(note("c", "m3", 5)));
    assert_eq!(b.next(), Pull::Pending);
}

#[test]
fn pending_while_open_and_empty() {
    let mut b = Bridge::new("c".to_string());
    assert_eq!(b.next(), Pull::Pending);
    assert_eq!(b.phase(), Phase::Active);
    assert!(b.is_running());
}

#[test]
fn cancel_stops_intake_and_drains_buffered() {
    let mut b = Bridge::new("c".to_string());
    b.deliver(msg(note("c", "before", 1)));
    b.cancel();
    assert!(!b.is_running());
    assert_eq!(b.phase(), Phase::Draining);
    assert_eq!(b.deliver(msg(note("c", "after", 1))), DriverAction::Stop);
    assert_eq!(b.deliver(SourceEvent::Error(transport("late"))), DriverAction::Stop);
    assert_eq!(b.buffered_len(), 1);
    assert_eq!(b.next(), Pull::Item(note("c", "before", 1)));
    assert_eq!(b.next(), Pull::EndOfStream);
    assert_eq!(b.next(), Pull::Spent);
}

#[test]
fn cancel_while_driver_blocked_then_driver_exits() {
    let mut b = Bridge::new("c".to_string());
    b.cancel();
    assert_eq!(b.next(), Pull::EndOfStream);
    assert_eq!(b.phase(), Phase::Draining);
    b.finish_driver();
    assert_eq!(b.phase(), Phase::Closed);
    assert_eq!(b.next(), Pull::Spent);
}

#[test]
fn cancel_twice_same_as_once() {
    let mut once = Bridge::new("c".to_string());
    let mut twice = Bridge::new("c".to_string());
    once.deliver(msg(note("c", "p", 3)));
    twice.deliver(msg(note("c", "p", 3)));
    once.cancel();
    twice.cancel();
    twice.cancel();
    assert_eq!(once.phase(), twice.phase());
    assert_eq!(once.is_running(), twice.is_running());
    assert_eq!(once.buffered_len(), twice.buffered_len());
    for _ in 0..4 {
        assert_eq!(once.next(), twice.next());
    }
}

#[test]
fn end_of_stream_reported_exactly_once() {
    let mut b = Bridge::new("c".to_string());
    b.deliver(SourceEvent::Closed);
    assert_eq!(b.next(), Pull::EndOfStream);
    assert_eq!(b.next(), Pull::Spent);
    assert_eq!(b.next(), Pull::Spent);
}

#[test]
fn error_after_notifications_carries_transport_text() {
    let mut b = Bridge::new("c".to_string());
    b.deliver(msg(note("c", "1", 9)));
    b.deliver(other("o"));
    b.deliver(msg(note("c", "2", 9)));
    assert_eq!(b.deliver(SourceEvent::Error(transport("connection reset"))), DriverAction::Stop);
    assert_eq!(b.deliver(msg(note("c", "3", 9))), DriverAction::Stop);
    assert_eq!(b.next(), Pull::Item(note("c", "1", 9)));
    assert_eq!(b.next(), Pull::Item(note("c", "2", 9)));
    assert_eq!(
        b.next(),
        Pull::Failed(StreamError::Transport(transport("connection reset")))
    );
    assert_eq!(b.next(), Pull::Spent);
}

#[test]
fn driver_exit_without_outcome_is_channel_closed() {
    let mut b = Bridge::new("c".to_string());
    b.deliver(msg(note("c", "x", 2)));
    b.finish_driver();
    assert_eq!(b.phase(), Phase::Draining);
    assert_eq!(b.next(), Pull::Item(note("c", "x", 2)));
    assert_eq!(b.next(), Pull::Failed(StreamError::ChannelClosed));
    assert_eq!(b.phase(), Phase::Closed);
}

#[test]
fn driver_exit_after_close_keeps_clean_end() {
    let mut b = Bridge::new("c".to_string());
    b.deliver(SourceEvent::Closed);
    b.finish_driver();
    assert_eq!(b.next(), Pull::EndOfStream);
    assert_eq!(b.phase(), Phase::Closed);
}

#[test]
fn subscribed_channel_is_kept() {
    let b = Bridge::new("test_notifications".to_string());
    assert_eq!(b.subscribed_channel(), "test_notifications");
}

#[test]
fn from_poll_maps_each_outcome() {
    assert_eq!(
        SourceEvent::from_poll(Some(Ok(RawMessage::Other("n".to_string())))),
        other("n")
    );
    assert_eq!(
        SourceEvent::from_poll(Some(Err(transport("boom")))),
        SourceEvent::Error(transport("boom"))
    );
    assert_eq!(SourceEvent::from_poll(None), SourceEvent::Closed);
}

#[test]
fn duplicate_is_equal() {
    let e = transport("timeout");
    assert_eq!(e.duplicate(), e);
}
