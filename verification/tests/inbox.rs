use udp_core::inbox::{
    ingest_datagram, receive_step, Inbox, Message, RecvAction, RecvEvent, MAX_DATAGRAM,
};

#[test]
fn coalescing_keeps_last_arrival() {
    let mut inbox = Inbox::new();
    for (text, source) in [("one", "10.0.0.1:1000"), ("two", "10.0.0.2:2000"), (
        "three",
        "10.0.0.3:3000",
    )] {
        inbox.post(Message { text: text.to_string(), source: source.to_string() });
    }
    let got = inbox.try_take().expect("a message must be pending");
    assert_eq!(got.text, "three");
    assert_eq!(got.source, "10.0.0.3:3000");
    // The earlier arrivals are not separately retrievable.
    assert!(inbox.try_take().is_none());
}

#[test]
fn empty_poll_is_idempotent() {
    let mut inbox = Inbox::new();
    for _ in 0..5 {
        assert!(inbox.try_take().is_none());
    }
    // A message posted after many empty polls still comes through intact.
    inbox.post(Message { text: "hello".to_string(), source: "127.0.0.1:9".to_string() });
    let got = inbox.try_take().expect("a message must be pending");
    assert_eq!(got.text, "hello");
}

#[test]
fn oversized_datagram_is_truncated() {
    let mut inbox = Inbox::new();
    let data = vec![b'a'; 2000];
    ingest_datagram(&mut inbox, &data, "127.0.0.1:7000".to_string());
    let got = inbox.try_take().expect("a message must be pending");
    assert_eq!(got.text.len(), MAX_DATAGRAM);
    assert_eq!(got.text, "a".repeat(1024));
    assert_eq!(got.source, "127.0.0.1:7000");
}

#[test]
fn datagram_at_the_limit_is_kept_whole() {
    let mut inbox = Inbox::new();
    let data = vec![b'b'; MAX_DATAGRAM];
    ingest_datagram(&mut inbox, &data, "127.0.0.1:7000".to_string());
    let got = inbox.try_take().expect("a message must be pending");
    assert_eq!(got.text, "b".repeat(1024));
}

#[test]
fn invalid_utf8_is_replaced_not_rejected() {
    let mut inbox = Inbox::new();
    let data = [0xff, 0xfe, b'o', b'k'];
    ingest_datagram(&mut inbox, &data, "127.0.0.1:7000".to_string());
    let got = inbox.try_take().expect("a message must be pending");
    assert_eq!(got.text, "\u{fffd}\u{fffd}ok");
}

#[test]
fn receive_step_stores_datagram_and_continues() {
    let mut inbox = Inbox::new();
    let event = RecvEvent::Datagram(b"hello".to_vec(), "10.1.1.1:11".to_string());
    assert_eq!(receive_step(&mut inbox, event), RecvAction::Continue);
    let got = inbox.try_take().expect("a message must be pending");
    assert_eq!(got.text, "hello");
    assert_eq!(got.source, "10.1.1.1:11");
}

#[test]
fn receive_step_backs_off_when_idle_and_keeps_the_slot() {
    let mut inbox = Inbox::new();
    inbox.post(Message { text: "kept".to_string(), source: "10.1.1.1:11".to_string() });
    assert_eq!(receive_step(&mut inbox, RecvEvent::WouldBlock), RecvAction::Backoff);
    assert_eq!(inbox.try_take().expect("the slot must survive").text, "kept");
}

#[test]
fn receive_step_stops_on_failure_and_keeps_the_slot() {
    let mut inbox = Inbox::new();
    inbox.post(Message { text: "kept".to_string(), source: "10.1.1.1:11".to_string() });
    assert_eq!(receive_step(&mut inbox, RecvEvent::Failed), RecvAction::Stop);
    assert_eq!(inbox.try_take().expect("the slot must survive").text, "kept");
}

#[test]
fn ingest_overwrites_pending_message() {
    let mut inbox = Inbox::new();
    ingest_datagram(&mut inbox, b"first", "10.0.0.1:1".to_string());
    ingest_datagram(&mut inbox, b"second", "10.0.0.2:2".to_string());
    let got = inbox.try_take().expect("a message must be pending");
    assert_eq!(got.text, "second");
    assert_eq!(got.source, "10.0.0.2:2");
}
