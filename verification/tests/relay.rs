use turbochat::bridge::{Bridge, BridgeAction, BridgeEvent, BridgeState, BACKOFF_SECS};
use turbochat::broadcaster::Broadcaster;
use turbochat::envelope::{ContractError, Message, SenderType};
use turbochat::session::{
    display_name, on_persisted, push_decimal, subscribe_pattern, topic_for, DropReason, Frame,
    Inbound, Participant, Session, SessionEvent, SessionState, WsQuery,
};

fn scope(shop: &str, guest: Option<u64>) -> WsQuery {
    WsQuery { shop_id: String::from(shop), guest_id: guest }
}

fn open(shop: &str, guest: Option<u64>) -> Session {
    let mut s = Session::new(scope(shop, guest));
    s.on_event(SessionEvent::Upgraded);
    s
}

fn envelope(shop: &str, guest: u64, id: u64, sender: SenderType, text: &str) -> Message {
    Message::new(String::from(shop), guest, id, sender, text.as_bytes().to_vec(), id * 10)
}

fn relayed(decision: Inbound) -> Message {
    match decision {
        Inbound::Relay(plan) => plan.envelope,
        other => panic!("not relayed: {:?}", other),
    }
}

#[test]
fn display_names() {
    assert_eq!(display_name(42), "Guest #42");
    assert_eq!(display_name(0), "Guest #0");
    assert_eq!(display_name(9999), "Guest #9999");
    assert_eq!(display_name(10000), "Guest #0");
    assert_eq!(display_name(123456), "Guest #3456");
    assert_eq!(display_name(1_700_000_000_007), "Guest #7");
    assert_eq!(display_name(20305), "Guest #305");
}

#[test]
fn decimal_numerals() {
    for n in [0u64, 9, 10, 99, 100, 1234567890, u64::MAX] {
        let mut out = String::from("n=");
        push_decimal(n, &mut out);
        assert_eq!(out, format!("n={}", n));
    }
}

#[test]
fn topics() {
    assert_eq!(topic_for("A"), "chat:A");
    assert_eq!(topic_for(""), "chat:");
    assert_eq!(topic_for("demo123"), "chat:demo123");
    assert_eq!(subscribe_pattern(), "chat:*");
}

#[test]
fn session_life_cycle() {
    let mut s = Session::new(scope("A", None));
    assert_eq!(s.state, SessionState::Connecting);
    assert!(!s.is_open());
    s.on_event(SessionEvent::Upgraded);
    assert_eq!(s.state, SessionState::Open);
    assert!(s.is_open());
    s.on_event(SessionEvent::Drained);
    assert_eq!(s.state, SessionState::Open);
    s.on_event(SessionEvent::WriteFailed);
    assert_eq!(s.state, SessionState::Closing);
    s.on_event(SessionEvent::Upgraded);
    assert_eq!(s.state, SessionState::Closing);
    s.on_event(SessionEvent::Drained);
    assert_eq!(s.state, SessionState::Closed);
    assert!(s.is_closed());
    for e in [
        SessionEvent::Upgraded,
        SessionEvent::CloseFrame,
        SessionEvent::ReadFailed,
        SessionEvent::WriteFailed,
        SessionEvent::Shutdown,
        SessionEvent::Drained,
    ] {
        s.on_event(e);
        assert_eq!(s.state, SessionState::Closed);
    }
    assert_eq!(s.query, scope("A", None));
}

#[test]
fn every_ending_event_closes_an_open_session() {
    for e in [
        SessionEvent::CloseFrame,
        SessionEvent::ReadFailed,
        SessionEvent::WriteFailed,
        SessionEvent::Shutdown,
    ] {
        let mut s = open("A", Some(1));
        s.on_event(e);
        assert_eq!(s.state, SessionState::Closing);
        let mut c = Session::new(scope("A", Some(1)));
        c.on_event(e);
        assert_eq!(c.state, SessionState::Closing);
    }
}

#[test]
fn frames_that_are_not_binary() {
    let mut s = open("A", Some(42));
    assert_eq!(s.handle_frame(Frame::Text), Inbound::Ignore);
    assert_eq!(s.handle_frame(Frame::Ping), Inbound::Ignore);
    assert_eq!(s.handle_frame(Frame::Pong), Inbound::Ignore);
    assert!(s.is_open());
    assert_eq!(s.handle_frame(Frame::Close), Inbound::Close);
    assert_eq!(s.state, SessionState::Closing);
    let bytes = envelope("A", 42, 1, SenderType::Guest, "late").encode_to_vec();
    assert_eq!(s.handle_frame(Frame::Binary(bytes)), Inbound::Ignore);
    assert_eq!(s.handle_frame(Frame::Close), Inbound::Ignore);
    assert_eq!(s.state, SessionState::Closing);
}

#[test]
fn a_session_that_is_not_open_ignores_frames() {
    let mut s = Session::new(scope("A", None));
    let bytes = envelope("A", 42, 1, SenderType::Guest, "early").encode_to_vec();
    assert_eq!(s.handle_frame(Frame::Binary(bytes.clone())), Inbound::Ignore);
    assert_eq!(s.handle_frame(Frame::Close), Inbound::Ignore);
    assert_eq!(s.state, SessionState::Connecting);
    assert_eq!(s.on_delivery(&bytes), None);
}

#[test]
fn a_guest_message_is_relayed_with_its_participant() {
    let mut s = open("A", Some(42));
    let sent = envelope("spoofed", 42, 1000, SenderType::Guest, "hi");
    let decision = s.handle_frame(Frame::Binary(sent.encode_to_vec()));
    let mut expected = sent.clone();
    expected.shop_id = String::from("A");
    match decision {
        Inbound::Relay(plan) => {
            assert_eq!(plan.envelope, expected);
            assert_eq!(
                plan.participant,
                Some(Participant {
                    shop_id: String::from("A"),
                    guest_id: 42,
                    display_name: String::from("Guest #42"),
                })
            );
        }
        other => panic!("not relayed: {:?}", other),
    }
    assert!(s.is_open());
}

#[test]
fn an_admin_message_has_no_participant() {
    let mut s = open("A", None);
    let sent = envelope("A", 42, 1, SenderType::Admin, "hello");
    match s.handle_frame(Frame::Binary(sent.encode_to_vec())) {
        Inbound::Relay(plan) => {
            assert_eq!(plan.envelope, sent);
            assert_eq!(plan.participant, None);
        }
        other => panic!("not relayed: {:?}", other),
    }
}

#[test]
fn a_corrupted_payload_is_dropped() {
    let mut s = open("A", Some(42));
    let mut sent = envelope("A", 42, 1, SenderType::Guest, "hello");
    sent.content[1] ^= 0x04;
    assert_eq!(
        s.handle_frame(Frame::Binary(sent.encode_to_vec())),
        Inbound::Drop(DropReason::Corrupted)
    );
    let mut zero = envelope("A", 0, 1, SenderType::Guest, "hello");
    zero.content_crc ^= 1;
    assert_eq!(scope("A", None).accept(&zero.encode_to_vec()), Err(DropReason::Corrupted));
    assert!(s.is_open());
    let good = envelope("A", 42, 2, SenderType::Guest, "hello");
    assert_eq!(relayed(s.handle_frame(Frame::Binary(good.encode_to_vec()))), good);
}

#[test]
fn guest_zero_is_refused() {
    let mut s = open("A", None);
    let sent = envelope("A", 0, 1, SenderType::Guest, "x");
    assert_eq!(
        s.handle_frame(Frame::Binary(sent.encode_to_vec())),
        Inbound::Drop(DropReason::InvalidGuest)
    );
    let mut g = open("A", Some(0));
    assert_eq!(
        g.handle_frame(Frame::Binary(sent.encode_to_vec())),
        Inbound::Drop(DropReason::InvalidGuest)
    );
    assert!(s.is_open());
}

#[test]
fn a_guest_cannot_send_as_another_guest() {
    let mut s = open("A", Some(42));
    let sent = envelope("A", 43, 1, SenderType::Guest, "x");
    assert_eq!(
        s.handle_frame(Frame::Binary(sent.encode_to_vec())),
        Inbound::Drop(DropReason::ForeignGuest)
    );
    assert_eq!(scope("A", Some(42)).accept(&sent.encode_to_vec()), Err(DropReason::ForeignGuest));
    assert!(s.is_open());
}

#[test]
fn accept_puts_the_tenant_on_the_envelope() {
    let sent = envelope("other", 5, 1, SenderType::Admin, "x");
    let got = scope("mine", None).accept(&sent.encode_to_vec()).unwrap();
    assert_eq!(got.shop_id, "mine");
    assert_eq!(got.guest_id, 5);
    assert_eq!(got.content, sent.content);
    assert_eq!(got.content_crc, sent.content_crc);
    assert_eq!(scope("mine", None).accept(&[0xff]), Err(DropReason::Malformed));
}

#[test]
fn a_malformed_frame_does_not_close_the_session() {
    let mut s = open("A", Some(42));
    assert_eq!(
        s.handle_frame(Frame::Binary(vec![0xff, 0xff, 0xff])),
        Inbound::Drop(DropReason::Malformed)
    );
    assert_eq!(s.handle_frame(Frame::Binary(Vec::new())), Inbound::Drop(DropReason::Malformed));
    assert!(s.is_open());
    let sent = envelope("A", 42, 2, SenderType::Guest, "still here");
    assert_eq!(relayed(s.handle_frame(Frame::Binary(sent.encode_to_vec()))), sent);
    assert!(s.is_open());
}

#[test]
fn tenant_isolation() {
    let a = open("A", None);
    let b = open("B", None);
    let for_a = envelope("A", 1, 1, SenderType::Guest, "a").encode_to_vec();
    let for_b = envelope("B", 1, 1, SenderType::Guest, "b").encode_to_vec();
    let for_c = envelope("C", 1, 1, SenderType::Guest, "c").encode_to_vec();
    assert_eq!(a.on_delivery(&for_a), Some(for_a.clone()));
    assert_eq!(a.on_delivery(&for_b), None);
    assert_eq!(a.on_delivery(&for_c), None);
    assert_eq!(b.on_delivery(&for_b), Some(for_b.clone()));
    assert_eq!(b.on_delivery(&for_a), None);
    assert!(!scope("A", None).permits(&envelope("a", 1, 1, SenderType::Guest, "case")));
}

#[test]
fn guest_isolation() {
    let guest = open("A", Some(7));
    let admin = open("A", None);
    for g in [1u64, 6, 7, 8, 70, u64::MAX] {
        let m = envelope("A", g, 1, SenderType::Admin, "x");
        let bytes = m.encode_to_vec();
        assert_eq!(admin.on_delivery(&bytes), Some(bytes.clone()));
        assert!(scope("A", None).permits(&m));
        if g == 7 {
            assert_eq!(guest.on_delivery(&bytes), Some(bytes.clone()));
            assert!(scope("A", Some(7)).permits(&m));
        } else {
            assert_eq!(guest.on_delivery(&bytes), None);
            assert!(!scope("A", Some(7)).permits(&m));
        }
    }
    let other_shop = envelope("B", 7, 1, SenderType::Guest, "x").encode_to_vec();
    assert_eq!(guest.on_delivery(&other_shop), None);
}

#[test]
fn undecodable_payloads_are_not_delivered() {
    let s = open("A", None);
    assert_eq!(s.on_delivery(&[0xff]), None);
    assert_eq!(s.on_delivery(&[]), None);
    assert_eq!(scope("A", None).filter(&[0x0a, 0x05, b'A']), None);
}

#[test]
fn delivery_hands_on_the_bytes_as_they_came() {
    let mut bytes = envelope("A", 7, 1, SenderType::Guest, "x").encode_to_vec();
    bytes.extend_from_slice(&[0x40, 0x01]);
    assert_eq!(scope("A", Some(7)).filter(&bytes), Some(bytes.clone()));
}

#[test]
fn nothing_is_published_when_storing_failed() {
    let m = envelope("A", 42, 1000, SenderType::Guest, "hi");
    assert_eq!(on_persisted(&m, &Err(ContractError::DbError(String::from("down")))), None);
    assert_eq!(on_persisted(&m, &Err(ContractError::DecodeError)), None);
    let p = on_persisted(&m, &Ok(())).unwrap();
    assert_eq!(p.topic, "chat:A");
    assert_eq!(p.payload, m.encode_to_vec());
}

#[test]
fn end_to_end_fan_out() {
    let mut hub = Broadcaster::new(16);
    let admin = open("A", None);
    let same_guest = open("A", Some(42));
    let other_guest = open("A", Some(99));
    let admin_id = hub.subscribe().unwrap();
    let same_id = hub.subscribe().unwrap();
    let other_id = hub.subscribe().unwrap();

    let mut sender = open("A", Some(42));
    let sent = envelope("A", 42, 1000, SenderType::Guest, "hi");
    let stored = relayed(sender.handle_frame(Frame::Binary(sent.encode_to_vec())));
    let publication = on_persisted(&stored, &Ok(())).unwrap();
    assert_eq!(publication.topic, "chat:A");

    let mut bridge = Bridge { state: BridgeState::Streaming };
    let payload = match bridge.step(BridgeEvent::Payload(publication.payload)) {
        BridgeAction::Forward(p) => p,
        other => panic!("not forwarded: {:?}", other),
    };
    assert_eq!(hub.broadcast(&payload), 3);

    let to_admin = admin.on_delivery(&hub.recv(admin_id).unwrap()).unwrap();
    let to_same = same_guest.on_delivery(&hub.recv(same_id).unwrap()).unwrap();
    for bytes in [to_admin, to_same] {
        let got = Message::decode(&bytes).unwrap();
        assert_eq!(got.shop_id, "A");
        assert_eq!(got.guest_id, 42);
        assert_eq!(got.content, b"hi".to_vec());
        assert_eq!(got.message_id, 1000);
    }
    assert_eq!(other_guest.on_delivery(&hub.recv(other_id).unwrap()), None);
    assert_eq!(hub.recv(other_id), None);
}

#[test]
fn end_to_end_order() {
    let mut hub = Broadcaster::new(16);
    let viewer = open("A", None);
    let id = hub.subscribe().unwrap();
    let mut sender = open("A", Some(42));
    for message_id in [1000u64, 1001] {
        let sent = envelope("A", 42, message_id, SenderType::Guest, "m");
        let stored = relayed(sender.handle_frame(Frame::Binary(sent.encode_to_vec())));
        let publication = on_persisted(&stored, &Ok(())).unwrap();
        hub.broadcast(&publication.payload);
    }
    let first = Message::decode(&viewer.on_delivery(&hub.recv(id).unwrap()).unwrap()).unwrap();
    let second = Message::decode(&viewer.on_delivery(&hub.recv(id).unwrap()).unwrap()).unwrap();
    assert_eq!(first.message_id, 1000);
    assert_eq!(second.message_id, 1001);
    assert_eq!(hub.recv(id), None);
}

#[test]
fn end_to_end_storage_failure() {
    let mut hub = Broadcaster::new(16);
    let id = hub.subscribe().unwrap();
    let mut sender = open("A", Some(42));
    let mut published = 0;
    let outcomes: Vec<Result<(), ContractError>> =
        vec![Err(ContractError::DbError(String::from("unreachable"))), Ok(())];
    for (i, outcome) in outcomes.iter().enumerate() {
        let sent = envelope("A", 42, 1000 + i as u64, SenderType::Guest, "m");
        let stored = relayed(sender.handle_frame(Frame::Binary(sent.encode_to_vec())));
        if let Some(p) = on_persisted(&stored, outcome) {
            published += 1;
            hub.broadcast(&p.payload);
        }
        assert!(sender.is_open());
    }
    assert_eq!(published, 1);
    let only = Message::decode(&hub.recv(id).unwrap()).unwrap();
    assert_eq!(only.message_id, 1001);
    assert_eq!(hub.recv(id), None);
}

#[test]
fn hub_registration() {
    let mut hub = Broadcaster::new(2);
    assert_eq!(hub.subscriber_count(), 0);
    assert_eq!(hub.broadcast(b"nobody"), 0);
    let a = hub.subscribe().unwrap();
    let b = hub.subscribe().unwrap();
    assert_eq!((a, b), (1, 2));
    assert_eq!(hub.subscriber_count(), 2);
    assert_eq!(hub.pending(a), Some(0));
    assert_eq!(hub.pending(77), None);
    assert_eq!(hub.recv(77), None);
    assert!(!hub.unsubscribe(77));
    assert!(hub.unsubscribe(a));
    assert!(!hub.unsubscribe(a));
    assert_eq!(hub.subscriber_count(), 1);
    assert_eq!(hub.broadcast(b"x"), 1);
    assert_eq!(hub.recv(a), None);
    assert_eq!(hub.recv(b), Some(b"x".to_vec()));
    let c = hub.subscribe().unwrap();
    assert_eq!(c, 3);
    assert_eq!(hub.pending(c), Some(0));
}

#[test]
fn a_full_queue_drops_its_oldest_payload() {
    let mut hub = Broadcaster::new(2);
    let slow = hub.subscribe().unwrap();
    let fast = hub.subscribe().unwrap();
    hub.broadcast(b"1");
    assert_eq!(hub.recv(fast), Some(b"1".to_vec()));
    hub.broadcast(b"2");
    assert_eq!(hub.recv(fast), Some(b"2".to_vec()));
    hub.broadcast(b"3");
    assert_eq!(hub.recv(fast), Some(b"3".to_vec()));
    assert_eq!(hub.pending(slow), Some(2));
    assert_eq!(hub.recv(slow), Some(b"2".to_vec()));
    assert_eq!(hub.recv(slow), Some(b"3".to_vec()));
    assert_eq!(hub.recv(slow), None);
    assert_eq!(hub.recv(fast), None);
}

#[test]
fn a_queue_of_one() {
    let mut hub = Broadcaster::new(1);
    let id = hub.subscribe().unwrap();
    hub.broadcast(b"a");
    hub.broadcast(b"b");
    assert_eq!(hub.pending(id), Some(1));
    assert_eq!(hub.recv(id), Some(b"b".to_vec()));
}

#[test]
fn a_late_subscriber_sees_only_what_comes_after() {
    let mut hub = Broadcaster::new(4);
    let early = hub.subscribe().unwrap();
    hub.broadcast(b"before");
    let late = hub.subscribe().unwrap();
    hub.broadcast(b"after");
    assert_eq!(hub.recv(early), Some(b"before".to_vec()));
    assert_eq!(hub.recv(early), Some(b"after".to_vec()));
    assert_eq!(hub.recv(late), Some(b"after".to_vec()));
    assert_eq!(hub.recv(late), None);
}

#[test]
fn bridge_starts_by_subscribing() {
    let (bridge, action) = Bridge::start();
    assert_eq!(bridge.state, BridgeState::Subscribing);
    assert_eq!(action, BridgeAction::Subscribe);
}

#[test]
fn bridge_retries_after_every_failure() {
    assert_eq!(BACKOFF_SECS, 2);
    for state in [BridgeState::Disconnected, BridgeState::Subscribing, BridgeState::Streaming] {
        for failure in [BridgeEvent::SubscribeFailed, BridgeEvent::StreamEnded] {
            let mut bridge = Bridge { state };
            assert_eq!(bridge.step(failure), BridgeAction::Backoff(2));
            assert_eq!(bridge.state, BridgeState::Disconnected);
            assert_eq!(bridge.step(BridgeEvent::BackoffElapsed), BridgeAction::Subscribe);
            assert_eq!(bridge.state, BridgeState::Subscribing);
            assert_eq!(bridge.step(BridgeEvent::Subscribed), BridgeAction::Receive);
            assert_eq!(bridge.state, BridgeState::Streaming);
            assert_eq!(
                bridge.step(BridgeEvent::Payload(vec![1, 2, 3])),
                BridgeAction::Forward(vec![1, 2, 3])
            );
            assert_eq!(bridge.state, BridgeState::Streaming);
        }
    }
}

#[test]
fn bridge_forwards_payloads_untouched() {
    let mut bridge = Bridge { state: BridgeState::Streaming };
    for payload in [vec![], vec![0xff], vec![0; 4096]] {
        assert_eq!(
            bridge.step(BridgeEvent::Payload(payload.clone())),
            BridgeAction::Forward(payload)
        );
    }
}

#[test]
fn bridge_treats_the_unexpected_as_a_failure() {
    let mut bridge = Bridge { state: BridgeState::Subscribing };
    assert_eq!(bridge.step(BridgeEvent::Payload(vec![1])), BridgeAction::Backoff(2));
    assert_eq!(bridge.state, BridgeState::Disconnected);
    assert_eq!(bridge.step(BridgeEvent::Subscribed), BridgeAction::Backoff(2));
    assert_eq!(bridge.state, BridgeState::Disconnected);
    let mut bridge = Bridge { state: BridgeState::Streaming };
    assert_eq!(bridge.step(BridgeEvent::BackoffElapsed), BridgeAction::Backoff(2));
    assert_eq!(bridge.state, BridgeState::Disconnected);
}

#[test]
fn broadcasting_resumes_after_an_outage() {
    let mut hub = Broadcaster::new(4);
    let id = hub.subscribe().unwrap();
    let (mut bridge, _) = Bridge::start();
    let events = vec![
        BridgeEvent::SubscribeFailed,
        BridgeEvent::BackoffElapsed,
        BridgeEvent::Subscribed,
        BridgeEvent::Payload(b"one".to_vec()),
        BridgeEvent::StreamEnded,
        BridgeEvent::BackoffElapsed,
        BridgeEvent::SubscribeFailed,
        BridgeEvent::BackoffElapsed,
        BridgeEvent::Subscribed,
        BridgeEvent::Payload(b"two".to_vec()),
    ];
    for event in events {
        if let BridgeAction::Forward(p) = bridge.step(event) {
            hub.broadcast(&p);
        }
    }
    assert_eq!(hub.recv(id), Some(b"one".to_vec()));
    assert_eq!(hub.recv(id), Some(b"two".to_vec()));
}
