use stream_consumer::builder::ConsumerBuilder;
use stream_consumer::cursor::ReadCursor;
use stream_consumer::engine::{Consumer, ConsumerMessage, StreamEntry};
use stream_consumer::error::ConsumerError;
use stream_consumer::reply::AutoclaimReply;

fn two_stream_consumer() -> Consumer {
    // Streams registered: the default placeholder, then A, then B.
    let mut c = ConsumerBuilder::new()
        .add_stream("A")
        .add_stream("B")
        .name("tester")
        .item_count(10)
        .block_time(5_000)
        .build()
        .unwrap();
    c.mark_connected();
    c
}

fn entry(id: &str) -> StreamEntry {
    StreamEntry {
        id: id.to_string(),
        fields: vec![(
            "field".to_string(),
            redis::Value::BulkString(b"payload".to_vec()),
        )],
    }
}

fn active_key(c: &Consumer, name: &str) -> String {
    let e = c
        .cursors
        .entries
        .iter()
        .find(|e| e.name == name)
        .expect("stream registered");
    match &e.active {
        ReadCursor::NewOnly => ">".to_string(),
        ReadCursor::Explicit(id) => id.clone(),
    }
}

fn reclaim_key(c: &Consumer, name: &str) -> String {
    c.cursors
        .entries
        .iter()
        .find(|e| e.name == name)
        .expect("stream registered")
        .reclaim
        .clone()
}

#[test]
fn read_request_requires_connection() {
    let c = ConsumerBuilder::new().build().unwrap();
    assert!(matches!(c.read_request(), Err(ConsumerError::NotConnected)));
    assert!(matches!(
        c.reclaim_requests(),
        Err(ConsumerError::NotConnected)
    ));
    assert!(matches!(
        c.reclaim_request_for(&"redis_stream".to_string()),
        Err(ConsumerError::NotConnected)
    ));
}

#[test]
fn read_request_snapshots_cursors_in_order() {
    let c = two_stream_consumer();
    let q = c.read_request().unwrap();
    assert_eq!(q.stream_names, vec!["redis_stream", "A", "B"]);
    assert_eq!(q.cursors, vec!["0-0", "0-0", "0-0"]);
    assert_eq!(q.group, "notification_group");
    assert_eq!(q.consumer, "tester");
    assert_eq!(q.count, 10);
    assert_eq!(q.block_ms, 5_000);
}

#[test]
fn drained_stream_reads_new_entries_only_afterwards() {
    // A BACKLOG-mode stream whose read returns zero entries moves to LIVE:
    // the event is EmptyStream and the next read uses the ">" marker.
    let mut c = two_stream_consumer();
    assert_eq!(active_key(&c, "A"), "0-0");
    let out = c.handle_stream_reply("A".to_string(), Vec::new()).unwrap();
    match out.event {
        ConsumerMessage::EmptyStream(name) => assert_eq!(name, "A"),
        _ => panic!("expected an empty-stream event"),
    }
    assert!(out.reclaim_needed);
    assert_eq!(active_key(&c, "A"), ">");
    let q = c.read_request().unwrap();
    assert_eq!(q.stream_names, vec!["redis_stream", "A", "B"]);
    assert_eq!(q.cursors, vec!["0-0", ">", "0-0"]);
}

#[test]
fn reclaim_claiming_entries_resets_active_cursor() {
    // claimed_count = 3: the active cursor resets to the zero ID and the
    // reclaim cursor adopts the returned scan position.
    let mut c = two_stream_consumer();
    c.handle_stream_reply("A".to_string(), Vec::new()).unwrap();
    assert_eq!(active_key(&c, "A"), ">");
    let reply = AutoclaimReply {
        next: "17-3".to_string(),
        claimed_items: 3,
    };
    c.absorb_reclaim(&"A".to_string(), &reply).unwrap();
    assert_eq!(active_key(&c, "A"), "0-0");
    assert_eq!(reclaim_key(&c, "A"), "17-3");
}

#[test]
fn reclaim_claiming_nothing_still_advances_scan_cursor() {
    // claimed_count = 0: the active cursor is unchanged but the reclaim
    // cursor still advances to the returned scan position.
    let mut c = two_stream_consumer();
    c.handle_stream_reply("B".to_string(), Vec::new()).unwrap();
    assert_eq!(active_key(&c, "B"), ">");
    let reply = AutoclaimReply {
        next: "99-1".to_string(),
        claimed_items: 0,
    };
    c.absorb_reclaim(&"B".to_string(), &reply).unwrap();
    assert_eq!(active_key(&c, "B"), ">");
    assert_eq!(reclaim_key(&c, "B"), "99-1");
}

#[test]
fn skipping_autoclaim_never_asks_for_a_reclaim() {
    // With skip_autoclaim = true no reclaim call is ever asked for, even
    // when every configured stream reports empty on a cycle.
    let mut c = ConsumerBuilder::new()
        .add_stream("A")
        .add_stream("B")
        .skip_autoclaim(true)
        .build()
        .unwrap();
    c.mark_connected();
    assert!(!c.autoclaim_enabled());
    // The timeout path asks for no reclaim at all.
    assert_eq!(c.reclaim_requests().unwrap().len(), 0);
    // Skipping wins over everything: even a never-connected consumer asks
    // for no reclaim rather than failing.
    let unconnected = ConsumerBuilder::new().skip_autoclaim(true).build().unwrap();
    assert_eq!(unconnected.reclaim_requests().unwrap().len(), 0);
    // A per-stream empty reply asks for none either.
    let names = ["redis_stream", "A", "B"];
    for name in names {
        let out = c.handle_stream_reply(name.to_string(), Vec::new()).unwrap();
        assert!(!out.reclaim_needed);
        assert!(matches!(out.event, ConsumerMessage::EmptyStream(_)));
    }
}

#[test]
fn one_cycle_with_an_empty_and_a_delivering_stream() {
    // Cycle: the broker returns A: [] and B: [e1, e2]. Expected events, in
    // order: EmptyStream(A), then Message with both entries in order; A now
    // tails new entries only while B's cursor is unchanged.
    let mut c = two_stream_consumer();
    let mut events: Vec<ConsumerMessage> = Vec::new();

    let out_a = c.handle_stream_reply("A".to_string(), Vec::new()).unwrap();
    events.push(out_a.event);
    let out_b = c
        .handle_stream_reply("B".to_string(), vec![entry("1-1"), entry("1-2")])
        .unwrap();
    assert!(!out_b.reclaim_needed);
    events.push(out_b.event);

    match &events[0] {
        ConsumerMessage::EmptyStream(name) => assert_eq!(name, "A"),
        _ => panic!("expected an empty-stream event first"),
    }
    match &events[1] {
        ConsumerMessage::Message(m) => {
            assert_eq!(m.stream_name, "B");
            assert_eq!(m.len, 2);
            assert_eq!(m.items.len(), 2);
            assert_eq!(m.items[0].id, "1-1");
            assert_eq!(m.items[1].id, "1-2");
            assert_eq!(m.items[0].fields.len(), 1);
            assert_eq!(m.items[0].fields[0].0, "field");
        }
        _ => panic!("expected a message event second"),
    }
    assert_eq!(active_key(&c, "A"), ">");
    assert_eq!(active_key(&c, "B"), "0-0");
}

#[test]
fn timeout_cycle_reclaims_every_stream_and_emits_in_configuration_order() {
    // The read timed out with no streams returned and autoclaim is on:
    // one reclaim per stream; A's claims one entry, B's claims none.
    let mut c = two_stream_consumer();
    // Drain both so the reset of A is visible.
    c.handle_stream_reply("A".to_string(), Vec::new()).unwrap();
    c.handle_stream_reply("B".to_string(), Vec::new()).unwrap();

    let requests = c.reclaim_requests().unwrap();
    assert_eq!(requests.len(), 3);
    assert_eq!(requests[0].stream_name, "redis_stream");
    assert_eq!(requests[1].stream_name, "A");
    assert_eq!(requests[2].stream_name, "B");
    for q in &requests {
        assert_eq!(q.group, "notification_group");
        assert_eq!(q.consumer, "tester");
        assert_eq!(q.min_idle_ms, 60_000);
        assert_eq!(q.scan_cursor, "0-0");
        assert_eq!(q.count, 10);
    }

    c.absorb_reclaim(
        &"A".to_string(),
        &AutoclaimReply {
            next: "5-0".to_string(),
            claimed_items: 1,
        },
    )
    .unwrap();
    c.absorb_reclaim(
        &"B".to_string(),
        &AutoclaimReply {
            next: "6-0".to_string(),
            claimed_items: 0,
        },
    )
    .unwrap();

    assert_eq!(active_key(&c, "A"), "0-0");
    assert_eq!(active_key(&c, "B"), ">");
    assert_eq!(reclaim_key(&c, "A"), "5-0");
    assert_eq!(reclaim_key(&c, "B"), "6-0");

    let events = c.timeout_events();
    assert_eq!(events.len(), 3);
    let expected = ["redis_stream", "A", "B"];
    for (ev, want) in events.iter().zip(expected.iter()) {
        match ev {
            ConsumerMessage::EmptyStream(name) => assert_eq!(name, want),
            _ => panic!("expected empty-stream events only"),
        }
    }
}

#[test]
fn unknown_stream_name_is_reported_and_changes_nothing() {
    let mut c = two_stream_consumer();
    let before = c.read_request().unwrap();

    let r = c.handle_stream_reply("intruder".to_string(), vec![entry("1-1")]);
    match r {
        Err(ConsumerError::InvalidStreamName(name)) => assert_eq!(name, "intruder"),
        _ => panic!("expected an invalid-stream-name error"),
    }
    let r2 = c.handle_stream_reply("intruder".to_string(), Vec::new());
    assert!(matches!(r2, Err(ConsumerError::InvalidStreamName(_))));
    let r3 = c.absorb_reclaim(
        &"intruder".to_string(),
        &AutoclaimReply {
            next: "3-3".to_string(),
            claimed_items: 2,
        },
    );
    assert!(matches!(r3, Err(ConsumerError::InvalidStreamName(_))));
    let r4 = c.reclaim_request_for(&"intruder".to_string());
    assert!(matches!(r4, Err(ConsumerError::InvalidStreamName(_))));

    let after = c.read_request().unwrap();
    assert_eq!(before.stream_names, after.stream_names);
    assert_eq!(before.cursors, after.cursors);
    for e in &c.cursors.entries {
        assert_eq!(e.reclaim, "0-0");
    }
}

#[test]
fn reclaim_request_for_one_stream_uses_its_scan_cursor() {
    let mut c = two_stream_consumer();
    c.absorb_reclaim(
        &"B".to_string(),
        &AutoclaimReply {
            next: "42-0".to_string(),
            claimed_items: 0,
        },
    )
    .unwrap();
    let q = c.reclaim_request_for(&"B".to_string()).unwrap();
    assert_eq!(q.stream_name, "B");
    assert_eq!(q.scan_cursor, "42-0");
    assert_eq!(q.group, "notification_group");
    assert_eq!(q.consumer, "tester");
    assert_eq!(q.min_idle_ms, 60_000);
    assert_eq!(q.count, 10);
}
