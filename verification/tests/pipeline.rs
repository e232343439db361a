//! The ingestion pipeline and the dispatcher's queue.

use csgo_gsi::{IngestError, Update, UpdateQueue, QUEUE_CAPACITY, process_update_body};

fn update_with_timestamp(t: u64) -> Update {
    let body = format!(
        "{{\"auth\": {{}}, \"provider\": {{\"name\": \"csgo\", \"appid\": 730, \
         \"version\": 1, \"steamid\": \"765\", \"timestamp\": {}}}}}",
        t
    );
    process_update_body(body.as_bytes()).expect("provider body must decode")
}

fn timestamp_of(u: &Update) -> u64 {
    u.provider.as_ref().expect("provider present").timestamp
}

#[test]
fn malformed_body_yields_parse_failure() {
    let r = process_update_body(b"{ not json");
    assert_eq!(r, Err(IngestError::ParseFailure));
    assert_eq!(IngestError::ParseFailure.status(), 500);
}

#[test]
fn empty_body_yields_parse_failure() {
    assert_eq!(process_update_body(b""), Err(IngestError::ParseFailure));
}

#[test]
fn incomplete_map_section_yields_schema_failure_and_no_update() {
    let r = process_update_body(br#"{"map": {}}"#);
    assert_eq!(r, Err(IngestError::SchemaFailure));
    assert_eq!(IngestError::SchemaFailure.status(), 500);
    let mut q = UpdateQueue::new();
    if let Ok(u) = r {
        q.try_enqueue(u);
    }
    assert_eq!(q.len(), 0);
    assert!(q.dequeue().is_none());
}

#[test]
fn queue_hands_updates_out_in_arrival_order() {
    let mut q = UpdateQueue::new();
    for t in [1, 2, 3] {
        assert!(q.try_enqueue(update_with_timestamp(t)));
    }
    assert_eq!(q.len(), 3);
    for t in [1, 2, 3] {
        let u = q.dequeue().expect("queued update present");
        assert_eq!(timestamp_of(&u), t);
    }
    assert!(q.dequeue().is_none());
}

#[test]
fn full_queue_refuses_without_losing_updates() {
    let mut q = UpdateQueue::new();
    assert_eq!(q.capacity(), QUEUE_CAPACITY);
    for t in 0..QUEUE_CAPACITY as u64 {
        assert!(q.try_enqueue(update_with_timestamp(t)));
    }
    assert_eq!(q.len(), QUEUE_CAPACITY);
    assert!(!q.try_enqueue(update_with_timestamp(999)));
    assert_eq!(q.len(), QUEUE_CAPACITY);

    let first = q.dequeue().expect("full queue has a front");
    assert_eq!(timestamp_of(&first), 0);
    assert!(q.try_enqueue(update_with_timestamp(999)));
    assert_eq!(q.len(), QUEUE_CAPACITY);

    let mut last = None;
    while let Some(u) = q.dequeue() {
        last = Some(u);
    }
    assert_eq!(timestamp_of(&last.expect("drained something")), 999);
}
