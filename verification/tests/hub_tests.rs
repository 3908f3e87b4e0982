use editor_server::hub::{Delivery, Hub};
use editor_server::protocol::{FileChange, OutgoingEvent, Position};

fn targets_of(ds: &[Delivery]) -> Vec<i32> {
    ds.iter().map(|d| d.target).collect()
}

#[test]
fn join_gives_distinct_ids_and_fills_the_room() {
    let mut hub = Hub::new();
    let a = hub.join(1, 100);
    let b = hub.join(1, 101);
    let c = hub.join(1, 102);
    assert_ne!(a, b);
    assert_ne!(b, c);
    assert_ne!(a, c);
    let room = hub.room_members(1);
    assert_eq!(room, vec![a, b, c]);
}

#[test]
fn rooms_are_created_lazily_and_kept_apart() {
    let mut hub = Hub::new();
    let a = hub.join(1, 100);
    let b = hub.join(2, 200);
    assert_eq!(hub.room_members(1), vec![a]);
    assert_eq!(hub.room_members(2), vec![b]);
    assert_eq!(hub.room_members(3), Vec::<i32>::new());
}

#[test]
fn leave_twice_is_a_no_op_and_spares_the_others() {
    let mut hub = Hub::new();
    let a = hub.join(1, 100);
    let b = hub.join(1, 101);
    hub.leave(a);
    assert_eq!(hub.room_members(1), vec![b]);
    hub.leave(a);
    assert_eq!(hub.room_members(1), vec![b]);
    // an identifier that never existed is a no-op too
    hub.leave(9999);
    assert_eq!(hub.room_members(1), vec![b]);
}

#[test]
fn ids_are_not_reused_after_leave() {
    let mut hub = Hub::new();
    let a = hub.join(1, 100);
    hub.leave(a);
    let b = hub.join(1, 100);
    assert_ne!(a, b);
}

#[test]
fn file_creation_broadcast_includes_the_originator() {
    let mut hub = Hub::new();
    let a = hub.join(1, 100);
    let b = hub.join(1, 101);
    let c = hub.join(1, 102);
    let ds = hub.route_file_creation(a, "f.txt".to_string(), Ok(7));
    assert_eq!(targets_of(&ds), vec![a, b, c]);
    for d in &ds {
        assert_eq!(
            d.event,
            OutgoingEvent::FileCreated { file_id: 7, name: "f.txt".to_string() }
        );
    }
}

#[test]
fn file_creation_failure_notifies_the_originator_only() {
    let mut hub = Hub::new();
    let a = hub.join(1, 100);
    let _b = hub.join(1, 101);
    let ds = hub.route_file_creation(a, "f.txt".to_string(), Err("no room".to_string()));
    assert_eq!(ds.len(), 1);
    assert_eq!(ds[0].target, a);
    assert_eq!(ds[0].event, OutgoingEvent::ErrorNotice { text: "no room".to_string() });
}

#[test]
fn file_deletion_broadcast_reaches_the_whole_room() {
    let mut hub = Hub::new();
    let a = hub.join(1, 100);
    let b = hub.join(1, 101);
    let ds = hub.route_file_deletion(b, 7, Ok(()));
    assert_eq!(targets_of(&ds), vec![a, b]);
    for d in &ds {
        assert_eq!(d.event, OutgoingEvent::FileDeleted { file_id: 7 });
    }
}

#[test]
fn content_reply_goes_to_the_requester_alone() {
    let mut hub = Hub::new();
    let a = hub.join(1, 100);
    let _b = hub.join(1, 101);
    let ds = hub.route_file_content_request(a, 7, Ok("line one".to_string()));
    assert_eq!(ds.len(), 1);
    assert_eq!(ds[0].target, a);
    assert_eq!(
        ds[0].event,
        OutgoingEvent::FileContent { file_id: 7, content: "line one".to_string() }
    );
}

fn sample_change(file_id: i32) -> FileChange {
    FileChange {
        start: Position { row: 0, column: 0 },
        end: Position { row: 0, column: 5 },
        file_id,
        lines: vec!["hello".to_string()],
        last_change_applied_id: None,
    }
}

#[test]
fn change_broadcast_skips_the_originator() {
    let mut hub = Hub::new();
    let a = hub.join(1, 100);
    let b = hub.join(1, 101);
    let c = hub.join(1, 102);
    let ds = hub.route_file_change(a, sample_change(7), Ok(()));
    assert_eq!(targets_of(&ds), vec![b, c]);
    for d in &ds {
        match &d.event {
            OutgoingEvent::ChangeBroadcast { change } => assert_eq!(change.file_id, 7),
            other => panic!("expected a change broadcast, got {:?}", other),
        }
    }
}

#[test]
fn change_failure_notifies_the_originator_only() {
    let mut hub = Hub::new();
    let a = hub.join(1, 100);
    let _b = hub.join(1, 101);
    let ds = hub.route_file_change(a, sample_change(7), Err("stale".to_string()));
    assert_eq!(ds.len(), 1);
    assert_eq!(ds[0].target, a);
    assert_eq!(ds[0].event, OutgoingEvent::ErrorNotice { text: "stale".to_string() });
}

#[test]
fn unknown_session_routes_nothing() {
    let mut hub = Hub::new();
    let a = hub.join(1, 100);
    hub.leave(a);
    assert!(hub.route_file_creation(a, "f".to_string(), Ok(1)).is_empty());
    assert!(hub.route_file_deletion(a, 1, Ok(())).is_empty());
    assert!(hub.route_file_content_request(a, 1, Ok("x".to_string())).is_empty());
    assert!(hub.route_file_change(a, sample_change(1), Ok(())).is_empty());
}

#[test]
fn changes_routed_in_sequence_broadcast_in_that_sequence() {
    // the hub serializes commands per room; two edits to the same file,
    // routed one after the other, are observed by every peer in that order
    let mut hub = Hub::new();
    let a = hub.join(1, 100);
    let b = hub.join(1, 101);
    let first = hub.route_file_change(a, sample_change(7), Ok(()));
    let second = hub.route_file_change(b, sample_change(7), Ok(()));
    assert_eq!(targets_of(&first), vec![b]);
    assert_eq!(targets_of(&second), vec![a]);
    let ordered: Vec<&Delivery> = first.iter().chain(second.iter()).collect();
    assert_eq!(ordered.len(), 2);
    assert!(matches!(ordered[0].event, OutgoingEvent::ChangeBroadcast { .. }));
    assert!(matches!(ordered[1].event, OutgoingEvent::ChangeBroadcast { .. }));
}
