use editor_server::codec::{decode, encode};
use editor_server::protocol::{
    DecodeError, FileChange, IncomingMessage, OutgoingEvent, Position,
};

fn lines(v: &[&str]) -> Vec<String> {
    v.iter().map(|s| s.to_string()).collect()
}

#[test]
fn decode_new_file() {
    let r = decode("1main.rs");
    assert_eq!(
        r,
        Ok(IncomingMessage::NewFile { name: "main.rs".to_string() })
    );
}

#[test]
fn decode_delete_file() {
    assert_eq!(decode("212"), Ok(IncomingMessage::DeleteFile { file_id: 12 }));
    assert_eq!(decode("2-5"), Ok(IncomingMessage::DeleteFile { file_id: -5 }));
    assert_eq!(decode("2+7"), Ok(IncomingMessage::DeleteFile { file_id: 7 }));
}

#[test]
fn decode_get_file_content() {
    assert_eq!(decode("47"), Ok(IncomingMessage::GetFileContent { file_id: 7 }));
}

#[test]
fn decode_rename_file() {
    assert_eq!(
        decode("35 new name.rs"),
        Ok(IncomingMessage::RenameFile { file_id: 5, new_name: "new name.rs".to_string() })
    );
    assert_eq!(decode("35"), Err(DecodeError::MalformedField));
    assert_eq!(decode("3abc x"), Err(DecodeError::MalformedField));
}

#[test]
fn decode_change_example_end_to_end() {
    // code `5`, then payload "0 3 0 3 5 -1 hello world"
    let r = decode("50 3 0 3 5 -1 hello world");
    assert_eq!(
        r,
        Ok(IncomingMessage::Change {
            change: FileChange {
                start: Position { row: 3, column: 0 },
                end: Position { row: 3, column: 5 },
                file_id: 0,
                lines: lines(&["hello", "world"]),
                last_change_applied_id: Some(-1),
            }
        })
    );
}

#[test]
fn decode_change_unparsable_change_id_means_none() {
    let r = decode("50 3 0 3 5 abc hello world");
    assert_eq!(
        r,
        Ok(IncomingMessage::Change {
            change: FileChange {
                start: Position { row: 3, column: 0 },
                end: Position { row: 3, column: 5 },
                file_id: 0,
                lines: lines(&["hello", "world"]),
                last_change_applied_id: None,
            }
        })
    );
}

#[test]
fn decode_change_keeps_empty_line_tokens() {
    let r = decode("50 0 0 0 0 x a  b");
    assert_eq!(
        r,
        Ok(IncomingMessage::Change {
            change: FileChange {
                start: Position { row: 0, column: 0 },
                end: Position { row: 0, column: 0 },
                file_id: 0,
                lines: lines(&["a", "", "b"]),
                last_change_applied_id: None,
            }
        })
    );
}

#[test]
fn decode_empty_frames() {
    assert_eq!(decode(""), Err(DecodeError::EmptyFrame));
    assert_eq!(decode("5"), Err(DecodeError::EmptyFrame));
    assert_eq!(decode("1"), Err(DecodeError::EmptyFrame));
}

#[test]
fn decode_unknown_code() {
    assert_eq!(decode("zhello"), Err(DecodeError::UnknownCode));
    assert_eq!(decode("07"), Err(DecodeError::UnknownCode));
    assert_eq!(decode("67"), Err(DecodeError::UnknownCode));
}

#[test]
fn decode_malformed_numeric_fields() {
    assert_eq!(decode("2abc"), Err(DecodeError::MalformedField));
    assert_eq!(decode("4abc"), Err(DecodeError::MalformedField));
    // value above i32::MAX
    assert_eq!(decode("24294967296"), Err(DecodeError::MalformedField));
    // negative where a u32 coordinate is required
    assert_eq!(decode("50 -1 0 3 5 -1 hello"), Err(DecodeError::MalformedField));
    // unparsable file id in a change frame
    assert_eq!(decode("5x 0 0 0 0 -1 hello"), Err(DecodeError::MalformedField));
}

#[test]
fn decode_change_wrong_field_count() {
    assert_eq!(decode("50 3 0"), Err(DecodeError::WrongFieldCount));
    assert_eq!(decode("50 3 0 3 5 -1"), Err(DecodeError::WrongFieldCount));
}

#[test]
fn encode_file_created() {
    let e = OutgoingEvent::FileCreated { file_id: 3, name: "main.rs".to_string() };
    assert_eq!(encode(&e), "33 main.rs");
}

#[test]
fn encode_file_deleted() {
    let e = OutgoingEvent::FileDeleted { file_id: 41 };
    assert_eq!(encode(&e), "441");
    let e2 = OutgoingEvent::FileDeleted { file_id: -3 };
    assert_eq!(encode(&e2), "4-3");
}

#[test]
fn encode_file_content() {
    let e = OutgoingEvent::FileContent { file_id: 0, content: "hello world".to_string() };
    assert_eq!(encode(&e), "50 hello world");
}

#[test]
fn encode_error_notice_and_snapshot_and_chat() {
    let e = OutgoingEvent::ErrorNotice { text: "boom".to_string() };
    assert_eq!(encode(&e), "aboom");
    let s = OutgoingEvent::ProjectSnapshot { json: "{\"id\":1}".to_string() };
    assert_eq!(encode(&s), "9{\"id\":1}");
    let c = OutgoingEvent::Chat { text: "hi there".to_string() };
    assert_eq!(encode(&c), "hi there");
}

#[test]
fn encode_change_broadcast_mirrors_request_layout() {
    let e = OutgoingEvent::ChangeBroadcast {
        change: FileChange {
            start: Position { row: 3, column: 0 },
            end: Position { row: 3, column: 5 },
            file_id: 0,
            lines: lines(&["hello", "world"]),
            last_change_applied_id: Some(-1),
        },
    };
    assert_eq!(encode(&e), "50 3 0 3 5 -1 hello world");
}

#[test]
fn change_round_trip_through_the_wire() {
    // decode, relay as a broadcast, decode again: the mutation survives
    let frame = "517 3 0 4 12 abc let x = 1; let y = 2;";
    let first = match decode(frame) {
        Ok(IncomingMessage::Change { change }) => change,
        other => panic!("expected a change, got {:?}", other),
    };
    let relayed = encode(&OutgoingEvent::ChangeBroadcast {
        change: FileChange {
            start: first.start,
            end: first.end,
            file_id: first.file_id,
            lines: first.lines.clone(),
            last_change_applied_id: first.last_change_applied_id,
        },
    });
    let second = match decode(&relayed) {
        Ok(IncomingMessage::Change { change }) => change,
        other => panic!("expected a change, got {:?}", other),
    };
    assert_eq!(second.file_id, first.file_id);
    assert_eq!(second.start, first.start);
    assert_eq!(second.end, first.end);
    assert_eq!(second.lines, first.lines);
    assert_eq!(second.last_change_applied_id, first.last_change_applied_id);
}
