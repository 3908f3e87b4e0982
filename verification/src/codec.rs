//! The wire codec: one-line text frames to typed messages and back.
//!
//! A frame's first character is its message-type code; the remainder is the
//! payload. Incoming codes: `1` creates a file (payload: name), `2` deletes
//! one (payload: decimal file id), `3` renames one (payload: file id and new
//! name), `4` requests file content (payload: file id), `5` applies a line
//! edit (payload: exactly seven space-separated fields, the seventh holding
//! the space-joined replacement lines). Outgoing codes mirror the incoming
//! ones where natural: `3` file created, `4` file deleted, `5` file content
//! or a relayed line edit, `9` the project snapshot, `a` an error notice.
//!
//! Decoding rejects a frame with no payload (`EmptyFrame`), an unknown
//! first character (`UnknownCode`), an unparsable required number
//! (`MalformedField`), or a line-edit payload that does not split into
//! seven fields (`WrongFieldCount`). Encoding is total and deterministic.

use vstd::prelude::*;

use crate::numbers::{
    all_digits, is_ascii_digit_char, lemma_digits_contain_no_space, lemma_digits_roundtrip,
    lemma_parse_of_i32_dec, lemma_parse_of_u32_dec, nat_to_digits, spec_i32_to_dec,
    spec_parse_i32, spec_parse_u32, i32_to_dec, parse_i32, parse_u32, u32_to_dec,
};
use crate::protocol::{
    DecodeError, EventModel, FileChange, FileChangeModel, IncomingMessage, MessageModel,
    OutgoingEvent, Position,
};
use crate::tokens::{
    join_space, join_with, lemma_split_of_join, lemma_split_on_props, lemma_splitn_on_step,
    split_on, split_string, splitn_on, splitn_string,
};

verus! {

/// The payload of a rename frame: a decimal file id, one space, then the
/// new name (which may itself contain spaces).
pub open spec fn spec_decode_rename(p: Seq<char>) -> Result<MessageModel, DecodeError> {
    let parts = splitn_on(p, 2, ' ');
    if parts.len() != 2 {
        Err(DecodeError::MalformedField)
    } else {
        match spec_parse_i32(parts[0]) {
            Some(id) => Ok(MessageModel::RenameFile { file_id: id, new_name: parts[1] }),
            None => Err(DecodeError::MalformedField),
        }
    }
}

/// The payload of a line-edit frame: `fileID startRow startCol endRow
/// endCol lastAppliedChangeID lines...`, exactly seven space-separated
/// fields. The sixth field is optional in meaning: when it does not parse
/// as an integer it stands for "none" rather than an error. The seventh
/// field carries the replacement lines joined by single spaces.
pub open spec fn spec_decode_change(p: Seq<char>) -> Result<MessageModel, DecodeError> {
    let parts = splitn_on(p, 7, ' ');
    if parts.len() != 7 {
        Err(DecodeError::WrongFieldCount)
    } else if spec_parse_i32(parts[0]) is Some && spec_parse_u32(parts[1]) is Some
        && spec_parse_u32(parts[2]) is Some && spec_parse_u32(parts[3]) is Some
        && spec_parse_u32(parts[4]) is Some {
        Ok(
            MessageModel::Change {
                change: FileChangeModel {
                    file_id: spec_parse_i32(parts[0])->Some_0,
                    start: Position {
                        row: spec_parse_u32(parts[1])->Some_0,
                        column: spec_parse_u32(parts[2])->Some_0,
                    },
                    end: Position {
                        row: spec_parse_u32(parts[3])->Some_0,
                        column: spec_parse_u32(parts[4])->Some_0,
                    },
                    last_change_applied_id: spec_parse_i32(parts[5]),
                    lines: split_on(parts[6], ' '),
                },
            },
        )
    } else {
        Err(DecodeError::MalformedField)
    }
}

/// What any frame decodes to: the total mathematical decoder.
pub open spec fn spec_decode(f: Seq<char>) -> Result<MessageModel, DecodeError> {
    if f.len() <= 1 {
        Err(DecodeError::EmptyFrame)
    } else {
        let payload = f.skip(1);
        if f[0] == '1' {
            Ok(MessageModel::NewFile { name: payload })
        } else if f[0] == '2' {
            match spec_parse_i32(payload) {
                Some(id) => Ok(MessageModel::DeleteFile { file_id: id }),
                None => Err(DecodeError::MalformedField),
            }
        } else if f[0] == '3' {
            spec_decode_rename(payload)
        } else if f[0] == '4' {
            match spec_parse_i32(payload) {
                Some(id) => Ok(MessageModel::GetFileContent { file_id: id }),
                None => Err(DecodeError::MalformedField),
            }
        } else if f[0] == '5' {
            spec_decode_change(payload)
        } else {
            Err(DecodeError::UnknownCode)
        }
    }
}

/// The decode result seen at the model level.
pub open spec fn decode_result_view(r: Result<IncomingMessage, DecodeError>) -> Result<
    MessageModel,
    DecodeError,
> {
    match r {
        Ok(m) => Ok(m@),
        Err(e) => Err(e),
    }
}

fn decode_rename(p: &str) -> (r: Result<IncomingMessage, DecodeError>)
    ensures
        decode_result_view(r) == spec_decode_rename(p@),
{
    let parts = splitn_string(p, 2, ' ');
    if parts.len() != 2 {
        return Err(DecodeError::MalformedField);
    }
    proof {
        assert(parts.deep_view()[0] == parts@[0]@);
        assert(parts.deep_view()[1] == parts@[1]@);
    }
    match parse_i32(parts[0].as_str()) {
        Some(id) => Ok(IncomingMessage::RenameFile { file_id: id, new_name: parts[1].clone() }),
        None => Err(DecodeError::MalformedField),
    }
}

fn decode_change(p: &str) -> (r: Result<IncomingMessage, DecodeError>)
    ensures
        decode_result_view(r) == spec_decode_change(p@),
{
    let parts = splitn_string(p, 7, ' ');
    if parts.len() != 7 {
        return Err(DecodeError::WrongFieldCount);
    }
    proof {
        assert(parts.deep_view()[0] == parts@[0]@);
        assert(parts.deep_view()[1] == parts@[1]@);
        assert(parts.deep_view()[2] == parts@[2]@);
        assert(parts.deep_view()[3] == parts@[3]@);
        assert(parts.deep_view()[4] == parts@[4]@);
        assert(parts.deep_view()[5] == parts@[5]@);
        assert(parts.deep_view()[6] == parts@[6]@);
    }
    let file_id: i32 = match parse_i32(parts[0].as_str()) {
        Some(v) => v,
        None => {
            return Err(DecodeError::MalformedField);
        },
    };
    let start_row: u32 = match parse_u32(parts[1].as_str()) {
        Some(v) => v,
        None => {
            return Err(DecodeError::MalformedField);
        },
    };
    let start_column: u32 = match parse_u32(parts[2].as_str()) {
        Some(v) => v,
        None => {
            return Err(DecodeError::MalformedField);
        },
    };
    let end_row: u32 = match parse_u32(parts[3].as_str()) {
        Some(v) => v,
        None => {
            return Err(DecodeError::MalformedField);
        },
    };
    let end_column: u32 = match parse_u32(parts[4].as_str()) {
        Some(v) => v,
        None => {
            return Err(DecodeError::MalformedField);
        },
    };
    let last_change_applied_id = parse_i32(parts[5].as_str());
    let lines = split_string(parts[6].as_str(), ' ');
    Ok(
        IncomingMessage::Change {
            change: FileChange {
                start: Position { row: start_row, column: start_column },
                end: Position { row: end_row, column: end_column },
                file_id,
                lines,
                last_change_applied_id,
            },
        },
    )
}

/// Decodes one wire frame, exactly as `spec_decode` describes: the result
/// is `Ok` precisely on well-formed frames, and each malformed frame maps
/// to its `DecodeError`.
pub fn decode(frame: &str) -> (r: Result<IncomingMessage, DecodeError>)
    ensures
        decode_result_view(r) == spec_decode(frame@),
{
    let n: usize = frame.unicode_len();
    if n <= 1 {
        return Err(DecodeError::EmptyFrame);
    }
    let code = frame.get_char(0);
    let payload = frame.substring_char(1, n);
    proof {
        assert(payload@ =~= frame@.skip(1));
    }
    if code == '1' {
        Ok(IncomingMessage::NewFile { name: payload.to_owned() })
    } else if code == '2' {
        match parse_i32(payload) {
            Some(id) => Ok(IncomingMessage::DeleteFile { file_id: id }),
            None => Err(DecodeError::MalformedField),
        }
    } else if code == '3' {
        decode_rename(payload)
    } else if code == '4' {
        match parse_i32(payload) {
            Some(id) => Ok(IncomingMessage::GetFileContent { file_id: id }),
            None => Err(DecodeError::MalformedField),
        }
    } else if code == '5' {
        decode_change(payload)
    } else {
        Err(DecodeError::UnknownCode)
    }
}

/// The wire form of the optional change id: its decimal rendering, or the
/// non-numeric token `x` for "none", which parses back to "none".
pub open spec fn spec_encode_last(last: Option<i32>) -> Seq<char> {
    match last {
        Some(v) => spec_i32_to_dec(v),
        None => seq!['x'],
    }
}

/// The payload of a relayed line edit, laid out exactly as the line-edit
/// request payload, so peers reuse the request field layout.
pub open spec fn spec_encode_change_payload(c: FileChangeModel) -> Seq<char> {
    spec_i32_to_dec(c.file_id) + seq![' '] + nat_to_digits(c.start.row as nat) + seq![' ']
        + nat_to_digits(c.start.column as nat) + seq![' '] + nat_to_digits(c.end.row as nat)
        + seq![' '] + nat_to_digits(c.end.column as nat) + seq![' '] + spec_encode_last(
        c.last_change_applied_id,
    ) + seq![' '] + join_with(c.lines, ' ')
}

/// What any event encodes to: the total mathematical encoder.
pub open spec fn spec_encode(e: EventModel) -> Seq<char> {
    match e {
        EventModel::ProjectSnapshot { json } => seq!['9'] + json,
        EventModel::FileCreated { file_id, name } => seq!['3'] + spec_i32_to_dec(file_id)
            + seq![' '] + name,
        EventModel::FileDeleted { file_id } => seq!['4'] + spec_i32_to_dec(file_id),
        EventModel::FileContent { file_id, content } => seq!['5'] + spec_i32_to_dec(file_id)
            + seq![' '] + content,
        EventModel::ErrorNotice { text } => seq!['a'] + text,
        EventModel::Chat { text } => text,
        EventModel::ChangeBroadcast { change } => seq!['5'] + spec_encode_change_payload(change),
    }
}

fn encode_change_payload(c: &FileChange) -> (r: String)
    ensures
        r@ == spec_encode_change_payload(c@),
{
    proof {
        reveal_strlit(" ");
        reveal_strlit("x");
        assert(" "@ =~= seq![' ']);
        assert("x"@ =~= seq!['x']);
    }
    let mut r = i32_to_dec(c.file_id);
    r.append(" ");
    let t1 = u32_to_dec(c.start.row);
    r.append(t1.as_str());
    r.append(" ");
    let t2 = u32_to_dec(c.start.column);
    r.append(t2.as_str());
    r.append(" ");
    let t3 = u32_to_dec(c.end.row);
    r.append(t3.as_str());
    r.append(" ");
    let t4 = u32_to_dec(c.end.column);
    r.append(t4.as_str());
    r.append(" ");
    match c.last_change_applied_id {
        Some(v) => {
            let t5 = i32_to_dec(v);
            r.append(t5.as_str());
        },
        None => {
            r.append("x");
        },
    }
    r.append(" ");
    let joined = join_space(&c.lines);
    r.append(joined.as_str());
    proof {
        assert(r@ =~= spec_encode_change_payload(c@));
    }
    r
}

/// Encodes one hub event as a wire frame. Total: every event yields its
/// frame, exactly as `spec_encode` describes.
pub fn encode(event: &OutgoingEvent) -> (r: String)
    ensures
        r@ == spec_encode(event@),
{
    proof {
        reveal_strlit("9");
        reveal_strlit("3");
        reveal_strlit("4");
        reveal_strlit("5");
        reveal_strlit("a");
        reveal_strlit(" ");
        assert("9"@ =~= seq!['9']);
        assert("3"@ =~= seq!['3']);
        assert("4"@ =~= seq!['4']);
        assert("5"@ =~= seq!['5']);
        assert("a"@ =~= seq!['a']);
        assert(" "@ =~= seq![' ']);
    }
    match event {
        OutgoingEvent::ProjectSnapshot { json } => {
            let mut r = String::from_str("9");
            r.append(json.as_str());
            proof {
                assert(r@ =~= spec_encode(event@));
            }
            r
        },
        OutgoingEvent::FileCreated { file_id, name } => {
            let mut r = String::from_str("3");
            let d = i32_to_dec(*file_id);
            r.append(d.as_str());
            r.append(" ");
            r.append(name.as_str());
            proof {
                assert(r@ =~= spec_encode(event@));
            }
            r
        },
        OutgoingEvent::FileDeleted { file_id } => {
            let mut r = String::from_str("4");
            let d = i32_to_dec(*file_id);
            r.append(d.as_str());
            proof {
                assert(r@ =~= spec_encode(event@));
            }
            r
        },
        OutgoingEvent::FileContent { file_id, content } => {
            let mut r = String::from_str("5");
            let d = i32_to_dec(*file_id);
            r.append(d.as_str());
            r.append(" ");
            r.append(content.as_str());
            proof {
                assert(r@ =~= spec_encode(event@));
            }
            r
        },
        OutgoingEvent::ErrorNotice { text } => {
            let mut r = String::from_str("a");
            r.append(text.as_str());
            proof {
                assert(r@ =~= spec_encode(event@));
            }
            r
        },
        OutgoingEvent::Chat { text } => text.clone(),
        OutgoingEvent::ChangeBroadcast { change } => {
            let mut r = String::from_str("5");
            let payload = encode_change_payload(change);
            r.append(payload.as_str());
            proof {
                assert(r@ =~= spec_encode(event@));
            }
            r
        },
    }
}

/// A change whose lines can travel on the wire: at least one line, and no
/// line contains the separating space.
pub open spec fn wire_safe_lines(lines: Seq<Seq<char>>) -> bool {
    &&& lines.len() >= 1
    &&& forall|j: int| 0 <= j < lines.len() ==> !(#[trigger] lines[j]).contains(' ')
}

/// Every change a frame decodes to can travel back out: its lines came
/// from splitting the seventh field on spaces, so there is at least one
/// and none contains a space. Together with `lemma_change_round_trip`
/// this closes the loop: decode, then encode as a broadcast, restores the
/// mutation exactly.
pub proof fn lemma_decoded_change_is_wire_safe(f: Seq<char>)
    ensures
        spec_decode(f) matches Ok(MessageModel::Change { change }) ==> wire_safe_lines(
            change.lines,
        ),
{
    match spec_decode(f) {
        Ok(m) => match m {
            MessageModel::Change { change } => {
                let payload = f.skip(1);
                let parts = splitn_on(payload, 7, ' ');
                assert(change.lines == split_on(parts[6], ' '));
                lemma_split_on_props(parts[6], ' ');
            },
            _ => {},
        },
        _ => {},
    }
}

/// Round trip of a line edit through the wire: encoding a change as a
/// broadcast frame and decoding that frame restores the change exactly —
/// file id, start, end, optional change id and the line sequence. This
/// holds for every change whose lines a well-formed line-edit frame can
/// carry, in particular for every change that `decode` produced.
#[verifier::rlimit(100)]
pub proof fn lemma_change_round_trip(c: FileChangeModel)
    requires
        wire_safe_lines(c.lines),
    ensures
        spec_decode(spec_encode(EventModel::ChangeBroadcast { change: c })) == Ok::<
            MessageModel,
            DecodeError,
        >(MessageModel::Change { change: c }),
{
    let t0 = spec_i32_to_dec(c.file_id);
    let t1 = nat_to_digits(c.start.row as nat);
    let t2 = nat_to_digits(c.start.column as nat);
    let t3 = nat_to_digits(c.end.row as nat);
    let t4 = nat_to_digits(c.end.column as nat);
    let t5 = spec_encode_last(c.last_change_applied_id);
    let t6 = join_with(c.lines, ' ');
    let payload = spec_encode_change_payload(c);
    let f = seq!['5'] + payload;

    // every fixed-position token is space-free
    if c.file_id >= 0 {
        lemma_digits_roundtrip(c.file_id as nat);
        lemma_digits_contain_no_space(t0);
    } else {
        lemma_digits_roundtrip((-(c.file_id as int)) as nat);
        lemma_digits_contain_no_space(nat_to_digits((-(c.file_id as int)) as nat));
    }
    assert forall|k: int| 0 <= k < t0.len() implies t0[k] != ' ' by {
        if c.file_id >= 0 {
            assert(t0.contains(t0[k])) by {
                assert(0 <= k < t0.len());
            }
        } else {
            let m = nat_to_digits((-(c.file_id as int)) as nat);
            if k == 0 {
                assert(t0[k] == '-');
            } else {
                assert(t0[k] == m[k - 1]);
                assert(m.contains(m[k - 1])) by {
                    assert(0 <= k - 1 < m.len());
                }
            }
        }
    }
    lemma_digits_roundtrip(c.start.row as nat);
    lemma_digits_roundtrip(c.start.column as nat);
    lemma_digits_roundtrip(c.end.row as nat);
    lemma_digits_roundtrip(c.end.column as nat);
    assert forall|k: int| 0 <= k < t1.len() implies t1[k] != ' ' by {
        assert(is_ascii_digit_char(t1[k]));
    }
    assert forall|k: int| 0 <= k < t2.len() implies t2[k] != ' ' by {
        assert(is_ascii_digit_char(t2[k]));
    }
    assert forall|k: int| 0 <= k < t3.len() implies t3[k] != ' ' by {
        assert(is_ascii_digit_char(t3[k]));
    }
    assert forall|k: int| 0 <= k < t4.len() implies t4[k] != ' ' by {
        assert(is_ascii_digit_char(t4[k]));
    }
    assert forall|k: int| 0 <= k < t5.len() implies t5[k] != ' ' by {
        match c.last_change_applied_id {
            Some(v) => {
                if v >= 0 {
                    lemma_digits_roundtrip(v as nat);
                    assert(is_ascii_digit_char(t5[k]));
                } else {
                    let m = nat_to_digits((-(v as int)) as nat);
                    lemma_digits_roundtrip((-(v as int)) as nat);
                    if k == 0 {
                        assert(t5[k] == '-');
                    } else {
                        assert(t5[k] == m[k - 1]);
                        assert(is_ascii_digit_char(m[k - 1]));
                    }
                }
            },
            None => {
                assert(t5 == seq!['x']);
            },
        }
    }

    // peel the seven fields off the payload
    let rest6 = t6;
    let rest5 = t5 + seq![' '] + rest6;
    let rest4 = t4 + seq![' '] + rest5;
    let rest3 = t3 + seq![' '] + rest4;
    let rest2 = t2 + seq![' '] + rest3;
    let rest1 = t1 + seq![' '] + rest2;
    assert(payload =~= t0 + seq![' '] + rest1);
    lemma_splitn_on_step(t0, rest1, 7, ' ');
    lemma_splitn_on_step(t1, rest2, 6, ' ');
    lemma_splitn_on_step(t2, rest3, 5, ' ');
    lemma_splitn_on_step(t3, rest4, 4, ' ');
    lemma_splitn_on_step(t4, rest5, 3, ' ');
    lemma_splitn_on_step(t5, rest6, 2, ' ');
    let parts = splitn_on(payload, 7, ' ');
    assert(parts =~= seq![t0, t1, t2, t3, t4, t5, t6]);
    assert(parts.len() == 7);

    // each numeric field parses back to the value it renders
    lemma_parse_of_i32_dec(c.file_id);
    assert(spec_parse_i32(parts[0]) == Some(c.file_id));
    lemma_parse_of_u32_dec(c.start.row);
    lemma_parse_of_u32_dec(c.start.column);
    lemma_parse_of_u32_dec(c.end.row);
    lemma_parse_of_u32_dec(c.end.column);
    assert(spec_parse_u32(parts[1]) == Some(c.start.row));
    assert(spec_parse_u32(parts[2]) == Some(c.start.column));
    assert(spec_parse_u32(parts[3]) == Some(c.end.row));
    assert(spec_parse_u32(parts[4]) == Some(c.end.column));
    match c.last_change_applied_id {
        Some(v) => {
            lemma_parse_of_i32_dec(v);
            assert(spec_parse_i32(parts[5]) == Some(v));
        },
        None => {
            assert(t5 == seq!['x']);
            assert(!is_ascii_digit_char(t5[0]));
            assert(!all_digits(t5));
            assert(spec_parse_i32(parts[5]) is None);
        },
    }

    // the joined lines split back to the line sequence
    lemma_split_of_join(c.lines, ' ');
    assert(split_on(parts[6], ' ') == c.lines);

    // assemble the decoded frame
    assert(f.len() > 1);
    assert(f[0] == '5');
    assert(f.skip(1) =~= payload);
    assert(spec_decode(f) == spec_decode_change(payload));
    let decoded = spec_decode_change(payload);
    assert(decoded is Ok);
    assert(decoded->Ok_0 == MessageModel::Change { change: c });
}

} // verus!
