//! The messages that travel between a client and the hub.
//!
//! Incoming frames decode to an `IncomingMessage`; hub-originated events are
//! an `OutgoingEvent` and encode back to one-line text frames. The `*Model`
//! types are the mathematical views of the message types: the same shape
//! with every string replaced by its character sequence.

use vstd::prelude::*;

verus! {

/// Zero-based line/column locator into a file's line array.
#[derive(Clone, Copy, PartialEq, Eq, Structural, Debug)]
pub struct Position {
    pub row: u32,
    pub column: u32,
}

/// A line-range edit: replace the lines from `start.row` to `end.row` of
/// the target file with `lines`. `last_change_applied_id` distinguishes a
/// first edit from later ones; it is parsed and carried through but not
/// acted on downstream.
#[derive(PartialEq, Debug)]
pub struct FileChange {
    pub start: Position,
    pub end: Position,
    pub file_id: i32,
    pub lines: Vec<String>,
    pub last_change_applied_id: Option<i32>,
}

/// Mathematical view of a `FileChange`.
pub struct FileChangeModel {
    pub start: Position,
    pub end: Position,
    pub file_id: i32,
    pub lines: Seq<Seq<char>>,
    pub last_change_applied_id: Option<i32>,
}

impl View for FileChange {
    type V = FileChangeModel;

    open spec fn view(&self) -> FileChangeModel {
        FileChangeModel {
            start: self.start,
            end: self.end,
            file_id: self.file_id,
            lines: self.lines.deep_view(),
            last_change_applied_id: self.last_change_applied_id,
        }
    }
}

impl FileChange {
    /// A copy of the change with the same view.
    pub fn duplicate(&self) -> (r: FileChange)
        ensures
            r@ == self@,
    {
        let mut lines: Vec<String> = Vec::new();
        let mut i: usize = 0;
        while i < self.lines.len()
            invariant
                0 <= i <= self.lines@.len(),
                lines@ =~= self.lines@.take(i as int),
            decreases self.lines@.len() - i,
        {
            lines.push(self.lines[i].clone());
            proof {
                assert(lines@ =~= self.lines@.take(i + 1 as int));
            }
            i = i + 1;
        }
        proof {
            assert(lines@ =~= self.lines@);
        }
        FileChange {
            start: self.start,
            end: self.end,
            file_id: self.file_id,
            lines,
            last_change_applied_id: self.last_change_applied_id,
        }
    }
}

/// A request decoded from one wire frame.
#[derive(PartialEq, Debug)]
pub enum IncomingMessage {
    /// Create a file with the given name.
    NewFile { name: String },
    /// Delete the file with the given identifier.
    DeleteFile { file_id: i32 },
    /// Rename a file. Accepted for parsing; not acted on in the current
    /// scope.
    RenameFile { file_id: i32, new_name: String },
    /// Request the current content of a file.
    GetFileContent { file_id: i32 },
    /// Apply a line-range edit to a file.
    Change { change: FileChange },
}

/// Mathematical view of an `IncomingMessage`.
pub enum MessageModel {
    NewFile { name: Seq<char> },
    DeleteFile { file_id: i32 },
    RenameFile { file_id: i32, new_name: Seq<char> },
    GetFileContent { file_id: i32 },
    Change { change: FileChangeModel },
}

impl View for IncomingMessage {
    type V = MessageModel;

    open spec fn view(&self) -> MessageModel {
        match self {
            IncomingMessage::NewFile { name } => MessageModel::NewFile { name: name@ },
            IncomingMessage::DeleteFile { file_id } => MessageModel::DeleteFile {
                file_id: *file_id,
            },
            IncomingMessage::RenameFile { file_id, new_name } => MessageModel::RenameFile {
                file_id: *file_id,
                new_name: new_name@,
            },
            IncomingMessage::GetFileContent { file_id } => MessageModel::GetFileContent {
                file_id: *file_id,
            },
            IncomingMessage::Change { change } => MessageModel::Change { change: change@ },
        }
    }
}

/// Why a frame was rejected.
#[derive(Clone, Copy, PartialEq, Eq, Structural, Debug)]
pub enum DecodeError {
    /// The frame holds no payload beyond the type code, or nothing at all.
    EmptyFrame,
    /// The first character matches no known message-type code.
    UnknownCode,
    /// A required numeric field did not parse as the expected integer type.
    MalformedField,
    /// A line-change frame did not split into exactly seven fields.
    WrongFieldCount,
}

/// An event the hub addresses to sessions.
#[derive(PartialEq, Debug)]
pub enum OutgoingEvent {
    /// The initial project information sent on join. The payload is the
    /// snapshot already laid out as one-line text by the caller; the codec
    /// only frames it.
    ProjectSnapshot { json: String },
    /// A file came into existence.
    FileCreated { file_id: i32, name: String },
    /// A file was removed.
    FileDeleted { file_id: i32 },
    /// The content of one file, answering a content request.
    FileContent { file_id: i32, content: String },
    /// A routing or backend failure, addressed to the originator only.
    ErrorNotice { text: String },
    /// Free-form text relayed verbatim.
    Chat { text: String },
    /// A line-range edit relayed to the other members of the room.
    ChangeBroadcast { change: FileChange },
}

/// Mathematical view of an `OutgoingEvent`.
pub enum EventModel {
    ProjectSnapshot { json: Seq<char> },
    FileCreated { file_id: i32, name: Seq<char> },
    FileDeleted { file_id: i32 },
    FileContent { file_id: i32, content: Seq<char> },
    ErrorNotice { text: Seq<char> },
    Chat { text: Seq<char> },
    ChangeBroadcast { change: FileChangeModel },
}

impl View for OutgoingEvent {
    type V = EventModel;

    open spec fn view(&self) -> EventModel {
        match self {
            OutgoingEvent::ProjectSnapshot { json } => EventModel::ProjectSnapshot { json: json@ },
            OutgoingEvent::FileCreated { file_id, name } => EventModel::FileCreated {
                file_id: *file_id,
                name: name@,
            },
            OutgoingEvent::FileDeleted { file_id } => EventModel::FileDeleted {
                file_id: *file_id,
            },
            OutgoingEvent::FileContent { file_id, content } => EventModel::FileContent {
                file_id: *file_id,
                content: content@,
            },
            OutgoingEvent::ErrorNotice { text } => EventModel::ErrorNotice { text: text@ },
            OutgoingEvent::Chat { text } => EventModel::Chat { text: text@ },
            OutgoingEvent::ChangeBroadcast { change } => EventModel::ChangeBroadcast {
                change: change@,
            },
        }
    }
}

impl OutgoingEvent {
    /// A copy of the event with the same view.
    pub fn duplicate(&self) -> (r: OutgoingEvent)
        ensures
            r@ == self@,
    {
        match self {
            OutgoingEvent::ProjectSnapshot { json } => OutgoingEvent::ProjectSnapshot {
                json: json.clone(),
            },
            OutgoingEvent::FileCreated { file_id, name } => OutgoingEvent::FileCreated {
                file_id: *file_id,
                name: name.clone(),
            },
            OutgoingEvent::FileDeleted { file_id } => OutgoingEvent::FileDeleted {
                file_id: *file_id,
            },
            OutgoingEvent::FileContent { file_id, content } => OutgoingEvent::FileContent {
                file_id: *file_id,
                content: content.clone(),
            },
            OutgoingEvent::ErrorNotice { text } => OutgoingEvent::ErrorNotice {
                text: text.clone(),
            },
            OutgoingEvent::Chat { text } => OutgoingEvent::Chat { text: text.clone() },
            OutgoingEvent::ChangeBroadcast { change } => OutgoingEvent::ChangeBroadcast {
                change: change.duplicate(),
            },
        }
    }
}

} // verus!
