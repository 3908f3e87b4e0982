//! The per-connection session: a state machine from transport events to
//! actions, with the heartbeat monitor embedded.
//!
//! The transport task owns one `PeerSession`. It feeds every event it sees
//! — the join acknowledgment, inbound frames, timer ticks, stream errors —
//! into the machine and performs the returned actions: send a frame, hand a
//! request to the hub, notify the hub of a leave, close the connection.
//! Time is abstract: the caller passes a monotone clock reading in whole
//! time units.

use vstd::prelude::*;

use crate::codec::{decode, spec_decode};
use crate::protocol::{FileChange, IncomingMessage, MessageModel};

verus! {

/// How often the session pings its client, in time units.
pub const HEARTBEAT_INTERVAL: u64 = 5;

/// How long the session waits for a liveness signal before it drops the
/// connection, in time units.
pub const CLIENT_TIMEOUT: u64 = 10;

/// Where a session stands in its life.
#[derive(Clone, Copy, PartialEq, Eq, Structural, Debug)]
pub enum SessionPhase {
    /// Waiting for the hub to acknowledge the join.
    Connecting,
    /// Registered with the hub; frames flow.
    Active,
    /// Gone; no further action will ever be produced.
    Terminated,
}

/// What the transport hands the session.
pub enum TransportEvent {
    /// An inbound ping; a liveness signal that asks for a pong.
    Ping,
    /// An inbound pong; a liveness signal.
    Pong,
    /// One inbound text frame.
    Text { frame: String },
    /// An inbound binary frame; unexpected and ignored.
    Binary,
    /// The client closed the stream.
    CloseFrame,
    /// The stream failed.
    StreamError,
    /// An unsupported continuation frame; treated as a stream failure.
    Continuation,
    /// Nothing happened.
    Nop,
}

/// A structured request on its way to the hub, tagged with the session
/// that sent it.
pub enum HubRequest {
    FileCreation { session_id: i32, filename: String },
    FileDeletion { session_id: i32, file_id: i32 },
    FileContentRequest { session_id: i32, file_id: i32 },
    FileChangeRequest { session_id: i32, change: FileChange },
}

/// What the transport task must do after an event.
pub enum SessionAction {
    /// Answer an inbound ping.
    SendPong,
    /// Ping the client.
    SendPing,
    /// Hand a structured request to the hub.
    ToHub(HubRequest),
    /// Tell the hub this session is gone. The hub treats an unknown
    /// identifier as a no-op, so this is safe to deliver late.
    NotifyLeave { session_id: i32 },
    /// Close the underlying connection.
    CloseConnection,
}

/// The runtime state of one connection.
pub struct PeerSession {
    pub phase: SessionPhase,
    pub session_id: i32,
    pub project_id: i32,
    pub user_id: i32,
    /// Clock reading of the last inbound liveness signal.
    pub last_signal: u64,
}

/// What an inbound text frame must produce: nothing at all when the frame
/// is malformed — a bad frame never reaches the hub and never answers the
/// client — and exactly one hub request, tagged with the session, for each
/// decoded message. A rename decodes but is deliberately inert.
pub open spec fn frame_actions_ok(sid: i32, f: Seq<char>, acts: Seq<SessionAction>) -> bool {
    match spec_decode(f) {
        Err(_) => acts == Seq::<SessionAction>::empty(),
        Ok(m) => match m {
            MessageModel::NewFile { name } => acts.len() == 1 && (acts[0] matches
            SessionAction::ToHub(HubRequest::FileCreation { session_id, filename })
                && session_id == sid && filename@ == name),
            MessageModel::DeleteFile { file_id } => acts.len() == 1 && (acts[0] matches
            SessionAction::ToHub(HubRequest::FileDeletion { session_id, file_id: fid })
                && session_id == sid && fid == file_id),
            MessageModel::RenameFile { file_id, new_name } => acts
                == Seq::<SessionAction>::empty(),
            MessageModel::GetFileContent { file_id } => acts.len() == 1 && (acts[0] matches
            SessionAction::ToHub(HubRequest::FileContentRequest { session_id, file_id: fid })
                && session_id == sid && fid == file_id),
            MessageModel::Change { change } => acts.len() == 1 && (acts[0] matches
            SessionAction::ToHub(HubRequest::FileChangeRequest { session_id, change: ch })
                && session_id == sid && ch@ == change),
        },
    }
}

impl PeerSession {
    /// A session that just completed its handshake and is about to ask the
    /// hub for an identity.
    pub fn new(project_id: i32, user_id: i32, now: u64) -> (s: PeerSession)
        ensures
            s.phase is Connecting,
            s.session_id == crate::UNREGISTERED_SESSION_ID,
            s.project_id == project_id,
            s.user_id == user_id,
            s.last_signal == now,
    {
        PeerSession {
            phase: SessionPhase::Connecting,
            session_id: crate::UNREGISTERED_SESSION_ID,
            project_id,
            user_id,
            last_signal: now,
        }
    }

    /// Ends the session. The hub is notified exactly once over the whole
    /// life of the session: a second termination — a heartbeat timeout
    /// racing a transport close — produces nothing.
    pub fn terminate(&mut self) -> (acts: Vec<SessionAction>)
        ensures
            final(self).phase is Terminated,
            final(self).session_id == old(self).session_id,
            final(self).project_id == old(self).project_id,
            final(self).user_id == old(self).user_id,
            final(self).last_signal == old(self).last_signal,
            old(self).phase is Terminated ==> acts@ == Seq::<SessionAction>::empty(),
            !(old(self).phase is Terminated) ==> acts@ == seq![
                (SessionAction::NotifyLeave { session_id: old(self).session_id }),
                SessionAction::CloseConnection,
            ],
    {
        let mut acts: Vec<SessionAction> = Vec::new();
        match self.phase {
            SessionPhase::Terminated => {},
            _ => {
                acts.push(SessionAction::NotifyLeave { session_id: self.session_id });
                acts.push(SessionAction::CloseConnection);
                proof {
                    assert(acts@ =~= seq![
                        (SessionAction::NotifyLeave { session_id: old(self).session_id }),
                        SessionAction::CloseConnection,
                    ]);
                }
            },
        }
        self.phase = SessionPhase::Terminated;
        acts
    }

    /// Takes the hub's answer to the join. Granted: the session stores its
    /// identity, arms the heartbeat and starts handling frames. Refused:
    /// the session terminates at once, sending no event to the client.
    pub fn on_join_result(&mut self, granted: Option<i32>, now: u64) -> (acts: Vec<SessionAction>)
        requires
            old(self).phase is Connecting,
        ensures
            final(self).project_id == old(self).project_id,
            final(self).user_id == old(self).user_id,
            match granted {
                Some(id) => final(self).phase is Active && final(self).session_id == id && final(self).last_signal == now && acts@ == Seq::<SessionAction>::empty(),
                None => final(self).phase is Terminated && final(self).session_id == old(self).session_id && acts@ == seq![
                    (SessionAction::NotifyLeave { session_id: old(self).session_id }),
                    SessionAction::CloseConnection,
                ],
            },
    {
        match granted {
            Some(id) => {
                self.phase = SessionPhase::Active;
                self.session_id = id;
                self.last_signal = now;
                Vec::new()
            },
            None => self.terminate(),
        }
    }

    /// Handles one transport event. Liveness signals reset the heartbeat
    /// and a ping is answered; a text frame decodes to at most one hub
    /// request and a malformed one is dropped silently; close, stream
    /// error and continuation terminate the session; a terminated session
    /// produces nothing ever after.
    pub fn on_transport_event(&mut self, ev: TransportEvent, now: u64) -> (acts: Vec<
        SessionAction,
    >)
        requires
            !(old(self).phase is Connecting),
        ensures
            final(self).session_id == old(self).session_id,
            final(self).project_id == old(self).project_id,
            final(self).user_id == old(self).user_id,
            old(self).phase is Terminated ==> *final(self) == *old(self) && acts@
                == Seq::<SessionAction>::empty(),
            old(self).phase is Active ==> match ev {
                TransportEvent::Ping => final(self).phase is Active && final(self).last_signal
                    == now && acts@ == seq![SessionAction::SendPong],
                TransportEvent::Pong => final(self).phase is Active && final(self).last_signal
                    == now && acts@ == Seq::<SessionAction>::empty(),
                TransportEvent::Text { frame } => *final(self) == *old(self) && frame_actions_ok(
                    old(self).session_id,
                    frame@,
                    acts@,
                ),
                TransportEvent::Binary => *final(self) == *old(self) && acts@
                    == Seq::<SessionAction>::empty(),
                TransportEvent::CloseFrame => final(self).phase is Terminated && final(self).last_signal == old(self).last_signal && acts@ == seq![
                    (SessionAction::NotifyLeave { session_id: old(self).session_id }),
                    SessionAction::CloseConnection,
                ],
                TransportEvent::StreamError => final(self).phase is Terminated && final(self).last_signal == old(self).last_signal && acts@ == seq![
                    (SessionAction::NotifyLeave { session_id: old(self).session_id }),
                    SessionAction::CloseConnection,
                ],
                TransportEvent::Continuation => final(self).phase is Terminated && final(self).last_signal == old(self).last_signal && acts@ == seq![
                    (SessionAction::NotifyLeave { session_id: old(self).session_id }),
                    SessionAction::CloseConnection,
                ],
                TransportEvent::Nop => *final(self) == *old(self) && acts@
                    == Seq::<SessionAction>::empty(),
            },
    {
        let terminated: bool = match self.phase {
            SessionPhase::Terminated => true,
            _ => false,
        };
        if terminated {
            return Vec::new();
        }
        match ev {
            TransportEvent::Ping => {
                self.last_signal = now;
                let mut acts: Vec<SessionAction> = Vec::new();
                acts.push(SessionAction::SendPong);
                proof {
                    assert(acts@ =~= seq![SessionAction::SendPong]);
                }
                acts
            },
            TransportEvent::Pong => {
                self.last_signal = now;
                Vec::new()
            },
            TransportEvent::Text { frame } => self.on_frame(frame),
            TransportEvent::Binary => Vec::new(),
            TransportEvent::CloseFrame => self.terminate(),
            TransportEvent::StreamError => self.terminate(),
            TransportEvent::Continuation => self.terminate(),
            TransportEvent::Nop => Vec::new(),
        }
    }

    /// Decodes one inbound frame and forwards the request to the hub; a
    /// malformed frame is dropped silently, and a rename is accepted but
    /// deliberately not acted on.
    fn on_frame(&self, frame: String) -> (acts: Vec<SessionAction>)
        ensures
            frame_actions_ok(self.session_id, frame@, acts@),
    {
        let mut acts: Vec<SessionAction> = Vec::new();
        match decode(frame.as_str()) {
            Err(_) => acts,
            Ok(msg) => match msg {
                IncomingMessage::NewFile { name } => {
                    acts.push(
                        SessionAction::ToHub(
                            HubRequest::FileCreation {
                                session_id: self.session_id,
                                filename: name,
                            },
                        ),
                    );
                    acts
                },
                IncomingMessage::DeleteFile { file_id } => {
                    acts.push(
                        SessionAction::ToHub(
                            HubRequest::FileDeletion { session_id: self.session_id, file_id },
                        ),
                    );
                    acts
                },
                IncomingMessage::RenameFile { file_id, new_name } => acts,
                IncomingMessage::GetFileContent { file_id } => {
                    acts.push(
                        SessionAction::ToHub(
                            HubRequest::FileContentRequest {
                                session_id: self.session_id,
                                file_id,
                            },
                        ),
                    );
                    acts
                },
                IncomingMessage::Change { change } => {
                    acts.push(
                        SessionAction::ToHub(
                            HubRequest::FileChangeRequest { session_id: self.session_id, change },
                        ),
                    );
                    acts
                },
            },
        }
    }

    /// One heartbeat timer tick: a session that saw no liveness signal for
    /// `CLIENT_TIMEOUT` or more terminates; a live one pings its client.
    /// The timer fires every `HEARTBEAT_INTERVAL` units regardless of
    /// inbound traffic.
    pub fn on_heartbeat_tick(&mut self, now: u64) -> (acts: Vec<SessionAction>)
        requires
            !(old(self).phase is Connecting),
            old(self).last_signal <= now,
        ensures
            final(self).session_id == old(self).session_id,
            final(self).project_id == old(self).project_id,
            final(self).user_id == old(self).user_id,
            final(self).last_signal == old(self).last_signal,
            old(self).phase is Terminated ==> *final(self) == *old(self) && acts@
                == Seq::<SessionAction>::empty(),
            old(self).phase is Active && now - old(self).last_signal >= CLIENT_TIMEOUT ==> final(self).phase is Terminated && acts@ == seq![
                (SessionAction::NotifyLeave { session_id: old(self).session_id }),
                SessionAction::CloseConnection,
            ],
            old(self).phase is Active && now - old(self).last_signal < CLIENT_TIMEOUT ==> *final(self) == *old(self) && acts@ == seq![SessionAction::SendPing],
    {
        let terminated: bool = match self.phase {
            SessionPhase::Terminated => true,
            _ => false,
        };
        if terminated {
            return Vec::new();
        }
        if now - self.last_signal >= CLIENT_TIMEOUT {
            self.terminate()
        } else {
            let mut acts: Vec<SessionAction> = Vec::new();
            acts.push(SessionAction::SendPing);
            proof {
                assert(acts@ =~= seq![SessionAction::SendPing]);
            }
            acts
        }
    }
}

} // verus!
