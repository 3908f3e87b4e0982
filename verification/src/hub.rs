//! The hub: the authoritative directory of connected sessions, grouped by
//! project ("rooms"), and the router that turns incoming requests into
//! backend calls plus the resulting deliveries.
//!
//! The hub is a sequential data structure. The embedding must run all
//! hub calls that concern one project one at a time, in arrival order;
//! that serialization fixes the order in which every member of a room
//! observes the broadcasts, while calls for different rooms may proceed
//! concurrently. Backend work (the file service) happens outside: each
//! routing method takes the backend outcome as an argument and returns the
//! deliveries it requires, so the decision logic here is verified for every
//! outcome the backend can produce.

use vstd::prelude::*;

use crate::protocol::{EventModel, FileChange, OutgoingEvent};

verus! {

/// One registered session: its identity, its room, its user.
#[derive(Clone, Copy, PartialEq, Eq, Structural, Debug)]
pub struct SessionRecord {
    pub session_id: i32,
    pub project_id: i32,
    pub user_id: i32,
}

/// One event addressed to one session.
#[derive(PartialEq, Debug)]
pub struct Delivery {
    pub target: i32,
    pub event: OutgoingEvent,
}

/// Some session holds this identifier.
pub open spec fn has_session(s: Seq<SessionRecord>, sid: i32) -> bool {
    exists|i: int| 0 <= i < s.len() && (#[trigger] s[i]).session_id == sid
}

/// The session with this identifier is registered in this project's room.
pub open spec fn session_in_room(s: Seq<SessionRecord>, sid: i32, pid: i32) -> bool {
    exists|i: int|
        0 <= i < s.len() && (#[trigger] s[i]).session_id == sid && s[i].project_id == pid
}

/// The identifiers a broadcast into this project's room reaches, in
/// registration order, with at most one excluded session.
pub open spec fn spec_targets(s: Seq<SessionRecord>, pid: i32, exclude: Option<i32>) -> Seq<i32>
    decreases s.len(),
{
    if s.len() == 0 {
        Seq::<i32>::empty()
    } else {
        let rest = spec_targets(s.drop_last(), pid, exclude);
        let r = s.last();
        if r.project_id == pid && exclude != Some(r.session_id) {
            rest.push(r.session_id)
        } else {
            rest
        }
    }
}

/// The members of this project's room, in registration order.
pub open spec fn spec_room(s: Seq<SessionRecord>, pid: i32) -> Seq<i32> {
    spec_targets(s, pid, None)
}

/// The registry without the session of this identifier, order kept.
pub open spec fn spec_remove(s: Seq<SessionRecord>, sid: i32) -> Seq<SessionRecord>
    decreases s.len(),
{
    if s.len() == 0 {
        s
    } else {
        let rest = spec_remove(s.drop_last(), sid);
        if s.last().session_id == sid {
            rest
        } else {
            rest.push(s.last())
        }
    }
}

/// These deliveries carry one event to exactly these targets, in order.
pub open spec fn is_broadcast_of(ds: Seq<Delivery>, targets: Seq<i32>, ev: EventModel) -> bool {
    &&& ds.len() == targets.len()
    &&& forall|i: int|
        0 <= i < ds.len() ==> (#[trigger] ds[i]).target == targets[i] && ds[i].event@ == ev
}

/// The central directory mapping each connected session to its room, and
/// the allocator of session identifiers.
pub struct Hub {
    pub next_session_id: i32,
    pub sessions: Vec<SessionRecord>,
}

impl Hub {
    /// Well-formed: session identifiers are pairwise distinct, all below
    /// the allocation counter, and the counter never reaches back to the
    /// placeholder identifier 0.
    pub open spec fn wf(&self) -> bool {
        &&& forall|i: int, j: int|
            0 <= i < j < self.sessions@.len() ==> (#[trigger] self.sessions@[i]).session_id != (
            #[trigger] self.sessions@[j]).session_id
        &&& forall|i: int|
            0 <= i < self.sessions@.len() ==> (#[trigger] self.sessions@[i]).session_id
                < self.next_session_id
        &&& self.next_session_id >= 1
    }

    /// An empty hub: no sessions, identifiers start at 1.
    pub fn new() -> (h: Hub)
        ensures
            h.wf(),
            h.sessions@ == Seq::<SessionRecord>::empty(),
            h.next_session_id == 1,
    {
        Hub { next_session_id: 1, sessions: Vec::new() }
    }

    /// Registers a session editing `project_id` for `user_id` and returns
    /// its fresh identifier: one never handed out before, distinct from
    /// every identifier still registered. The session joins exactly the
    /// room of `project_id`; every other room is untouched.
    pub fn join(&mut self, project_id: i32, user_id: i32) -> (session_id: i32)
        requires
            old(self).wf(),
            old(self).next_session_id < i32::MAX,
        ensures
            final(self).wf(),
            session_id == old(self).next_session_id,
            !has_session(old(self).sessions@, session_id),
            final(self).sessions@ == old(self).sessions@.push(
                (SessionRecord { session_id, project_id, user_id }),
            ),
            final(self).next_session_id == old(self).next_session_id + 1,
    {
        let id = self.next_session_id;
        self.next_session_id = self.next_session_id + 1;
        self.sessions.push(SessionRecord { session_id: id, project_id, user_id });
        proof {
            let s = self.sessions@;
            let s0 = old(self).sessions@;
            assert forall|i: int, j: int| 0 <= i < j < s.len() implies (#[trigger] s[i]).session_id
                != (#[trigger] s[j]).session_id by {
                if j < s0.len() {
                    assert(s[i] == s0[i] && s[j] == s0[j]);
                } else {
                    assert(s[i] == s0[i]);
                    assert(s[j].session_id == id);
                    assert(s0[i].session_id < id);
                }
            }
            if has_session(s0, id) {
                let i = choose|i: int| 0 <= i < s0.len() && s0[i].session_id == id;
                assert(s0[i].session_id < id);
            }
        }
        id
    }

    /// Removes the session with this identifier from its room; a no-op,
    /// not an error, when the identifier is unknown.
    pub fn leave(&mut self, session_id: i32)
        requires
            old(self).wf(),
        ensures
            final(self).wf(),
            final(self).sessions@ == spec_remove(old(self).sessions@, session_id),
            final(self).next_session_id == old(self).next_session_id,
    {
        let n: usize = self.sessions.len();
        let mut kept: Vec<SessionRecord> = Vec::new();
        let mut i: usize = 0;
        while i < n
            invariant
                0 <= i <= n,
                *self == *old(self),
                n == self.sessions@.len(),
                kept@ == spec_remove(self.sessions@.take(i as int), session_id),
            decreases n - i,
        {
            let r = self.sessions[i];
            proof {
                let t = self.sessions@.take(i + 1 as int);
                assert(t.drop_last() =~= self.sessions@.take(i as int));
                assert(t.last() == r);
            }
            if r.session_id != session_id {
                kept.push(r);
            }
            i = i + 1;
        }
        proof {
            assert(self.sessions@.take(n as int) =~= self.sessions@);
        }
        self.sessions = kept;
        proof {
            lemma_remove_membership(old(self).sessions@, session_id);
            lemma_remove_keeps_order(old(self).sessions@, session_id);
            lemma_remove_keeps_distinct(old(self).sessions@, session_id);
            let s = self.sessions@;
            let s0 = old(self).sessions@;
            assert forall|i2: int|
                0 <= i2 < s.len() implies (#[trigger] s[i2]).session_id
                < self.next_session_id by {
                assert(s.contains(s[i2])) by {
                    assert(0 <= i2 < s.len());
                }
                let k = choose|k: int| 0 <= k < s0.len() && s0[k] == s[i2];
                assert(s0[k].session_id < self.next_session_id);
            }
        }
    }

    /// The project whose room holds this session, if any.
    pub fn project_of(&self, session_id: i32) -> (r: Option<i32>)
        ensures
            match r {
                Some(pid) => session_in_room(self.sessions@, session_id, pid),
                None => !has_session(self.sessions@, session_id),
            },
    {
        let n: usize = self.sessions.len();
        let mut i: usize = 0;
        while i < n
            invariant
                0 <= i <= n,
                n == self.sessions@.len(),
                forall|k: int| 0 <= k < i ==> (#[trigger] self.sessions@[k]).session_id
                    != session_id,
            decreases n - i,
        {
            let r = self.sessions[i];
            if r.session_id == session_id {
                return Some(r.project_id);
            }
            i = i + 1;
        }
        proof {
            if has_session(self.sessions@, session_id) {
                let k = choose|k: int|
                    0 <= k < self.sessions@.len() && self.sessions@[k].session_id == session_id;
                assert(self.sessions@[k].session_id != session_id);
            }
        }
        None
    }

    /// The members of this project's room, in registration order.
    pub fn room_members(&self, project_id: i32) -> (v: Vec<i32>)
        ensures
            v@ == spec_room(self.sessions@, project_id),
    {
        let n: usize = self.sessions.len();
        let mut v: Vec<i32> = Vec::new();
        let mut i: usize = 0;
        while i < n
            invariant
                0 <= i <= n,
                n == self.sessions@.len(),
                v@ == spec_targets(self.sessions@.take(i as int), project_id, None),
            decreases n - i,
        {
            let r = self.sessions[i];
            proof {
                let t = self.sessions@.take(i + 1 as int);
                assert(t.drop_last() =~= self.sessions@.take(i as int));
                assert(t.last() == r);
            }
            if r.project_id == project_id {
                v.push(r.session_id);
            }
            i = i + 1;
        }
        proof {
            assert(self.sessions@.take(n as int) =~= self.sessions@);
        }
        v
    }

    /// Delivers one event to every session in this project's room except
    /// the excluded one, in registration order. The internal primitive of
    /// all routing operations.
    pub fn broadcast(&self, project_id: i32, event: &OutgoingEvent, exclude: Option<i32>) -> (ds:
        Vec<Delivery>)
        ensures
            is_broadcast_of(ds@, spec_targets(self.sessions@, project_id, exclude), event@),
    {
        let n: usize = self.sessions.len();
        let mut ds: Vec<Delivery> = Vec::new();
        let mut i: usize = 0;
        while i < n
            invariant
                0 <= i <= n,
                n == self.sessions@.len(),
                is_broadcast_of(
                    ds@,
                    spec_targets(self.sessions@.take(i as int), project_id, exclude),
                    event@,
                ),
            decreases n - i,
        {
            let r = self.sessions[i];
            proof {
                let t = self.sessions@.take(i + 1 as int);
                assert(t.drop_last() =~= self.sessions@.take(i as int));
                assert(t.last() == r);
            }
            let excluded: bool = match exclude {
                Some(x) => x == r.session_id,
                None => false,
            };
            if r.project_id == project_id && !excluded {
                ds.push(Delivery { target: r.session_id, event: event.duplicate() });
            }
            i = i + 1;
        }
        proof {
            assert(self.sessions@.take(n as int) =~= self.sessions@);
        }
        ds
    }

    /// Routes the outcome of a file creation requested by this session:
    /// on success the `FileCreated` event goes to every member of the
    /// requester's room, the requester included; on failure an
    /// `ErrorNotice` goes to the requester alone. A request from an
    /// unknown session produces nothing.
    pub fn route_file_creation(
        &self,
        session_id: i32,
        filename: String,
        created: Result<i32, String>,
    ) -> (ds: Vec<Delivery>)
        requires
            self.wf(),
        ensures
            !has_session(self.sessions@, session_id) ==> ds@ == Seq::<Delivery>::empty(),
            forall|pid: i32|
                session_in_room(self.sessions@, session_id, pid) ==> match created {
                    Ok(fid) => is_broadcast_of(
                        ds@,
                        spec_targets(self.sessions@, pid, None),
                        (EventModel::FileCreated { file_id: fid, name: filename@ }),
                    ),
                    Err(msg) => ds@.len() == 1 && ds@[0].target == session_id && ds@[0].event@
                        == (EventModel::ErrorNotice { text: msg@ }),
                },
    {
        match self.project_of(session_id) {
            None => Vec::new(),
            Some(pid) => {
                proof {
                    lemma_room_of_session_unique(self.sessions@, session_id, pid);
                }
                match created {
                    Ok(fid) => self.broadcast(
                        pid,
                        &(OutgoingEvent::FileCreated { file_id: fid, name: filename }),
                        None,
                    ),
                    Err(msg) => {
                        let mut ds: Vec<Delivery> = Vec::new();
                        ds.push(
                            Delivery {
                                target: session_id,
                                event: OutgoingEvent::ErrorNotice { text: msg },
                            },
                        );
                        ds
                    },
                }
            },
        }
    }

    /// Routes the outcome of a file deletion requested by this session:
    /// on success the `FileDeleted` event goes to the whole room, the
    /// requester included; on failure an `ErrorNotice` goes to the
    /// requester alone.
    pub fn route_file_deletion(
        &self,
        session_id: i32,
        file_id: i32,
        deleted: Result<(), String>,
    ) -> (ds: Vec<Delivery>)
        requires
            self.wf(),
        ensures
            !has_session(self.sessions@, session_id) ==> ds@ == Seq::<Delivery>::empty(),
            forall|pid: i32|
                session_in_room(self.sessions@, session_id, pid) ==> match deleted {
                    Ok(_) => is_broadcast_of(
                        ds@,
                        spec_targets(self.sessions@, pid, None),
                        (EventModel::FileDeleted { file_id }),
                    ),
                    Err(msg) => ds@.len() == 1 && ds@[0].target == session_id && ds@[0].event@
                        == (EventModel::ErrorNotice { text: msg@ }),
                },
    {
        match self.project_of(session_id) {
            None => Vec::new(),
            Some(pid) => {
                proof {
                    lemma_room_of_session_unique(self.sessions@, session_id, pid);
                }
                match deleted {
                    Ok(_) => self.broadcast(pid, &(OutgoingEvent::FileDeleted { file_id }), None),
                    Err(msg) => {
                        let mut ds: Vec<Delivery> = Vec::new();
                        ds.push(
                            Delivery {
                                target: session_id,
                                event: OutgoingEvent::ErrorNotice { text: msg },
                            },
                        );
                        ds
                    },
                }
            },
        }
    }

    /// Routes the outcome of a content request: the reply goes to the
    /// requesting session only, never to the rest of the room — content
    /// replies are per viewer, not state changes. On failure an
    /// `ErrorNotice` goes to the requester alone.
    pub fn route_file_content_request(
        &self,
        session_id: i32,
        file_id: i32,
        content: Result<String, String>,
    ) -> (ds: Vec<Delivery>)
        requires
            self.wf(),
        ensures
            !has_session(self.sessions@, session_id) ==> ds@ == Seq::<Delivery>::empty(),
            has_session(self.sessions@, session_id) ==> ds@.len() == 1 && ds@[0].target
                == session_id && ds@[0].event@ == (match content {
                Ok(text) => EventModel::FileContent { file_id, content: text@ },
                Err(msg) => EventModel::ErrorNotice { text: msg@ },
            }),
    {
        match self.project_of(session_id) {
            None => Vec::new(),
            Some(_) => {
                let mut ds: Vec<Delivery> = Vec::new();
                match content {
                    Ok(text) => {
                        ds.push(
                            Delivery {
                                target: session_id,
                                event: OutgoingEvent::FileContent { file_id, content: text },
                            },
                        );
                    },
                    Err(msg) => {
                        ds.push(
                            Delivery {
                                target: session_id,
                                event: OutgoingEvent::ErrorNotice { text: msg },
                            },
                        );
                    },
                }
                ds
            },
        }
    }

    /// Routes the outcome of a line edit requested by this session: on
    /// success the change is relayed to every *other* member of the room —
    /// the originator already applied it locally and must not re-apply it;
    /// on failure an `ErrorNotice` goes to the requester alone.
    pub fn route_file_change(
        &self,
        session_id: i32,
        change: FileChange,
        applied: Result<(), String>,
    ) -> (ds: Vec<Delivery>)
        requires
            self.wf(),
        ensures
            !has_session(self.sessions@, session_id) ==> ds@ == Seq::<Delivery>::empty(),
            forall|pid: i32|
                session_in_room(self.sessions@, session_id, pid) ==> match applied {
                    Ok(_) => is_broadcast_of(
                        ds@,
                        spec_targets(self.sessions@, pid, Some(session_id)),
                        (EventModel::ChangeBroadcast { change: change@ }),
                    ),
                    Err(msg) => ds@.len() == 1 && ds@[0].target == session_id && ds@[0].event@
                        == (EventModel::ErrorNotice { text: msg@ }),
                },
    {
        match self.project_of(session_id) {
            None => Vec::new(),
            Some(pid) => {
                proof {
                    lemma_room_of_session_unique(self.sessions@, session_id, pid);
                }
                match applied {
                    Ok(_) => self.broadcast(
                        pid,
                        &(OutgoingEvent::ChangeBroadcast { change }),
                        Some(session_id),
                    ),
                    Err(msg) => {
                        let mut ds: Vec<Delivery> = Vec::new();
                        ds.push(
                            Delivery {
                                target: session_id,
                                event: OutgoingEvent::ErrorNotice { text: msg },
                            },
                        );
                        ds
                    },
                }
            },
        }
    }
}

/// What `spec_remove` keeps: exactly the records of other sessions.
pub proof fn lemma_remove_membership(s: Seq<SessionRecord>, sid: i32)
    ensures
        forall|r: SessionRecord| #[trigger]
            spec_remove(s, sid).contains(r) <==> (s.contains(r) && r.session_id != sid),
    decreases s.len(),
{
    if s.len() == 0 {
    } else {
        lemma_remove_membership(s.drop_last(), sid);
        let rest = spec_remove(s.drop_last(), sid);
        let out = spec_remove(s, sid);
        assert forall|r: SessionRecord| #[trigger] out.contains(r) implies (s.contains(r)
            && r.session_id != sid) by {
            if s.last().session_id == sid {
                assert(rest.contains(r));
                assert(s.drop_last().contains(r));
                let k = choose|k: int| 0 <= k < s.drop_last().len() && s.drop_last()[k] == r;
                assert(s[k] == r);
            } else {
                let k = choose|k: int| 0 <= k < out.len() && out[k] == r;
                if k < rest.len() {
                    assert(rest.contains(r)) by {
                        assert(rest[k] == r);
                    }
                    assert(s.drop_last().contains(r));
                    let k2 = choose|k2: int| 0 <= k2 < s.drop_last().len() && s.drop_last()[k2]
                        == r;
                    assert(s[k2] == r);
                } else {
                    assert(r == s.last());
                    assert(s.contains(r)) by {
                        assert(s[s.len() - 1] == r);
                    }
                }
            }
        }
        assert forall|r: SessionRecord| s.contains(r) && r.session_id != sid implies #[trigger]
            out.contains(r) by {
            let k = choose|k: int| 0 <= k < s.len() && s[k] == r;
            if k < s.len() - 1 {
                assert(s.drop_last().contains(r)) by {
                    assert(s.drop_last()[k] == r);
                }
                assert(rest.contains(r));
                if s.last().session_id == sid {
                    assert(out.contains(r));
                } else {
                    let k2 = choose|k2: int| 0 <= k2 < rest.len() && rest[k2] == r;
                    assert(out[k2] == r);
                }
            } else {
                assert(r == s.last());
                assert(out[out.len() - 1] == r);
            }
        }
    }
}

/// `spec_remove` keeps every record it keeps in its original relative
/// order, so each kept record still appears in the source registry.
pub proof fn lemma_remove_keeps_order(s: Seq<SessionRecord>, sid: i32)
    ensures
        forall|k: int|
            0 <= k < spec_remove(s, sid).len() ==> s.contains(#[trigger] spec_remove(s, sid)[k]),
    decreases s.len(),
{
    if s.len() == 0 {
    } else {
        lemma_remove_keeps_order(s.drop_last(), sid);
        let rest = spec_remove(s.drop_last(), sid);
        let out = spec_remove(s, sid);
        assert forall|k: int| 0 <= k < out.len() implies s.contains(#[trigger] out[k]) by {
            if k < rest.len() {
                assert(s.drop_last().contains(rest[k]));
                let k2 = choose|k2: int| 0 <= k2 < s.drop_last().len() && s.drop_last()[k2]
                    == rest[k];
                assert(s[k2] == out[k]);
            } else {
                assert(out[k] == s.last());
                assert(s[s.len() - 1] == out[k]);
            }
        }
    }
}

/// Removing a session keeps the remaining identifiers pairwise distinct.
pub proof fn lemma_remove_keeps_distinct(s: Seq<SessionRecord>, sid: i32)
    requires
        forall|i: int, j: int|
            0 <= i < j < s.len() ==> (#[trigger] s[i]).session_id != (#[trigger] s[j]).session_id,
    ensures
        forall|i: int, j: int|
            0 <= i < j < spec_remove(s, sid).len() ==> (#[trigger] spec_remove(s, sid)[i]).session_id
                != (#[trigger] spec_remove(s, sid)[j]).session_id,
    decreases s.len(),
{
    if s.len() == 0 {
    } else {
        assert(forall|i: int, j: int|
            0 <= i < j < s.drop_last().len() ==> (#[trigger] s.drop_last()[i]).session_id != (
            #[trigger] s.drop_last()[j]).session_id) by {
            assert(forall|i: int|
                0 <= i < s.drop_last().len() ==> s.drop_last()[i] == (#[trigger] s[i]));
        }
        lemma_remove_keeps_distinct(s.drop_last(), sid);
        lemma_remove_keeps_order(s.drop_last(), sid);
        let rest = spec_remove(s.drop_last(), sid);
        let out = spec_remove(s, sid);
        if s.last().session_id != sid {
            assert forall|i: int, j: int|
                0 <= i < j < out.len() implies (#[trigger] out[i]).session_id != (
            #[trigger] out[j]).session_id by {
                if j < rest.len() {
                    assert(out[i] == rest[i] && out[j] == rest[j]);
                } else {
                    assert(out[j] == s.last());
                    assert(out[i] == rest[i]);
                    assert(s.drop_last().contains(rest[i])) by {
                        assert(0 <= i < rest.len());
                    }
                    let k = choose|k: int|
                        0 <= k < s.drop_last().len() && s.drop_last()[k] == rest[i];
                    assert(s[k] == rest[i]);
                    assert(s[k].session_id != s[s.len() - 1].session_id);
                }
            }
        }
    }
}

/// Leaving is idempotent: removing the same session twice equals removing
/// it once, and every other session's record survives a leave untouched.
pub proof fn lemma_leave_twice_is_noop(s: Seq<SessionRecord>, sid: i32)
    ensures
        spec_remove(spec_remove(s, sid), sid) == spec_remove(s, sid),
        forall|r: SessionRecord| #[trigger]
            spec_remove(s, sid).contains(r) <==> (s.contains(r) && r.session_id != sid),
    decreases s.len(),
{
    lemma_remove_membership(s, sid);
    if s.len() == 0 {
    } else {
        lemma_leave_twice_is_noop(s.drop_last(), sid);
        let rest = spec_remove(s.drop_last(), sid);
        let out = spec_remove(s, sid);
        if s.last().session_id == sid {
            assert(out == rest);
        } else {
            assert(out == rest.push(s.last()));
            assert(out.drop_last() =~= rest);
            assert(out.last() == s.last());
            assert(spec_remove(out, sid) == spec_remove(rest, sid).push(s.last()));
        }
    }
}

/// A session identifier resolves to at most one room when session
/// identifiers are pairwise distinct.
pub proof fn lemma_room_of_session_unique(s: Seq<SessionRecord>, sid: i32, pid: i32)
    requires
        forall|i: int, j: int|
            0 <= i < j < s.len() ==> (#[trigger] s[i]).session_id != (#[trigger] s[j]).session_id,
        session_in_room(s, sid, pid),
    ensures
        forall|q: i32| session_in_room(s, sid, q) ==> q == pid,
{
    assert forall|q: i32| session_in_room(s, sid, q) implies q == pid by {
        let i = choose|i: int|
            0 <= i < s.len() && (#[trigger] s[i]).session_id == sid && s[i].project_id == pid;
        let j = choose|j: int|
            0 <= j < s.len() && (#[trigger] s[j]).session_id == sid && s[j].project_id == q;
        if i < j {
            assert(s[i].session_id != s[j].session_id);
        } else if j < i {
            assert(s[j].session_id != s[i].session_id);
        }
    }
}

/// Who a broadcast reaches: exactly the sessions registered in the room,
/// except the excluded one. In particular a creation or deletion
/// broadcast (no exclusion) reaches the originator too, while a relayed
/// change (originator excluded) reaches everyone but the originator.
pub proof fn lemma_targets_membership(s: Seq<SessionRecord>, pid: i32, exclude: Option<i32>)
    ensures
        forall|sid: i32| #[trigger]
            spec_targets(s, pid, exclude).contains(sid) <==> (session_in_room(s, sid, pid)
                && exclude != Some(sid)),
    decreases s.len(),
{
    let out = spec_targets(s, pid, exclude);
    if s.len() == 0 {
        assert forall|sid: i32| #[trigger] out.contains(sid) implies (session_in_room(s, sid, pid)
            && exclude != Some(sid)) by {
            assert(out.len() == 0);
        }
    } else {
        lemma_targets_membership(s.drop_last(), pid, exclude);
        let rest = spec_targets(s.drop_last(), pid, exclude);
        let r = s.last();
        assert forall|sid: i32| #[trigger] out.contains(sid) implies (session_in_room(s, sid, pid)
            && exclude != Some(sid)) by {
            let k = choose|k: int| 0 <= k < out.len() && out[k] == sid;
            if k < rest.len() && out[k] == rest[k] {
                assert(rest.contains(sid)) by {
                    assert(rest[k] == sid);
                }
                assert(session_in_room(s.drop_last(), sid, pid));
                let k2 = choose|k2: int|
                    0 <= k2 < s.drop_last().len() && (#[trigger] s.drop_last()[k2]).session_id
                        == sid && s.drop_last()[k2].project_id == pid;
                assert(s[k2].session_id == sid && s[k2].project_id == pid);
            } else {
                assert(r.project_id == pid && exclude != Some(r.session_id));
                assert(sid == r.session_id);
                assert(s[s.len() - 1].session_id == sid && s[s.len() - 1].project_id == pid);
            }
        }
        assert forall|sid: i32| session_in_room(s, sid, pid) && exclude != Some(sid)
            implies #[trigger] out.contains(sid) by {
            let k = choose|k: int|
                0 <= k < s.len() && (#[trigger] s[k]).session_id == sid && s[k].project_id == pid;
            if k < s.len() - 1 {
                assert(session_in_room(s.drop_last(), sid, pid)) by {
                    assert(s.drop_last()[k].session_id == sid && s.drop_last()[k].project_id
                        == pid);
                }
                assert(rest.contains(sid));
                let k2 = choose|k2: int| 0 <= k2 < rest.len() && rest[k2] == sid;
                assert(out[k2] == sid);
            } else {
                assert(r.session_id == sid && r.project_id == pid);
                assert(out[out.len() - 1] == sid);
            }
        }
    }
}

/// Room membership lists hold pairwise distinct identifiers whenever the
/// registry does, so a room of N joins holds exactly N members.
pub proof fn lemma_targets_distinct(s: Seq<SessionRecord>, pid: i32, exclude: Option<i32>)
    requires
        forall|i: int, j: int|
            0 <= i < j < s.len() ==> (#[trigger] s[i]).session_id != (#[trigger] s[j]).session_id,
    ensures
        forall|i: int, j: int|
            0 <= i < j < spec_targets(s, pid, exclude).len() ==> spec_targets(s, pid, exclude)[i]
                != spec_targets(s, pid, exclude)[j],
    decreases s.len(),
{
    if s.len() == 0 {
    } else {
        assert(forall|i: int, j: int|
            0 <= i < j < s.drop_last().len() ==> (#[trigger] s.drop_last()[i]).session_id != (
            #[trigger] s.drop_last()[j]).session_id) by {
            assert(forall|i: int|
                0 <= i < s.drop_last().len() ==> s.drop_last()[i] == (#[trigger] s[i]));
        }
        lemma_targets_distinct(s.drop_last(), pid, exclude);
        lemma_targets_membership(s.drop_last(), pid, exclude);
        let rest = spec_targets(s.drop_last(), pid, exclude);
        let out = spec_targets(s, pid, exclude);
        let r = s.last();
        if r.project_id == pid && exclude != Some(r.session_id) {
            assert forall|i: int, j: int| 0 <= i < j < out.len() implies out[i] != out[j] by {
                if j < rest.len() {
                    assert(rest[i] != rest[j]);
                } else {
                    assert(out[j] == r.session_id);
                    assert(out[i] == rest[i]);
                    assert(rest.contains(rest[i])) by {
                        assert(0 <= i < rest.len());
                    }
                    assert(session_in_room(s.drop_last(), rest[i], pid));
                    let k = choose|k: int|
                        0 <= k < s.drop_last().len() && (#[trigger] s.drop_last()[k]).session_id
                            == rest[i] && s.drop_last()[k].project_id == pid;
                    assert(s[k].session_id == rest[i]);
                    assert(s[k].session_id != r.session_id);
                }
            }
        }
    }
}

/// A join hands out an identifier that no current member holds, puts the
/// new session at the end of exactly its project's room, and leaves every
/// other room unchanged — so N joins into one room yield N distinct
/// identifiers and a room of exactly N members.
pub proof fn lemma_join_grows_room(s: Seq<SessionRecord>, next: i32, pid: i32, uid: i32)
    requires
        forall|i: int| 0 <= i < s.len() ==> (#[trigger] s[i]).session_id < next,
    ensures
        !has_session(s, next),
        !spec_room(s, pid).contains(next),
        spec_room(s.push((SessionRecord { session_id: next, project_id: pid, user_id: uid })), pid)
            == spec_room(s, pid).push(next),
        forall|q: i32|
            q != pid ==> spec_targets(
                s.push((SessionRecord { session_id: next, project_id: pid, user_id: uid })),
                q,
                None,
            ) == spec_targets(s, q, None),
{
    let rec = SessionRecord { session_id: next, project_id: pid, user_id: uid };
    if has_session(s, next) {
        let i = choose|i: int| 0 <= i < s.len() && s[i].session_id == next;
        assert(s[i].session_id < next);
    }
    lemma_targets_membership(s, pid, None);
    if spec_room(s, pid).contains(next) {
        assert(session_in_room(s, next, pid));
        let i = choose|i: int|
            0 <= i < s.len() && (#[trigger] s[i]).session_id == next && s[i].project_id == pid;
        assert(s[i].session_id < next);
    }
    assert(s.push(rec).drop_last() =~= s);
    assert(s.push(rec).last() == rec);
    assert forall|q: i32| q != pid implies spec_targets(s.push(rec), q, None) == spec_targets(
        s,
        q,
        None,
    ) by {
        assert(s.push(rec).drop_last() =~= s);
    }
}

} // verus!
