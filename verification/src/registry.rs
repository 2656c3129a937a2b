//! The session registry: a mapping from session identifier to live
//! session, exposing the embedding API.
//!
//! Insertions are duplicate-rejecting, lookups are by identifier, and
//! removal is the only way to destroy a session. For any identifier at most
//! one entry exists. The registry's guard (mutual exclusion around the
//! whole value) belongs to the embedding; every operation here is one
//! linearizable step on the guarded value.

use crate::codec::{MessageType, Packet};
use crate::errors::ProtocolError;
use crate::session::{key_event_payload, mouse_click_payload, mouse_move_payload, ConnectionState,
    Session};
use crate::codec::spec_serialize;
use crate::wire::{be32, be64};
use vstd::prelude::*;

verus! {

/// A snapshot of one session: a value, not a handle.
#[derive(Debug, Clone)]
pub struct SessionInfo {
    pub id: String,
    pub connected: bool,
    pub screen_width: u32,
    pub screen_height: u32,
}

/// Whether some session in the sequence carries the identifier.
pub open spec fn seq_has_id(ss: Seq<Session>, id: Seq<char>) -> bool {
    exists|k: int| 0 <= k < ss.len() && ss[k].id@ == id
}

/// Whether no two sessions share an identifier.
pub open spec fn ids_unique(ss: Seq<Session>) -> bool {
    forall|k1: int, k2: int| 0 <= k1 < k2 < ss.len() ==> ss[k1].id@ != ss[k2].id@
}

/// The index of the session carrying the identifier.
pub open spec fn idx_of(ss: Seq<Session>, id: Seq<char>) -> int {
    choose|k: int| 0 <= k < ss.len() && ss[k].id@ == id
}

/// In a duplicate-free sequence, any index carrying the identifier is the
/// one `idx_of` picks.
pub proof fn lemma_unique_idx(ss: Seq<Session>, id: Seq<char>, k: int)
    requires
        ids_unique(ss),
        0 <= k < ss.len(),
        ss[k].id@ == id,
    ensures
        idx_of(ss, id) == k,
{
    assert(seq_has_id(ss, id));
    let j = idx_of(ss, id);
    assert(0 <= j < ss.len() && ss[j].id@ == id);
    if j != k {
        if j < k {
            assert(ss[j].id@ != ss[k].id@);
        } else {
            assert(ss[k].id@ != ss[j].id@);
        }
    }
}

/// Registry uniqueness: in a well-formed registry two entries carrying the
/// same identifier are the same entry.
pub proof fn lemma_at_most_one_entry(ss: Seq<Session>, k1: int, k2: int)
    requires
        ids_unique(ss),
        0 <= k1 < ss.len(),
        0 <= k2 < ss.len(),
        ss[k1].id@ == ss[k2].id@,
    ensures
        k1 == k2,
{
}

/// Appending a session with a fresh identifier does not change whether any
/// other identifier is present.
pub proof fn lemma_push_preserves_other_ids(ss: Seq<Session>, s: Session, other: Seq<char>)
    requires
        other != s.id@,
    ensures
        seq_has_id(ss.push(s), other) == seq_has_id(ss, other),
{
    if seq_has_id(ss.push(s), other) {
        let k = choose|k: int| 0 <= k < ss.push(s).len() && ss.push(s)[k].id@ == other;
        assert(k < ss.len() && ss[k].id@ == other);
    }
    if seq_has_id(ss, other) {
        let k = choose|k: int| 0 <= k < ss.len() && ss[k].id@ == other;
        assert(ss.push(s)[k].id@ == other);
    }
}

/// Two registrations under distinct identifiers yield two entries: both
/// identifiers present, and the count grown by exactly two.
pub proof fn lemma_two_registrations_distinct(ss: Seq<Session>, s1: Session, s2: Session)
    requires
        s1.id@ != s2.id@,
    ensures
        seq_has_id(ss.push(s1).push(s2), s1.id@),
        seq_has_id(ss.push(s1).push(s2), s2.id@),
        ss.push(s1).push(s2).len() == ss.len() + 2,
{
    let after = ss.push(s1).push(s2);
    assert(after[ss.len() as int].id@ == s1.id@);
    assert(after[ss.len() as int + 1].id@ == s2.id@);
}

/// Registry idempotence: once a connect has registered a session, its
/// identifier is present, so a later connect under the same identifier
/// takes the lookup branch — the existing snapshot comes back and no
/// further work, network included, is performed.
pub proof fn lemma_connect_is_idempotent(ss: Seq<Session>, s: Session)
    ensures
        seq_has_id(ss.push(started(s)), s.id@),
{
    assert(ss.push(started(s))[ss.len() as int].id@ == s.id@);
}

/// A session as `register_session` stores it: the video stream marked
/// running, everything else as handed in.
pub open spec fn started(s: Session) -> Session {
    Session { stream_running: true, ..s }
}

/// The process-wide registry of live sessions.
pub struct Registry {
    sessions: Vec<Session>,
}

impl View for Registry {
    type V = Seq<Session>;

    /// The live sessions, in registry (insertion) order.
    closed spec fn view(&self) -> Seq<Session> {
        self.sessions@
    }
}

impl Registry {
    /// Identifiers are unique and every session's pipeline is sound.
    pub open spec fn wf(self) -> bool {
        &&& ids_unique(self@)
        &&& forall|k: int| 0 <= k < self@.len() ==> (#[trigger] self@[k]).wf()
    }

    /// Creates an empty registry.
    pub fn new() -> (r: Registry)
        ensures
            r@ == Seq::<Session>::empty(),
            r.wf(),
    {
        let r = Registry { sessions: Vec::new() };
        assert(r@ =~= Seq::<Session>::empty());
        r
    }

    /// The index of the session carrying `id`, if one does.
    fn find(&self, id: &String) -> (r: Option<usize>)
        ensures
            r matches Some(k) ==> k < self@.len() && self@[k as int].id@ == id@,
            r is None ==> !seq_has_id(self@, id@),
    {
        let n = self.sessions.len();
        let mut k: usize = 0;
        while k < n
            invariant
                k <= n,
                n == self@.len(),
                forall|m: int| 0 <= m < k ==> self@[m].id@ != id@,
            decreases n - k,
        {
            if self.sessions[k].id == *id {
                return Some(k);
            }
            k = k + 1;
        }
        None
    }

    /// Whether a session with this identifier is registered.
    pub fn contains(&self, id: &String) -> (r: bool)
        requires
            self.wf(),
        ensures
            r == seq_has_id(self@, id@),
    {
        match self.find(id) {
            Some(_) => true,
            None => false,
        }
    }

    /// How many sessions are live.
    pub fn connection_status(&self) -> (r: usize)
        ensures
            r == self@.len(),
    {
        self.sessions.len()
    }

    /// The existing session's snapshot, if one is registered under `id`. A
    /// connect call that finds one returns it and performs no further work,
    /// so a repeated connect under a live identifier does no network I/O.
    pub fn connect_existing(&self, id: &String) -> (r: Option<SessionInfo>)
        requires
            self.wf(),
        ensures
            !seq_has_id(self@, id@) ==> r is None,
            seq_has_id(self@, id@) ==> (r matches Some(info) && {
                let s = self@[idx_of(self@, id@)];
                &&& info.id@ == id@
                &&& info.connected == (s.state == ConnectionState::Connected)
                &&& info.screen_width == s.screen_width
                &&& info.screen_height == s.screen_height
            }),
    {
        match self.find(id) {
            Some(k) => {
                let s = &self.sessions[k];
                proof {
                    lemma_unique_idx(self@, id@, k as int);
                }
                Some(
                    SessionInfo {
                        id: s.id.clone(),
                        connected: s.get_state() == ConnectionState::Connected,
                        screen_width: s.screen_width,
                        screen_height: s.screen_height,
                    },
                )
            },
            None => None,
        }
    }

    /// Registers a freshly connected session, marking its video stream
    /// running, and returns its snapshot. If the identifier is already
    /// live, the existing session's snapshot is returned and nothing
    /// changes: insertions are duplicate-rejecting.
    pub fn register_session(&mut self, s: Session) -> (r: SessionInfo)
        requires
            old(self).wf(),
            s.wf(),
        ensures
            final(self).wf(),
            seq_has_id(old(self)@, s.id@) ==> final(self)@ == old(self)@ && {
                let e = old(self)@[idx_of(old(self)@, s.id@)];
                &&& r.id@ == s.id@
                &&& r.connected == (e.state == ConnectionState::Connected)
                &&& r.screen_width == e.screen_width
                &&& r.screen_height == e.screen_height
            },
            !seq_has_id(old(self)@, s.id@) ==> final(self)@ == old(self)@.push(started(s))
                && seq_has_id(final(self)@, s.id@) && r.id@ == s.id@ && r.connected == (s.state
                == ConnectionState::Connected) && r.screen_width == s.screen_width
                && r.screen_height == s.screen_height,
    {
        match self.find(&s.id) {
            Some(k) => {
                proof {
                    lemma_unique_idx(self@, s.id@, k as int);
                }
                let e = &self.sessions[k];
                SessionInfo {
                    id: e.id.clone(),
                    connected: e.get_state() == ConnectionState::Connected,
                    screen_width: e.screen_width,
                    screen_height: e.screen_height,
                }
            },
            None => {
                let info = SessionInfo {
                    id: s.id.clone(),
                    connected: s.get_state() == ConnectionState::Connected,
                    screen_width: s.screen_width,
                    screen_height: s.screen_height,
                };
                let mut stored = s;
                stored.stream_running = true;
                self.sessions.push(stored);
                proof {
                    let ss = old(self)@;
                    let st = started(s);
                    assert(self@ == ss.push(st));
                    assert(st.id@ == s.id@);
                    assert(self@[ss.len() as int].id@ == s.id@);
                    assert forall|k1: int, k2: int| 0 <= k1 < k2 < self@.len() implies self@[k1].id@
                        != self@[k2].id@ by {
                        if k2 < ss.len() {
                            assert(ss[k1].id@ != ss[k2].id@);
                        } else {
                            assert(self@[k2] == st);
                            assert(!seq_has_id(ss, s.id@));
                            assert(ss[k1].id@ != s.id@);
                        }
                    }
                }
                info
            },
        }
    }

    /// Stops and removes the session registered under `id` and hands it
    /// back disconnected, its video pipeline dropped; the registry shrinks
    /// by exactly one. A missing identifier is a no-op.
    pub fn disconnect(&mut self, id: &String) -> (r: Option<Session>)
        requires
            old(self).wf(),
        ensures
            final(self).wf(),
            !seq_has_id(old(self)@, id@) ==> final(self)@ == old(self)@ && r is None,
            seq_has_id(old(self)@, id@) ==> {
                let k = idx_of(old(self)@, id@);
                &&& r matches Some(s) && s.id@ == id@ && s.state == ConnectionState::Disconnected
                &&& final(self)@ == old(self)@.remove(k)
                &&& final(self)@.len() == old(self)@.len() - 1
                &&& !seq_has_id(final(self)@, id@)
            },
    {
        match self.find(id) {
            Some(k) => {
                proof {
                    lemma_unique_idx(self@, id@, k as int);
                }
                let mut s = self.sessions.remove(k);
                s.disconnect();
                proof {
                    let ss = old(self)@;
                    let ki = k as int;
                    assert forall|m1: int, m2: int| 0 <= m1 < m2 < self@.len() implies self@[m1].id@
                        != self@[m2].id@ by {
                        let o1 = if m1 < ki { m1 } else { m1 + 1 };
                        let o2 = if m2 < ki { m2 } else { m2 + 1 };
                        assert(self@[m1] == ss[o1]);
                        assert(self@[m2] == ss[o2]);
                    }
                    assert(!seq_has_id(self@, id@)) by {
                        if seq_has_id(self@, id@) {
                            let m = choose|m: int| 0 <= m < self@.len() && self@[m].id@ == id@;
                            let o = if m < ki { m } else { m + 1 };
                            assert(self@[m] == ss[o]);
                            assert(ss[o].id@ == id@ && ss[ki].id@ == id@ && o != ki);
                            lemma_at_most_one_entry(ss, o, ki);
                        }
                    }
                }
                Some(s)
            },
            None => None,
        }
    }

    /// Tears down every session: each is disconnected and handed back, and
    /// the registry is left empty.
    pub fn disconnect_all(&mut self) -> (r: Vec<Session>)
        requires
            old(self).wf(),
        ensures
            final(self).wf(),
            final(self)@.len() == 0,
            r@.len() == old(self)@.len(),
            forall|k: int|
                0 <= k < r@.len() ==> (#[trigger] r@[k]).state == ConnectionState::Disconnected,
    {
        let mut out: Vec<Session> = Vec::new();
        while self.sessions.len() > 0
            invariant
                out@.len() + self@.len() == old(self)@.len(),
                forall|k: int|
                    0 <= k < out@.len() ==> (#[trigger] out@[k]).state
                        == ConnectionState::Disconnected,
            decreases self@.len(),
        {
            let popped = self.sessions.pop();
            match popped {
                Some(mut s) => {
                    s.disconnect();
                    out.push(s);
                },
                None => {
                    proof {
                        assert(false);
                    }
                },
            }
        }
        assert(ids_unique(self@));
        out
    }

    /// Snapshots every live session, in registry order.
    pub fn get_connections(&self) -> (r: Vec<SessionInfo>)
        ensures
            r@.len() == self@.len(),
            forall|k: int|
                0 <= k < r@.len() ==> {
                    let info = #[trigger] r@[k];
                    &&& info.id@ == self@[k].id@
                    &&& info.connected == (self@[k].state == ConnectionState::Connected)
                    &&& info.screen_width == self@[k].screen_width
                    &&& info.screen_height == self@[k].screen_height
                },
    {
        let mut out: Vec<SessionInfo> = Vec::new();
        let n = self.sessions.len();
        let mut k: usize = 0;
        while k < n
            invariant
                k <= n,
                n == self@.len(),
                out@.len() == k,
                forall|m: int|
                    0 <= m < k ==> {
                        let info = #[trigger] out@[m];
                        &&& info.id@ == self@[m].id@
                        &&& info.connected == (self@[m].state == ConnectionState::Connected)
                        &&& info.screen_width == self@[m].screen_width
                        &&& info.screen_height == self@[m].screen_height
                    },
            decreases n - k,
        {
            let s = &self.sessions[k];
            out.push(
                SessionInfo {
                    id: s.id.clone(),
                    connected: s.get_state() == ConnectionState::Connected,
                    screen_width: s.screen_width,
                    screen_height: s.screen_height,
                },
            );
            k = k + 1;
        }
        out
    }

    /// The identifier of the first session in registry order; input-event
    /// entry points act on it.
    pub fn first_session_id(&self) -> (r: Option<String>)
        ensures
            self@.len() == 0 ==> r is None,
            self@.len() > 0 ==> (r matches Some(id) && id@ == self@[0].id@),
    {
        if self.sessions.len() > 0 {
            Some(self.sessions[0].id.clone())
        } else {
            None
        }
    }

    /// The key-event datagram the session under `id` should emit, if that
    /// session exists and is connected; no-op otherwise.
    pub fn send_key(&self, id: &String, key: u32, pressed: bool) -> (r: Option<Vec<u8>>)
        requires
            self.wf(),
        ensures
            !seq_has_id(self@, id@) ==> r is None,
            seq_has_id(self@, id@) ==> {
                let s = self@[idx_of(self@, id@)];
                if s.state == ConnectionState::Connected {
                    r matches Some(b) && b@ == spec_serialize(
                        MessageType::KeyEvent,
                        key_event_payload(key, pressed),
                    )
                } else {
                    r is None
                }
            },
    {
        match self.find(id) {
            Some(k) => {
                proof {
                    lemma_unique_idx(self@, id@, k as int);
                }
                self.sessions[k].send_key_event(key, pressed)
            },
            None => None,
        }
    }

    /// The pointer-move datagram the session under `id` should emit, if
    /// that session exists and is connected; no-op otherwise.
    pub fn send_mouse_move(&self, id: &String, x: i32, y: i32) -> (r: Option<Vec<u8>>)
        requires
            self.wf(),
        ensures
            !seq_has_id(self@, id@) ==> r is None,
            seq_has_id(self@, id@) ==> {
                let s = self@[idx_of(self@, id@)];
                if s.state == ConnectionState::Connected {
                    r matches Some(b) && b@ == spec_serialize(
                        MessageType::MouseEvent,
                        mouse_move_payload(x, y),
                    )
                } else {
                    r is None
                }
            },
    {
        match self.find(id) {
            Some(k) => {
                proof {
                    lemma_unique_idx(self@, id@, k as int);
                }
                self.sessions[k].send_mouse_move(x, y)
            },
            None => None,
        }
    }

    /// The pointer-click datagram the session under `id` should emit, if
    /// that session exists and is connected; no-op otherwise.
    pub fn send_mouse_click(&self, id: &String, button: u32, pressed: bool) -> (r: Option<Vec<u8>>)
        requires
            self.wf(),
        ensures
            !seq_has_id(self@, id@) ==> r is None,
            seq_has_id(self@, id@) ==> {
                let s = self@[idx_of(self@, id@)];
                if s.state == ConnectionState::Connected {
                    r matches Some(b) && b@ == spec_serialize(
                        MessageType::MouseEvent,
                        mouse_click_payload(button, pressed),
                    )
                } else {
                    r is None
                }
            },
    {
        match self.find(id) {
            Some(k) => {
                proof {
                    lemma_unique_idx(self@, id@, k as int);
                }
                self.sessions[k].send_mouse_click(button, pressed)
            },
            None => None,
        }
    }

    /// The most recently decoded frame of the session under `id`, if that
    /// session exists and has one.
    pub fn latest_frame_of(&self, id: &String) -> (r: Option<&crate::frame::DecodedFrame>)
        requires
            self.wf(),
        ensures
            !seq_has_id(self@, id@) ==> r is None,
            seq_has_id(self@, id@) ==> {
                let s = self@[idx_of(self@, id@)];
                if s.frames@.len() > 0 {
                    r matches Some(f) && *f == s.frames@.last()
                } else {
                    r is None
                }
            },
    {
        match self.find(id) {
            Some(k) => {
                proof {
                    lemma_unique_idx(self@, id@, k as int);
                }
                self.sessions[k].latest_frame()
            },
            None => None,
        }
    }

    /// Routes one inbound datagram to the session under `id` (its receive
    /// loop's demultiplex step). A missing identifier is a no-op.
    pub fn handle_packet(&mut self, id: &String, packet: &Packet) -> (r: Result<(), ProtocolError>)
        requires
            old(self).wf(),
            seq_has_id(old(self)@, id@) ==> old(self)@[idx_of(
                old(self)@,
                id@,
            )].decoder.frames_decoded() < u64::MAX,
        ensures
            final(self).wf(),
            final(self)@.len() == old(self)@.len(),
            !seq_has_id(old(self)@, id@) ==> final(self)@ == old(self)@ && r == Ok::<
                (),
                ProtocolError,
            >(()),
            seq_has_id(old(self)@, id@) ==> {
                let k = idx_of(old(self)@, id@);
                let before = old(self)@[k];
                let after = final(self)@[k];
                &&& (forall|m: int|
                    0 <= m < old(self)@.len() && m != k ==> final(self)@[m] == old(self)@[m])
                &&& after.id@ == id@
                &&& after.state == before.state
                &&& (before.state != ConnectionState::Connected ==> after == before && r == Ok::<
                    (),
                    ProtocolError,
                >(()))
                &&& (before.state == ConnectionState::Connected && packet.msg_type
                    != MessageType::VideoFrame ==> after == before && r == Ok::<
                    (),
                    ProtocolError,
                >(()))
                &&& (before.state == ConnectionState::Connected && packet.msg_type
                    == MessageType::VideoFrame && packet.payload@.len() < 16 ==> after == before
                    && r == Err::<(), ProtocolError>(ProtocolError::InvalidPacket))
                &&& (before.state == ConnectionState::Connected && packet.msg_type
                    == MessageType::VideoFrame && packet.payload@.len() >= 16 ==> r == Ok::<
                    (),
                    ProtocolError,
                >(()) && after.screen_width as int == be32(
                    packet.payload@[0],
                    packet.payload@[1],
                    packet.payload@[2],
                    packet.payload@[3],
                ) && after.screen_height as int == be32(
                    packet.payload@[4],
                    packet.payload@[5],
                    packet.payload@[6],
                    packet.payload@[7],
                ) && after.frames@.len() >= 1 && after.frames@.last().timestamp as int == be64(
                    packet.payload@[8],
                    packet.payload@[9],
                    packet.payload@[10],
                    packet.payload@[11],
                    packet.payload@[12],
                    packet.payload@[13],
                    packet.payload@[14],
                    packet.payload@[15],
                ))
            },
    {
        match self.find(id) {
            Some(k) => {
                proof {
                    lemma_unique_idx(self@, id@, k as int);
                }
                let mut s = self.sessions.remove(k);
                let result = s.handle_packet(packet);
                let ghost updated = s;
                self.sessions.insert(k, s);
                proof {
                    let ss = old(self)@;
                    let ki = k as int;
                    assert(self@ =~= ss.update(ki, updated));
                    assert forall|m1: int, m2: int| 0 <= m1 < m2 < self@.len() implies self@[m1].id@
                        != self@[m2].id@ by {
                        assert(self@[m1].id@ == ss[m1].id@);
                        assert(self@[m2].id@ == ss[m2].id@);
                    }
                }
                result
            },
            None => Ok(()),
        }
    }
}

} // verus!
