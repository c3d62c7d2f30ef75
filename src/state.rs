//! Controller-side state: capture sessions, the packets recorded in them and
//! the attached process.  The caller guards one `AppState` with a lock.

use vstd::prelude::*;

use crate::ring::RawPacket;
use crate::text::push_text;

verus! {

/// Direction of a recorded packet.
#[derive(Clone, Copy, Debug, PartialEq, Eq, Structural)]
pub enum Direction {
    /// From the server (`SMSG`).
    ServerToClient,
    /// To the server (`CMSG`).
    ClientToServer,
}

/// Direction byte 0 is inbound; any other value is outbound.
pub open spec fn direction_of(b: u8) -> Direction {
    if b == 0 {
        Direction::ServerToClient
    } else {
        Direction::ClientToServer
    }
}

impl From<u8> for Direction {
    fn from(val: u8) -> (d: Direction)
        ensures
            d == direction_of(val),
    {
        if val == 0 {
            Direction::ServerToClient
        } else {
            Direction::ClientToServer
        }
    }
}

impl vstd::std_specs::convert::FromSpecImpl<u8> for Direction {
    open spec fn obeys_from_spec() -> bool {
        true
    }

    open spec fn from_spec(v: u8) -> Direction {
        direction_of(v)
    }
}

/// Model of a recorded packet.
pub struct PacketRecord {
    pub id: usize,
    pub timestamp: u32,
    pub direction: Direction,
    pub opcode: u32,
    pub opcode_name: Seq<char>,
    pub size: usize,
    pub data: Seq<u8>,
}

/// A packet recorded in a session.
#[derive(Debug)]
pub struct Packet {
    pub id: usize,
    pub timestamp: u32,
    pub direction: Direction,
    pub opcode: u32,
    pub opcode_name: String,
    pub size: usize,
    pub data: Vec<u8>,
}

impl View for Packet {
    type V = PacketRecord;

    open spec fn view(&self) -> PacketRecord {
        PacketRecord {
            id: self.id,
            timestamp: self.timestamp,
            direction: self.direction,
            opcode: self.opcode,
            opcode_name: self.opcode_name@,
            size: self.size,
            data: self.data@,
        }
    }
}

fn copy_bytes(v: &Vec<u8>) -> (r: Vec<u8>)
    ensures
        r@ == v@,
{
    let mut r: Vec<u8> = Vec::with_capacity(v.len());
    let mut i: usize = 0;
    while i < v.len()
        invariant
            i <= v@.len(),
            r@ == v@.take(i as int),
        decreases v@.len() - i,
    {
        r.push(v[i]);
        proof {
            assert(r@ =~= v@.take(i + 1));
        }
        i = i + 1;
    }
    proof {
        assert(v@.take(v@.len() as int) =~= v@);
    }
    r
}

impl Packet {
    /// A copy of this packet.
    pub fn duplicate(&self) -> (p: Packet)
        ensures
            p@ == self@,
    {
        Packet {
            id: self.id,
            timestamp: self.timestamp,
            direction: self.direction,
            opcode: self.opcode,
            opcode_name: self.opcode_name.clone(),
            size: self.size,
            data: copy_bytes(&self.data),
        }
    }
}

/// A packet without its payload bytes.
#[derive(Debug)]
pub struct PacketSummary {
    pub id: usize,
    pub timestamp: u32,
    pub direction: Direction,
    pub opcode: u32,
    pub opcode_name: String,
    pub size: usize,
}

impl<'a> From<&'a Packet> for PacketSummary {
    fn from(p: &'a Packet) -> (s: PacketSummary)
        ensures
            s.id == p.id && s.timestamp == p.timestamp && s.direction == p.direction && s.opcode
                == p.opcode && s.opcode_name@ == p.opcode_name@ && s.size == p.size,
    {
        PacketSummary::of(p)
    }
}

impl<'a> vstd::std_specs::convert::FromSpecImpl<&'a Packet> for PacketSummary {
    open spec fn obeys_from_spec() -> bool {
        true
    }

    open spec fn from_spec(p: &'a Packet) -> PacketSummary {
        PacketSummary {
            id: p.id,
            timestamp: p.timestamp,
            direction: p.direction,
            opcode: p.opcode,
            opcode_name: p.opcode_name,
            size: p.size,
        }
    }
}

impl PacketSummary {
    /// The summary of `p`.
    pub fn of(p: &Packet) -> (s: PacketSummary)
        ensures
            s.opcode_name == p.opcode_name,
            s.id == p.id && s.timestamp == p.timestamp && s.direction == p.direction && s.opcode
                == p.opcode && s.opcode_name@ == p.opcode_name@ && s.size == p.size,
    {
        PacketSummary {
            id: p.id,
            timestamp: p.timestamp,
            direction: p.direction,
            opcode: p.opcode,
            opcode_name: p.opcode_name.clone(),
            size: p.size,
        }
    }
}

/// The process capture is attached to.
#[derive(Debug)]
pub struct AttachedProcess {
    pub pid: u32,
    pub build: u32,
    pub version_name: String,
}

/// A named capture session.
#[derive(Debug)]
pub struct Session {
    pub id: String,
    pub name: String,
    /// Creation time, RFC 3339.
    pub created_at: String,
    /// Build of the process captured into it, once attached.
    pub build: Option<u32>,
    pub packets: Vec<Packet>,
    /// Id the next recorded packet gets.
    pub next_packet_id: usize,
}

/// Relies on `uuid::Uuid::new_v4` and its `Display`: a random version-4
/// UUID in hyphenated form, which is 36 characters long.
#[verifier::external_body]
fn fresh_session_id() -> (id: String)
    ensures
        id@.len() == 36,
{
    uuid::Uuid::new_v4().to_string()
}

/// Relies on `chrono::Utc::now` and `DateTime::to_rfc3339`: the current
/// time as an RFC 3339 string.
#[verifier::external_body]
fn now_rfc3339() -> (t: String) {
    chrono::Utc::now().to_rfc3339()
}

impl Session {
    /// An empty session with the given identity.
    pub fn with_identity(id: String, name: String, created_at: String) -> (s: Session)
        ensures
            s.id@ == id@ && s.name@ == name@ && s.created_at@ == created_at@,
            s.build is None,
            s.packets@.len() == 0,
            s.next_packet_id == 0,
    {
        Session { id, name, created_at, build: None, packets: Vec::new(), next_packet_id: 0 }
    }

    /// A new empty session named `name`, with a fresh random id and the
    /// current time as its creation time.
    pub fn new(name: String) -> (s: Session)
        ensures
            s.name@ == name@,
            s.id@.len() == 36,
            s.build is None,
            s.packets@.len() == 0,
            s.next_packet_id == 0,
    {
        let id = fresh_session_id();
        let created_at = now_rfc3339();
        Session::with_identity(id, name, created_at)
    }

    /// Rebuilds a session from its saved parts; the next packet id is one
    /// past the largest recorded id, or 0 when there are no packets.
    pub fn restored(
        id: String,
        name: String,
        created_at: String,
        build: Option<u32>,
        packets: Vec<Packet>,
    ) -> (s: Session)
        requires
            forall|i: int| 0 <= i < packets@.len() ==> packets@[i].id < usize::MAX,
        ensures
            s.id@ == id@ && s.name@ == name@ && s.created_at@ == created_at@,
            s.build == build,
            s.packets@ == packets@,
            forall|i: int| 0 <= i < s.packets@.len() ==> s.packets@[i].id < s.next_packet_id,
            s.packets@.len() == 0 ==> s.next_packet_id == 0,
            s.packets@.len() > 0 ==> exists|i: int|
                0 <= i < s.packets@.len() && s.next_packet_id == s.packets@[i].id + 1,
    {
        let mut next: usize = 0;
        let mut i: usize = 0;
        while i < packets.len()
            invariant
                i <= packets@.len(),
                forall|j: int| 0 <= j < packets@.len() ==> packets@[j].id < usize::MAX,
                forall|j: int| 0 <= j < i ==> packets@[j].id < next,
                i == 0 ==> next == 0,
                i > 0 ==> exists|j: int| 0 <= j < i && next == packets@[j].id + 1,
            decreases packets@.len() - i,
        {
            if packets[i].id + 1 > next {
                next = packets[i].id + 1;
            }
            i = i + 1;
        }
        Session { id, name, created_at, build, packets, next_packet_id: next }
    }
}

/// Session metadata without the packets.
#[derive(Debug)]
pub struct SessionInfo {
    pub id: String,
    pub name: String,
    pub created_at: String,
    pub packet_count: usize,
    pub build: Option<u32>,
}

impl<'a> From<&'a Session> for SessionInfo {
    fn from(s: &'a Session) -> (info: SessionInfo)
        ensures
            info.id@ == s.id@ && info.name@ == s.name@ && info.created_at@ == s.created_at@,
            info.packet_count == s.packets@.len(),
            info.build == s.build,
    {
        SessionInfo::of(s)
    }
}

impl<'a> vstd::std_specs::convert::FromSpecImpl<&'a Session> for SessionInfo {
    open spec fn obeys_from_spec() -> bool {
        true
    }

    open spec fn from_spec(s: &'a Session) -> SessionInfo {
        SessionInfo {
            id: s.id,
            name: s.name,
            created_at: s.created_at,
            packet_count: s.packets@.len() as usize,
            build: s.build,
        }
    }
}

impl SessionInfo {
    /// The metadata of `s`.
    pub fn of(s: &Session) -> (info: SessionInfo)
        ensures
            info.id == s.id && info.name == s.name && info.created_at == s.created_at,
            info.id@ == s.id@ && info.name@ == s.name@ && info.created_at@ == s.created_at@,
            info.packet_count == s.packets@.len(),
            info.build == s.build,
    {
        SessionInfo {
            id: s.id.clone(),
            name: s.name.clone(),
            created_at: s.created_at.clone(),
            packet_count: s.packets.len(),
            build: s.build,
        }
    }
}

/// The sessions, the active one, the attached process and whether capture runs.
#[derive(Debug)]
pub struct AppState {
    pub sessions: Vec<Session>,
    pub active_session_id: Option<String>,
    pub attached: Option<AttachedProcess>,
    pub capturing: bool,
}

/// Index of the session with id `id` in `ss`, if any; ids are unique.
pub open spec fn session_index(ss: Seq<Session>, id: Seq<char>, i: int) -> bool {
    0 <= i < ss.len() && ss[i].id@ == id
}

/// No session of `ss` has id `id`.
pub open spec fn no_session(ss: Seq<Session>, id: Seq<char>) -> bool {
    forall|i: int| 0 <= i < ss.len() ==> ss[i].id@ != id
}

impl AppState {
    /// Session ids are unique.
    pub open spec fn wf(&self) -> bool {
        forall|i: int, j: int|
            0 <= i < self.sessions@.len() && 0 <= j < self.sessions@.len() && i != j
                ==> self.sessions@[i].id@ != self.sessions@[j].id@
    }

    /// Id of the active session, if any.
    pub open spec fn active(&self) -> Option<Seq<char>> {
        match self.active_session_id {
            Some(id) => Some(id@),
            None => None,
        }
    }

    /// State with one empty session named "Untitled", which is active;
    /// nothing attached, not capturing.
    pub fn new() -> (st: AppState)
        ensures
            st.wf(),
            st.sessions@.len() == 1,
            st.sessions@[0].name@ == "Untitled"@,
            st.sessions@[0].packets@.len() == 0,
            st.active() == Some(st.sessions@[0].id@),
            st.attached is None,
            !st.capturing,
    {
        let session = Session::new("Untitled".to_owned());
        let id = session.id.clone();
        let mut sessions: Vec<Session> = Vec::new();
        sessions.push(session);
        AppState { sessions, active_session_id: Some(id), attached: None, capturing: false }
    }

    /// Position of the session with id `id`.
    pub fn find_session(&self, id: &String) -> (r: Option<usize>)
        requires
            self.wf(),
        ensures
            r matches Some(i) ==> session_index(self.sessions@, id@, i as int),
            r is None ==> no_session(self.sessions@, id@),
    {
        let mut i: usize = 0;
        while i < self.sessions.len()
            invariant
                i <= self.sessions@.len(),
                forall|j: int| 0 <= j < i ==> self.sessions@[j].id@ != id@,
            decreases self.sessions@.len() - i,
        {
            if self.sessions[i].id == *id {
                return Some(i);
            }
            i = i + 1;
        }
        None
    }

    /// Position of the active session, if there is one and it exists.
    pub fn active_index(&self) -> (r: Option<usize>)
        requires
            self.wf(),
        ensures
            r matches Some(i) ==> self.active() matches Some(id) && session_index(
                self.sessions@,
                id,
                i as int,
            ),
            r is None ==> (self.active() matches Some(id) ==> no_session(self.sessions@, id)),
    {
        match &self.active_session_id {
            Some(id) => self.find_session(id),
            None => None,
        }
    }

    /// Adds `session`, replacing a session with the same id.
    pub fn insert_session(&mut self, session: Session)
        requires
            old(self).wf(),
        ensures
            final(self).wf(),
            exists|i: int|
                0 <= i < final(self).sessions@.len() && final(self).sessions@[i] == session,
            final(self).active_session_id == old(self).active_session_id,
            final(self).attached == old(self).attached,
            final(self).capturing == old(self).capturing,
    {
        match self.find_session(&session.id) {
            Some(i) => {
                self.sessions.set(i, session);
                proof {
                    assert(final(self).sessions@[i as int] == session);
                }
            },
            None => {
                self.sessions.push(session);
                proof {
                    let n = self.sessions@.len() - 1;
                    assert(self.sessions@[n] == session);
                }
            },
        }
    }

    /// Records the attached process, stamps the active session with its
    /// build and starts capturing.
    pub fn update_attached_state(&mut self, pid: u32, build: u32, version_name: String)
        requires
            old(self).wf(),
        ensures
            final(self).wf(),
            final(self).attached matches Some(a) && a.pid == pid && a.build == build
                && a.version_name@ == version_name@,
            final(self).capturing,
            final(self).active_session_id == old(self).active_session_id,
            final(self).sessions@.len() == old(self).sessions@.len(),
            forall|i: int|
                0 <= i < final(self).sessions@.len() ==> final(self).sessions@[i].id
                    == old(self).sessions@[i].id && final(self).sessions@[i].packets
                    == old(self).sessions@[i].packets && if old(self).active() == Some(
                    old(self).sessions@[i].id@,
                ) {
                    final(self).sessions@[i].build == Some(build)
                } else {
                    final(self).sessions@[i].build == old(self).sessions@[i].build
                },
    {
        self.attached = Some(AttachedProcess { pid, build, version_name });
        match self.active_index() {
            Some(i) => {
                let mut s = self.sessions.remove(i);
                s.build = Some(build);
                self.sessions.insert(i, s);
                proof {
                    assert forall|j: int|
                        0 <= j < self.sessions@.len() && j != i implies self.sessions@[j]
                        == old(self).sessions@[j] by {}
                    assert forall|j: int|
                        0 <= j < self.sessions@.len() && j != i implies old(self).active() != Some(
                        old(self).sessions@[j].id@,
                    ) by {}
                }
            },
            None => {},
        }
        self.capturing = true;
    }

    /// Stops capturing and forgets the attached process.
    pub fn detach(&mut self)
        requires
            old(self).wf(),
        ensures
            final(self).wf(),
            !final(self).capturing,
            final(self).attached is None,
            final(self).sessions == old(self).sessions,
            final(self).active_session_id == old(self).active_session_id,
    {
        self.capturing = false;
        self.attached = None;
    }
}

/// `Session <id> not found`.
pub open spec fn not_found_message(id: Seq<char>) -> Seq<char> {
    "Session "@ + id + " not found"@
}

fn not_found(id: &String) -> (m: String)
    ensures
        m@ == not_found_message(id@),
{
    let mut m = "Session ".to_owned();
    push_text(&mut m, id.as_str());
    push_text(&mut m, " not found");
    m
}

impl AppState {
    /// Appends `raw` to the active session under the next packet id, which
    /// is returned; `None` when no active session exists or its packet ids
    /// are exhausted.
    pub fn record_packet(&mut self, raw: RawPacket, opcode_name: String) -> (r: Option<usize>)
        requires
            old(self).wf(),
        ensures
            final(self).wf(),
            final(self).active_session_id == old(self).active_session_id,
            final(self).sessions@.len() == old(self).sessions@.len(),
            r is None ==> final(self).sessions@ == old(self).sessions@,
            r is Some <==> (old(self).active() is Some && exists|i: int|
                session_index(old(self).sessions@, old(self).active()->0, i)
                    && old(self).sessions@[i].next_packet_id < usize::MAX),
            r matches Some(id) ==> exists|i: int|
                {
                    &&& session_index(old(self).sessions@, old(self).active()->0, i)
                    &&& old(self).sessions@[i].next_packet_id < usize::MAX
                    &&& id == old(self).sessions@[i].next_packet_id
                    &&& final(self).sessions@[i].next_packet_id == id + 1
                    &&& final(self).sessions@[i].id == old(self).sessions@[i].id
                    &&& final(self).sessions@[i].packets@.len() == old(self).sessions@[i].packets@.len() + 1
                    &&& final(self).sessions@[i].packets@.last()@ == (PacketRecord {
                        id,
                        timestamp: raw.timestamp,
                        direction: direction_of(raw.direction),
                        opcode: raw.opcode,
                        opcode_name: opcode_name@,
                        size: raw.data@.len() as usize,
                        data: raw.data@,
                    })
                    &&& forall|j: int|
                        0 <= j < old(self).sessions@.len() && j != i ==> final(self).sessions@[j]
                            == old(self).sessions@[j]
                },
    {
        let i = match self.active_index() {
            Some(i) => i,
            None => {
                return None;
            },
        };
        if self.sessions[i].next_packet_id == usize::MAX {
            return None;
        }
        let mut s = self.sessions.remove(i);
        let id = s.next_packet_id;
        s.next_packet_id = id + 1;
        let size = raw.data.len();
        let packet = Packet {
            id,
            timestamp: raw.timestamp,
            direction: Direction::from(raw.direction),
            opcode: raw.opcode,
            opcode_name,
            size,
            data: raw.data,
        };
        s.packets.push(packet);
        self.sessions.insert(i, s);
        proof {
            assert forall|a: int, b: int|
                0 <= a < self.sessions@.len() && 0 <= b < self.sessions@.len() && a != b implies
                self.sessions@[a].id@ != self.sessions@[b].id@ by {
                assert(self.sessions@[i as int].id == old(self).sessions@[i as int].id);
                if a != i && b != i {
                    assert(self.sessions@[a] == old(self).sessions@[a]);
                    assert(self.sessions@[b] == old(self).sessions@[b]);
                } else if a == i {
                    assert(self.sessions@[b] == old(self).sessions@[b]);
                } else {
                    assert(self.sessions@[a] == old(self).sessions@[a]);
                }
            }
            assert forall|j: int|
                0 <= j < old(self).sessions@.len() && j != i implies self.sessions@[j] == old(self).sessions@[j] by {}
        }
        Some(id)
    }

    /// Number of packets in the active session, 0 when there is none.
    pub fn packet_count(&self) -> (n: usize)
        requires
            self.wf(),
        ensures
            (exists|i: int|
                session_index(self.sessions@, self.active()->0, i) && n
                    == self.sessions@[i].packets@.len()) || (n == 0 && (self.active() is None
                || no_session(self.sessions@, self.active()->0))),
    {
        match self.active_index() {
            Some(i) => self.sessions[i].packets.len(),
            None => 0,
        }
    }

    /// Metadata of every session, in storage order.
    pub fn session_infos(&self) -> (infos: Vec<SessionInfo>)
        ensures
            infos@.len() == self.sessions@.len(),
            forall|i: int|
                0 <= i < infos@.len() ==> infos@[i].id@ == self.sessions@[i].id@
                    && infos@[i].name@ == self.sessions@[i].name@ && infos@[i].packet_count
                    == self.sessions@[i].packets@.len() && infos@[i].build
                    == self.sessions@[i].build,
    {
        let mut infos: Vec<SessionInfo> = Vec::new();
        let mut i: usize = 0;
        while i < self.sessions.len()
            invariant
                i <= self.sessions@.len(),
                infos@.len() == i,
                forall|k: int|
                    0 <= k < i ==> infos@[k].id@ == self.sessions@[k].id@ && infos@[k].name@
                        == self.sessions@[k].name@ && infos@[k].packet_count
                        == self.sessions@[k].packets@.len() && infos@[k].build
                        == self.sessions@[k].build,
            decreases self.sessions@.len() - i,
        {
            infos.push(SessionInfo::of(&self.sessions[i]));
            i = i + 1;
        }
        infos
    }

    /// Makes the session `id` active, or reports that it does not exist.
    pub fn switch_session(&mut self, id: String) -> (r: Result<(), String>)
        requires
            old(self).wf(),
        ensures
            final(self).wf(),
            final(self).sessions == old(self).sessions,
            r is Ok <==> !no_session(old(self).sessions@, id@),
            r is Ok ==> final(self).active() == Some(id@),
            r is Err ==> final(self).active_session_id == old(self).active_session_id
                && r->Err_0@ == not_found_message(id@),
    {
        match self.find_session(&id) {
            Some(_) => {
                self.active_session_id = Some(id);
                Ok(())
            },
            None => Err(not_found(&id)),
        }
    }

    /// Renames the session `id`, or reports that it does not exist.
    pub fn rename_session(&mut self, id: String, new_name: String) -> (r: Result<(), String>)
        requires
            old(self).wf(),
        ensures
            final(self).wf(),
            final(self).active_session_id == old(self).active_session_id,
            final(self).sessions@.len() == old(self).sessions@.len(),
            r is Ok <==> !no_session(old(self).sessions@, id@),
            r is Err ==> final(self).sessions == old(self).sessions && r->Err_0@
                == not_found_message(id@),
            r is Ok ==> forall|i: int|
                0 <= i < old(self).sessions@.len() ==> final(self).sessions@[i].id
                    == old(self).sessions@[i].id && final(self).sessions@[i].packets
                    == old(self).sessions@[i].packets && if old(self).sessions@[i].id@ == id@ {
                    final(self).sessions@[i].name@ == new_name@
                } else {
                    final(self).sessions@[i] == old(self).sessions@[i]
                },
    {
        match self.find_session(&id) {
            Some(i) => {
                let mut s = self.sessions.remove(i);
                s.name = new_name;
                self.sessions.insert(i, s);
                proof {
                    assert forall|j: int|
                        0 <= j < old(self).sessions@.len() && j != i implies self.sessions@[j]
                        == old(self).sessions@[j] && old(self).sessions@[j].id@ != id@ by {}
                }
                Ok(())
            },
            None => Err(not_found(&id)),
        }
    }

    /// Removes the session `id`; when it was active, the first remaining
    /// session becomes active.  The last session cannot be closed.
    pub fn close_session(&mut self, id: String) -> (r: Result<(), String>)
        requires
            old(self).wf(),
        ensures
            final(self).wf(),
            old(self).sessions@.len() <= 1 <==> r is Err,
            r is Err ==> final(self).sessions == old(self).sessions && final(self).active_session_id == old(self).active_session_id && r->Err_0@
                == "Cannot close the last session"@,
            r is Ok ==> no_session(final(self).sessions@, id@) && (forall|i: int|
                0 <= i < old(self).sessions@.len() && old(self).sessions@[i].id@ != id@
                    ==> exists|j: int|
                    0 <= j < final(self).sessions@.len() && final(self).sessions@[j]
                        == old(self).sessions@[i]),
            r is Ok && old(self).active() != Some(id@) ==> final(self).active_session_id == old(self).active_session_id,
            r is Ok && old(self).active() == Some(id@) ==> final(self).active() == Some(
                final(self).sessions@[0].id@,
            ),
    {
        if self.sessions.len() <= 1 {
            return Err("Cannot close the last session".to_owned());
        }
        match self.find_session(&id) {
            Some(i) => {
                let _removed = self.sessions.remove(i);
                proof {
                    assert forall|k: int|
                        0 <= k < old(self).sessions@.len() && old(self).sessions@[k].id@
                            != id@ implies exists|j: int|
                        0 <= j < self.sessions@.len() && self.sessions@[j] == old(self).sessions@[k] by {
                        if k < i {
                            assert(self.sessions@[k] == old(self).sessions@[k]);
                        } else {
                            assert(self.sessions@[k - 1] == old(self).sessions@[k]);
                        }
                    }
                }
            },
            None => {
                proof {
                    assert forall|k: int|
                        0 <= k < old(self).sessions@.len() && old(self).sessions@[k].id@
                            != id@ implies exists|j: int|
                        0 <= j < self.sessions@.len() && self.sessions@[j] == old(self).sessions@[k] by {
                        assert(self.sessions@[k] == old(self).sessions@[k]);
                    }
                }
            },
        }
        let was_active = match &self.active_session_id {
            Some(a) => *a == id,
            None => false,
        };
        if was_active {
            self.active_session_id = Some(self.sessions[0].id.clone());
        }
        Ok(())
    }

    /// Empties the session `id` and restarts its packet ids at 0.
    pub fn clear_packets(&mut self, id: String)
        requires
            old(self).wf(),
        ensures
            final(self).wf(),
            final(self).active_session_id == old(self).active_session_id,
            final(self).sessions@.len() == old(self).sessions@.len(),
            forall|i: int|
                0 <= i < old(self).sessions@.len() ==> if old(self).sessions@[i].id@ == id@ {
                    final(self).sessions@[i].id == old(self).sessions@[i].id
                        && final(self).sessions@[i].packets@.len() == 0
                        && final(self).sessions@[i].next_packet_id == 0
                } else {
                    final(self).sessions@[i] == old(self).sessions@[i]
                },
    {
        match self.find_session(&id) {
            Some(i) => {
                let mut s = self.sessions.remove(i);
                s.packets = Vec::new();
                s.next_packet_id = 0;
                self.sessions.insert(i, s);
                proof {
                    assert forall|j: int|
                        0 <= j < old(self).sessions@.len() && j != i implies self.sessions@[j]
                        == old(self).sessions@[j] && old(self).sessions@[j].id@ != id@ by {}
                }
            },
            None => {},
        }
    }

    /// Summaries of the packets of session `id`, in order; empty when the
    /// session does not exist.
    pub fn packet_summaries(&self, id: &String) -> (r: Vec<PacketSummary>)
        requires
            self.wf(),
        ensures
            no_session(self.sessions@, id@) ==> r@.len() == 0,
            forall|i: int|
                session_index(self.sessions@, id@, i) ==> r@.len()
                    == self.sessions@[i].packets@.len() && forall|k: int|
                    0 <= k < r@.len() ==> r@[k].id == self.sessions@[i].packets@[k].id
                        && r@[k].opcode == self.sessions@[i].packets@[k].opcode
                        && r@[k].size == self.sessions@[i].packets@[k].size,
    {
        let mut out: Vec<PacketSummary> = Vec::new();
        match self.find_session(id) {
            Some(i) => {
                let packets = &self.sessions[i].packets;
                let mut k: usize = 0;
                while k < packets.len()
                    invariant
                        k <= packets@.len(),
                        out@.len() == k,
                        forall|m: int|
                            0 <= m < k ==> out@[m].id == packets@[m].id && out@[m].opcode
                                == packets@[m].opcode && out@[m].size == packets@[m].size,
                    decreases packets@.len() - k,
                {
                    out.push(PacketSummary::of(&packets[k]));
                    k = k + 1;
                }
            },
            None => {},
        }
        out
    }

    /// Up to `limit` packets of session `id` starting at position `offset`;
    /// empty when the session does not exist.
    pub fn packets_page(&self, id: &String, offset: usize, limit: usize) -> (r: Vec<Packet>)
        requires
            self.wf(),
        ensures
            no_session(self.sessions@, id@) ==> r@.len() == 0,
            forall|i: int|
                session_index(self.sessions@, id@, i) ==> {
                    let ps = self.sessions@[i].packets@;
                    let start = if offset < ps.len() {
                        offset as int
                    } else {
                        ps.len() as int
                    };
                    let end = if limit < ps.len() - start {
                        start + limit
                    } else {
                        ps.len() as int
                    };
                    &&& r@.len() == end - start
                    &&& forall|k: int| 0 <= k < r@.len() ==> r@[k]@ == ps[start + k]@
                },
    {
        let mut out: Vec<Packet> = Vec::new();
        match self.find_session(id) {
            Some(i) => {
                let packets = &self.sessions[i].packets;
                let n = packets.len();
                let start = if offset < n {
                    offset
                } else {
                    n
                };
                let end = if limit < n - start {
                    start + limit
                } else {
                    n
                };
                let mut k: usize = start;
                while k < end
                    invariant
                        start <= k <= end <= packets@.len(),
                        out@.len() == k - start,
                        forall|m: int| 0 <= m < out@.len() ==> out@[m]@ == packets@[start + m]@,
                    decreases end - k,
                {
                    out.push(packets[k].duplicate());
                    k = k + 1;
                }
            },
            None => {},
        }
        out
    }

    /// The first packet of session `id` whose id is `packet_id`.
    pub fn packet_detail(&self, id: &String, packet_id: usize) -> (r: Option<Packet>)
        requires
            self.wf(),
        ensures
            no_session(self.sessions@, id@) ==> r is None,
            forall|i: int|
                session_index(self.sessions@, id@, i) ==> {
                    let ps = self.sessions@[i].packets@;
                    &&& r is None ==> forall|k: int| 0 <= k < ps.len() ==> ps[k].id != packet_id
                    &&& r matches Some(p) ==> exists|k: int|
                        0 <= k < ps.len() && ps[k]@ == p@ && p.id == packet_id && forall|m: int|
                            0 <= m < k ==> ps[m].id != packet_id
                },
    {
        match self.find_session(id) {
            Some(i) => {
                let packets = &self.sessions[i].packets;
                let mut k: usize = 0;
                while k < packets.len()
                    invariant
                        self.wf(),
                        session_index(self.sessions@, id@, i as int),
                        *packets == self.sessions@[i as int].packets,
                        k <= packets@.len(),
                        forall|m: int| 0 <= m < k ==> packets@[m].id != packet_id,
                    decreases packets@.len() - k,
                {
                    if packets[k].id == packet_id {
                        return Some(packets[k].duplicate());
                    }
                    k = k + 1;
                }
                None
            },
            None => None,
        }
    }
}

/// Format version written into session files.
pub const SESSION_FILE_VERSION: u32 = 1;

/// A session as it is saved to disk.
#[derive(Debug)]
pub struct SessionFile {
    pub version: u32,
    pub id: String,
    pub name: String,
    pub created_at: String,
    /// Time of saving, RFC 3339.
    pub saved_at: String,
    pub build: Option<u32>,
    pub packets: Vec<Packet>,
}

/// Metadata of a saved session file.
#[derive(Debug)]
pub struct SavedSessionMeta {
    pub id: String,
    pub name: String,
    pub created_at: String,
    pub saved_at: String,
    pub packet_count: usize,
    pub file_path: String,
    pub build: Option<u32>,
}

fn copy_packets(ps: &Vec<Packet>) -> (r: Vec<Packet>)
    ensures
        r@.len() == ps@.len(),
        forall|i: int| 0 <= i < ps@.len() ==> r@[i]@ == ps@[i]@,
{
    let mut r: Vec<Packet> = Vec::new();
    let mut i: usize = 0;
    while i < ps.len()
        invariant
            i <= ps@.len(),
            r@.len() == i,
            forall|k: int| 0 <= k < i ==> r@[k]@ == ps@[k]@,
        decreases ps@.len() - i,
    {
        r.push(ps[i].duplicate());
        i = i + 1;
    }
    r
}

impl SessionFile {
    /// The file contents for `session` saved at `saved_at`.
    pub fn of(session: &Session, saved_at: String) -> (f: SessionFile)
        ensures
            f.version == SESSION_FILE_VERSION,
            f.id@ == session.id@ && f.name@ == session.name@ && f.created_at@
                == session.created_at@,
            f.saved_at@ == saved_at@,
            f.build == session.build,
            f.packets@.len() == session.packets@.len(),
            forall|i: int| 0 <= i < f.packets@.len() ==> f.packets@[i]@ == session.packets@[i]@,
    {
        SessionFile {
            version: SESSION_FILE_VERSION,
            id: session.id.clone(),
            name: session.name.clone(),
            created_at: session.created_at.clone(),
            saved_at,
            build: session.build,
            packets: copy_packets(&session.packets),
        }
    }

    /// The session a file holds; `None` when a packet id leaves no room for
    /// a next id.
    pub fn to_session(self) -> (r: Option<Session>)
        ensures
            (exists|i: int| 0 <= i < self.packets@.len() && self.packets@[i].id == usize::MAX)
                <==> r is None,
            r matches Some(s) ==> s.id@ == self.id@ && s.name@ == self.name@ && s.created_at@
                == self.created_at@ && s.build == self.build && s.packets@ == self.packets@
                && (forall|i: int|
                0 <= i < s.packets@.len() ==> s.packets@[i].id < s.next_packet_id) && (
            s.packets@.len() == 0 ==> s.next_packet_id == 0),
    {
        let mut i: usize = 0;
        while i < self.packets.len()
            invariant
                i <= self.packets@.len(),
                forall|k: int| 0 <= k < i ==> self.packets@[k].id < usize::MAX,
            decreases self.packets@.len() - i,
        {
            if self.packets[i].id == usize::MAX {
                return None;
            }
            i = i + 1;
        }
        Some(Session::restored(self.id, self.name, self.created_at, self.build, self.packets))
    }
}

impl SavedSessionMeta {
    /// The metadata listed for `file`, found at `file_path`.
    pub fn of(file: &SessionFile, file_path: String) -> (m: SavedSessionMeta)
        ensures
            m.id@ == file.id@ && m.name@ == file.name@ && m.created_at@ == file.created_at@
                && m.saved_at@ == file.saved_at@,
            m.packet_count == file.packets@.len(),
            m.file_path@ == file_path@,
            m.build == file.build,
    {
        SavedSessionMeta {
            id: file.id.clone(),
            name: file.name.clone(),
            created_at: file.created_at.clone(),
            saved_at: file.saved_at.clone(),
            packet_count: file.packets.len(),
            file_path,
            build: file.build,
        }
    }
}

} // verus!
