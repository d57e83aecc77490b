//! The registry of live transport sessions, keyed by session id.
use vstd::prelude::*;
use crate::address::SocketAddress;
use crate::config::AsyncTransportConfig;
use crate::error::TransportError;
use crate::session::UdpOperation;
use crate::text::text_eq;

verus! {

/// One live session: its id, the configuration it was opened with, the
/// handle through which its owner reaches its background task, and the
/// addresses its transport reported when it was opened.
pub struct SessionEntry<H> {
    pub id: String,
    pub config: AsyncTransportConfig,
    pub handle: H,
    pub local_addr: Option<SocketAddress>,
    pub peer_addr: Option<SocketAddress>,
}

/// A transport that has just been opened, with the addresses it reports.
pub struct OpenedTransport<T> {
    pub transport: T,
    pub local_addr: Option<SocketAddress>,
    pub peer_addr: Option<SocketAddress>,
}

/// Whether no two entries of `s` share an id.
pub open spec fn ids_distinct<H>(s: Seq<SessionEntry<H>>) -> bool {
    forall|i: int, j: int|
        0 <= i < s.len() && 0 <= j < s.len() && i != j ==> #[trigger] s[i].id@ != #[trigger] s[j].id@
}

/// The entries of `s` keyed by their ids; a later entry wins over an
/// earlier one with the same id.
pub open spec fn entries_map<H>(s: Seq<SessionEntry<H>>) -> Map<Seq<char>, SessionEntry<H>>
    decreases s.len(),
{
    if s.len() == 0 {
        Map::empty()
    } else {
        entries_map(s.drop_last()).insert(s.last().id@, s.last())
    }
}

proof fn lemma_entries_map_lookup<H>(s: Seq<SessionEntry<H>>)
    requires
        ids_distinct(s),
    ensures
        forall|k: Seq<char>|
            #[trigger] entries_map(s).contains_key(k) <==> exists|i: int|
                0 <= i < s.len() && s[i].id@ == k,
        forall|i: int| 0 <= i < s.len() ==> #[trigger] entries_map(s)[s[i].id@] == s[i],
        entries_map(s).dom().finite(),
        entries_map(s).len() == s.len(),
    decreases s.len(),
{
    if s.len() > 0 {
        let t = s.drop_last();
        assert(ids_distinct(t));
        lemma_entries_map_lookup(t);
        let last = s.last();
        assert forall|k: Seq<char>| #[trigger]
            entries_map(s).contains_key(k) <==> exists|i: int| 0 <= i < s.len() && s[i].id@ == k by {
            if entries_map(s).contains_key(k) && k != last.id@ {
                let i = choose|i: int| 0 <= i < t.len() && t[i].id@ == k;
                assert(s[i].id@ == k);
            }
            if exists|i: int| 0 <= i < s.len() && s[i].id@ == k {
                let i = choose|i: int| 0 <= i < s.len() && s[i].id@ == k;
                if i < s.len() - 1 {
                    assert(t[i].id@ == k);
                }
            }
        }
        assert forall|i: int| 0 <= i < s.len() implies #[trigger] entries_map(s)[s[i].id@] == s[i] by {
            if i < s.len() - 1 {
                assert(s[i].id@ != s[s.len() - 1].id@);
                assert(t[i] == s[i]);
            }
        }
        assert(!entries_map(t).contains_key(last.id@)) by {
            if entries_map(t).contains_key(last.id@) {
                let i = choose|i: int| 0 <= i < t.len() && t[i].id@ == last.id@;
                assert(s[i].id@ == s[s.len() - 1].id@);
            }
        }
    }
}

proof fn lemma_entries_map_remove<H>(s: Seq<SessionEntry<H>>, i: int)
    requires
        ids_distinct(s),
        0 <= i < s.len(),
    ensures
        ids_distinct(s.remove(i)),
        entries_map(s.remove(i)) == entries_map(s).remove(s[i].id@),
{
    let r = s.remove(i);
    assert(ids_distinct(r)) by {
        assert forall|a: int, b: int|
            0 <= a < r.len() && 0 <= b < r.len() && a != b implies #[trigger] r[a].id@ != #[trigger] r[b].id@ by {
            let sa = if a < i { a } else { a + 1 };
            let sb = if b < i { b } else { b + 1 };
            assert(r[a] == s[sa]);
            assert(r[b] == s[sb]);
        }
    }
    lemma_entries_map_lookup(s);
    lemma_entries_map_lookup(r);
    let m1 = entries_map(r);
    let m2 = entries_map(s).remove(s[i].id@);
    assert forall|k: Seq<char>| m1.contains_key(k) <==> m2.contains_key(k) by {
        if m1.contains_key(k) {
            let a = choose|a: int| 0 <= a < r.len() && r[a].id@ == k;
            let sa = if a < i { a } else { a + 1 };
            assert(r[a] == s[sa]);
            assert(s[sa].id@ != s[i].id@);
        }
        if m2.contains_key(k) {
            let a = choose|a: int| 0 <= a < s.len() && s[a].id@ == k;
            assert(a != i);
            let ra = if a < i { a } else { a - 1 };
            assert(r[ra] == s[a]);
        }
    }
    assert forall|k: Seq<char>| m1.contains_key(k) implies m1[k] == m2[k] by {
        let a = choose|a: int| 0 <= a < r.len() && r[a].id@ == k;
        let sa = if a < i { a } else { a + 1 };
        assert(r[a] == s[sa]);
        assert(m1[r[a].id@] == r[a]);
        assert(entries_map(s)[s[sa].id@] == s[sa]);
    }
    assert(m1 =~= m2);
}

/// The live sessions, each under a distinct id.
///
/// The sessions are held in a `Vec` whose ids are distinct, viewed as a map
/// from id to entry. A `HashMap` keyed by the `String` id would give its
/// contracts only under `obeys_key_model::<String>()`, which vstd states for
/// integer and `bool` keys but not for `String`, so lookups by id could not
/// be proved through it.
pub struct SessionRegistry<H> {
    sessions: Vec<SessionEntry<H>>,
}

impl<H> View for SessionRegistry<H> {
    type V = Map<Seq<char>, SessionEntry<H>>;

    closed spec fn view(&self) -> Map<Seq<char>, SessionEntry<H>> {
        entries_map(self.sessions@)
    }
}

/// The message for an id that is already taken.
pub open spec fn session_exists_error(id: Seq<char>) -> Seq<char> {
    "Session '"@ + id + "' already exists"@
}

/// The message for an id that names no session.
pub open spec fn session_not_found_error(id: Seq<char>) -> Seq<char> {
    "Session '"@ + id + "' not found"@
}

/// The message for a UDP-only operation asked of another session.
pub open spec fn udp_session_only_error(op: UdpOperation) -> Seq<char> {
    op.spec_name() + " is only available for UDP sessions"@
}

/// The message for a session whose transport could not be opened, where
/// `cause` is the text of the transport's error.
pub open spec fn open_failed_error(cause: Seq<char>) -> Seq<char> {
    "Failed to create transport: "@ + cause
}

/// The session found under `id`, if any.
pub open spec fn lookup<H>(m: Map<Seq<char>, SessionEntry<H>>, id: Seq<char>) -> Option<
    SessionEntry<H>,
> {
    if m.contains_key(id) {
        Some(m[id])
    } else {
        None
    }
}

/// The sessions after a request to open `entry` under `id`: the entry is
/// added when the id was free and the transport opened (`Some`); otherwise
/// nothing changes.
pub open spec fn after_create<H>(
    m: Map<Seq<char>, SessionEntry<H>>,
    id: Seq<char>,
    entry: Option<SessionEntry<H>>,
) -> Map<Seq<char>, SessionEntry<H>> {
    match entry {
        Some(e) => if m.contains_key(id) {
            m
        } else {
            m.insert(id, e)
        },
        None => m,
    }
}

/// The sessions after closing `id`.
pub open spec fn after_close<H>(m: Map<Seq<char>, SessionEntry<H>>, id: Seq<char>) -> Map<
    Seq<char>,
    SessionEntry<H>,
> {
    m.remove(id)
}

/// Whether `list` names every session of `m` exactly once, each with its
/// protocol and role.
pub open spec fn lists_sessions<H>(
    list: Seq<(String, String, String)>,
    m: Map<Seq<char>, SessionEntry<H>>,
) -> bool {
    &&& list.len() == m.len()
    &&& forall|i: int, j: int|
        0 <= i < list.len() && 0 <= j < list.len() && i != j ==> #[trigger] list[i].0@
            != #[trigger] list[j].0@
    &&& forall|i: int|
        0 <= i < list.len() ==> {
            let k = #[trigger] list[i].0@;
            &&& m.contains_key(k)
            &&& list[i].1@ == m[k].config.protocol_name_spec()
            &&& list[i].2@ == m[k].config.role_name_spec()
        }
    &&& forall|k: Seq<char>| #[trigger]
        m.contains_key(k) ==> exists|i: int| 0 <= i < list.len() && list[i].0@ == k
}

fn quoted_session_error(id: &str, closing: &str) -> (m: String)
    ensures
        m@ == "Session '"@ + id@ + closing@,
{
    String::from_str("Session '").concat(id).concat(closing)
}

impl<H> SessionRegistry<H> {
    #[verifier::type_invariant]
    spec fn well_formed(self) -> bool {
        ids_distinct(self.sessions@)
    }

    /// An empty registry.
    pub fn new() -> (r: Self)
        ensures
            r@ == Map::<Seq<char>, SessionEntry<H>>::empty(),
    {
        SessionRegistry { sessions: Vec::new() }
    }

    fn find(&self, id: &str) -> (r: Option<usize>)
        ensures
            match r {
                Some(i) => i < self.sessions@.len() && self.sessions@[i as int].id@ == id@,
                None => forall|i: int|
                    0 <= i < self.sessions@.len() ==> self.sessions@[i].id@ != id@,
            },
    {
        let mut i: usize = 0;
        while i < self.sessions.len()
            invariant
                i <= self.sessions@.len(),
                forall|j: int| 0 <= j < i ==> self.sessions@[j].id@ != id@,
            decreases self.sessions@.len() - i,
        {
            if text_eq(self.sessions[i].id.as_str(), id) {
                return Some(i);
            }
            i = i + 1;
        }
        None
    }

    /// Whether a session is registered under `id`.
    pub fn contains(&self, id: &str) -> (b: bool)
        ensures
            b == self@.contains_key(id@),
    {
        proof {
            use_type_invariant(self);
            lemma_entries_map_lookup(self.sessions@);
        }
        self.find(id).is_some()
    }

    /// Refuses an id that is already taken, before a transport is opened
    /// for it.
    pub fn check_available(&self, id: &str) -> (r: Result<(), String>)
        ensures
            !self@.contains_key(id@) ==> r is Ok,
            self@.contains_key(id@) ==> (r matches Err(m) && m@ == session_exists_error(id@)),
    {
        if self.contains(id) {
            Err(quoted_session_error(id, "' already exists"))
        } else {
            Ok(())
        }
    }

    /// Registers a session under `session_id` once its transport has been
    /// opened, handing the transport back for the background task. A taken
    /// id, or a transport that failed to open, is refused and the registry
    /// is left as it was.
    pub fn create_session<T>(
        &mut self,
        session_id: String,
        config: AsyncTransportConfig,
        opened: Result<OpenedTransport<T>, TransportError>,
        handle: H,
    ) -> (r: Result<T, String>)
        ensures
            final(self)@ == after_create(
                old(self)@,
                session_id@,
                match opened {
                    Ok(o) => Some(
                        SessionEntry {
                            id: session_id,
                            config,
                            handle,
                            local_addr: o.local_addr,
                            peer_addr: o.peer_addr,
                        },
                    ),
                    Err(_) => None,
                },
            ),
            old(self)@.contains_key(session_id@) ==> (r matches Err(m) && m@ == session_exists_error(
                session_id@,
            )),
            !old(self)@.contains_key(session_id@) ==> match opened {
                Ok(o) => r == Ok::<T, String>(o.transport),
                Err(e) => r matches Err(m) && exists|t: Seq<char>|
                    m@ == open_failed_error(t) && e.describes(t),
            },
    {
        proof {
            use_type_invariant(&*self);
            lemma_entries_map_lookup(self.sessions@);
        }
        if self.find(session_id.as_str()).is_some() {
            return Err(quoted_session_error(session_id.as_str(), "' already exists"));
        }
        let o = match opened {
            Ok(o) => o,
            Err(e) => {
                let cause = e.to_string();
                let m = String::from_str("Failed to create transport: ").concat(cause.as_str());
                assert(m@ == open_failed_error(cause@) && e.describes(cause@));
                return Err(m);
            },
        };
        let ghost before = self.sessions@;
        let entry = SessionEntry {
            id: session_id,
            config,
            handle,
            local_addr: o.local_addr,
            peer_addr: o.peer_addr,
        };
        let mut sessions: Vec<SessionEntry<H>> = Vec::new();
        std::mem::swap(&mut sessions, &mut self.sessions);
        sessions.push(entry);
        proof {
            assert(sessions@.drop_last() =~= before);
            assert(ids_distinct(sessions@)) by {
                assert forall|a: int, b: int|
                    0 <= a < sessions@.len() && 0 <= b < sessions@.len() && a != b implies
                    #[trigger] sessions@[a].id@ != #[trigger] sessions@[b].id@ by {
                    if a < before.len() && b < before.len() {
                        assert(sessions@[a] == before[a]);
                        assert(sessions@[b] == before[b]);
                    } else if a < before.len() {
                        assert(sessions@[a] == before[a]);
                    } else {
                        assert(sessions@[b] == before[b]);
                    }
                }
            }
        }
        self.sessions = sessions;
        Ok(o.transport)
    }

    /// The session registered under `id`.
    pub fn session(&self, id: &str) -> (r: Result<&SessionEntry<H>, String>)
        ensures
            lookup(self@, id@) == match r {
                Ok(e) => Some(*e),
                Err(_) => None::<SessionEntry<H>>,
            },
            self@.contains_key(id@) ==> r == Ok::<&SessionEntry<H>, String>(&self@[id@]),
            !self@.contains_key(id@) ==> (r matches Err(m) && m@ == session_not_found_error(id@)),
    {
        proof {
            use_type_invariant(self);
            lemma_entries_map_lookup(self.sessions@);
        }
        match self.find(id) {
            Some(i) => Ok(&self.sessions[i]),
            None => Err(quoted_session_error(id, "' not found")),
        }
    }

    /// The UDP session registered under `id`, for carrying out `op`; a
    /// missing session and a session of another protocol are refused.
    pub fn udp_session(&self, id: &str, op: UdpOperation) -> (r: Result<&SessionEntry<H>, String>)
        ensures
            !self@.contains_key(id@) ==> (r matches Err(m) && m@ == session_not_found_error(id@)),
            self@.contains_key(id@) && self@[id@].config is Udp ==> r == Ok::<
                &SessionEntry<H>,
                String,
            >(&self@[id@]),
            self@.contains_key(id@) && !(self@[id@].config is Udp) ==> (r matches Err(m) && m@
                == udp_session_only_error(op)),
    {
        let entry = self.session(id)?;
        match &entry.config {
            AsyncTransportConfig::Udp { .. } => Ok(entry),
            _ => Err(String::from_str(op.name()).concat(" is only available for UDP sessions")),
        }
    }

    /// Removes the session registered under `id` and hands back its handle,
    /// so that its owner can tell the background task to stop.
    pub fn close(&mut self, id: &str) -> (r: Result<H, String>)
        ensures
            final(self)@ == after_close(old(self)@, id@),
            old(self)@.contains_key(id@) ==> r == Ok::<H, String>(old(self)@[id@].handle),
            !old(self)@.contains_key(id@) ==> (r matches Err(m) && m@ == session_not_found_error(
                id@,
            )),
    {
        proof {
            use_type_invariant(&*self);
            lemma_entries_map_lookup(self.sessions@);
        }
        match self.find(id) {
            Some(i) => {
                let ghost before = self.sessions@;
                proof {
                    lemma_entries_map_remove(before, i as int);
                }
                let mut sessions: Vec<SessionEntry<H>> = Vec::new();
                std::mem::swap(&mut sessions, &mut self.sessions);
                let entry = sessions.remove(i);
                self.sessions = sessions;
                Ok(entry.handle)
            },
            None => {
                assert(self@.remove(id@) =~= self@);
                Err(quoted_session_error(id, "' not found"))
            },
        }
    }

    /// `(id, protocol, role)` of every live session, each once, in no
    /// particular order.
    pub fn list_sessions(&self) -> (r: Vec<(String, String, String)>)
        ensures
            lists_sessions(r@, self@),
    {
        proof {
            use_type_invariant(self);
            lemma_entries_map_lookup(self.sessions@);
        }
        let mut out: Vec<(String, String, String)> = Vec::new();
        let mut i: usize = 0;
        while i < self.sessions.len()
            invariant
                i <= self.sessions@.len(),
                out@.len() == i,
                ids_distinct(self.sessions@),
                forall|j: int|
                    0 <= j < i ==> {
                        &&& #[trigger] out@[j].0@ == self.sessions@[j].id@
                        &&& out@[j].1@ == self.sessions@[j].config.protocol_name_spec()
                        &&& out@[j].2@ == self.sessions@[j].config.role_name_spec()
                    },
            decreases self.sessions@.len() - i,
        {
            let entry = &self.sessions[i];
            let id = entry.id.clone();
            let protocol = String::from_str(entry.config.protocol_name());
            let role = String::from_str(entry.config.role_name());
            out.push((id, protocol, role));
            i = i + 1;
        }
        proof {
            assert forall|k: Seq<char>| #[trigger]
                self@.contains_key(k) implies exists|i: int| 0 <= i < out@.len() && out@[i].0@ == k by {
                let j = choose|j: int| 0 <= j < self.sessions@.len() && self.sessions@[j].id@ == k;
                assert(out@[j].0@ == k);
            }
            assert forall|a: int, b: int|
                0 <= a < out@.len() && 0 <= b < out@.len() && a != b implies #[trigger] out@[a].0@
                != #[trigger] out@[b].0@ by {
                assert(self.sessions@[a].id@ != self.sessions@[b].id@);
            }
            assert forall|a: int| 0 <= a < out@.len() implies {
                let k = #[trigger] out@[a].0@;
                &&& self@.contains_key(k)
                &&& out@[a].1@ == self@[k].config.protocol_name_spec()
                &&& out@[a].2@ == self@[k].config.role_name_spec()
            } by {
                assert(entries_map(self.sessions@)[self.sessions@[a].id@] == self.sessions@[a]);
            }
        }
        out
    }

    /// Removes every session and hands back each id with its handle, so
    /// that the owner can tell every background task to stop.
    pub fn cleanup(&mut self) -> (r: Vec<(String, H)>)
        ensures
            final(self)@ == Map::<Seq<char>, SessionEntry<H>>::empty(),
            r@.len() == old(self)@.len(),
            forall|i: int, j: int|
                0 <= i < r@.len() && 0 <= j < r@.len() && i != j ==> #[trigger] r@[i].0@
                    != #[trigger] r@[j].0@,
            forall|i: int|
                0 <= i < r@.len() ==> {
                    let k = #[trigger] r@[i].0@;
                    &&& old(self)@.contains_key(k)
                    &&& r@[i].0 == old(self)@[k].id
                    &&& r@[i].1 == old(self)@[k].handle
                },
            forall|k: Seq<char>| #[trigger]
                old(self)@.contains_key(k) ==> exists|i: int| 0 <= i < r@.len() && r@[i].0@ == k,
    {
        proof {
            use_type_invariant(&*self);
            lemma_entries_map_lookup(self.sessions@);
        }
        let ghost before = self.sessions@;
        let mut taken: Vec<SessionEntry<H>> = Vec::new();
        std::mem::swap(&mut taken, &mut self.sessions);
        self.sessions = Vec::new();
        assert(self.sessions@ == Seq::<SessionEntry<H>>::empty());
        assert(entries_map(self.sessions@) =~= Map::<Seq<char>, SessionEntry<H>>::empty());
        let n = taken.len();
        let mut out: Vec<(String, H)> = Vec::new();
        while taken.len() > 0
            invariant
                taken@ == before.take(taken@.len() as int),
                taken@.len() <= n,
                n == before.len(),
                out@.len() == n - taken@.len(),
                forall|j: int|
                    0 <= j < out@.len() ==> {
                        &&& #[trigger] out@[j].0 == before[n - 1 - j].id
                        &&& out@[j].1 == before[n - 1 - j].handle
                    },
            decreases taken@.len(),
        {
            let ghost len_before = taken@.len();
            let entry = taken.pop().unwrap();
            assert(taken@ =~= before.take(taken@.len() as int));
            out.push((entry.id, entry.handle));
        }
        proof {
            let old_map = entries_map(before);
            assert forall|k: Seq<char>| #[trigger]
                old_map.contains_key(k) implies exists|i: int| 0 <= i < out@.len() && out@[i].0@ == k by {
                let j = choose|j: int| 0 <= j < before.len() && before[j].id@ == k;
                assert(out@[n - 1 - j].0 == before[j].id);
            }
            assert forall|a: int, b: int|
                0 <= a < out@.len() && 0 <= b < out@.len() && a != b implies #[trigger] out@[a].0@
                != #[trigger] out@[b].0@ by {
                assert(out@[a].0 == before[n - 1 - a].id);
                assert(out@[b].0 == before[n - 1 - b].id);
            }
            assert forall|a: int| 0 <= a < out@.len() implies {
                let k = #[trigger] out@[a].0@;
                &&& old_map.contains_key(k)
                &&& out@[a].0 == old_map[k].id
                &&& out@[a].1 == old_map[k].handle
            } by {
                assert(out@[a].0 == before[n - 1 - a].id);
                assert(old_map[before[n - 1 - a].id@] == before[n - 1 - a]);
            }
        }
        out
    }
}

/// Opening a session under a free id and then closing it: while it is open
/// its id finds exactly the entry it was opened with and every other id
/// finds what it found before; once it is closed the sessions are as before.
pub proof fn lemma_open_then_close<H>(
    before: Map<Seq<char>, SessionEntry<H>>,
    id: Seq<char>,
    entry: SessionEntry<H>,
)
    requires
        !before.contains_key(id),
    ensures
        lookup(after_create(before, id, Some(entry)), id) == Some(entry),
        forall|k: Seq<char>|
            k != id ==> #[trigger] lookup(after_create(before, id, Some(entry)), k) == lookup(
                before,
                k,
            ),
        after_close(after_create(before, id, Some(entry)), id) == before,
{
    assert(before.insert(id, entry).remove(id) =~= before);
}

/// A request whose transport failed to open, or whose id is taken, leaves
/// every session as it was.
pub proof fn lemma_refused_open_changes_nothing<H>(
    before: Map<Seq<char>, SessionEntry<H>>,
    id: Seq<char>,
    entry: Option<SessionEntry<H>>,
)
    requires
        entry is None || before.contains_key(id),
    ensures
        after_create(before, id, entry) == before,
{
}

/// Closing a session leaves it unfound and every other session as it was.
pub proof fn lemma_close_keeps_others<H>(before: Map<Seq<char>, SessionEntry<H>>, id: Seq<char>)
    ensures
        lookup(after_close(before, id), id) is None,
        forall|k: Seq<char>|
            k != id ==> #[trigger] lookup(after_close(before, id), k) == lookup(before, k),
{
}

/// The sessions after opening `entries`, in order, under their own ids,
/// starting from none.
pub open spec fn opened_in_order<H>(entries: Seq<SessionEntry<H>>) -> Map<
    Seq<char>,
    SessionEntry<H>,
>
    decreases entries.len(),
{
    if entries.len() == 0 {
        Map::empty()
    } else {
        after_create(
            opened_in_order(entries.drop_last()),
            entries.last().id@,
            Some(entries.last()),
        )
    }
}

proof fn lemma_opened_in_order_is_entries_map<H>(entries: Seq<SessionEntry<H>>)
    requires
        ids_distinct(entries),
    ensures
        opened_in_order(entries) == entries_map(entries),
    decreases entries.len(),
{
    if entries.len() > 0 {
        let t = entries.drop_last();
        assert(ids_distinct(t));
        lemma_opened_in_order_is_entries_map(t);
        lemma_entries_map_lookup(t);
        if entries_map(t).contains_key(entries.last().id@) {
            let i = choose|i: int| 0 <= i < t.len() && t[i].id@ == entries.last().id@;
            assert(entries[i].id@ == entries[entries.len() - 1].id@);
        }
    }
}

/// Listing the sessions after opening sessions with distinct ids, one by
/// one, from none: every opened session appears exactly once, with the
/// protocol and role of the configuration it was opened with, and nothing
/// else appears.
pub proof fn lemma_list_after_opens<H>(
    entries: Seq<SessionEntry<H>>,
    list: Seq<(String, String, String)>,
)
    requires
        ids_distinct(entries),
        lists_sessions(list, opened_in_order(entries)),
    ensures
        list.len() == entries.len(),
        forall|i: int|
            0 <= i < entries.len() ==> exists|j: int|
                0 <= j < list.len() && list[j].0@ == (#[trigger] entries[i]).id@ && list[j].1@
                    == entries[i].config.protocol_name_spec() && list[j].2@
                    == entries[i].config.role_name_spec(),
        forall|j: int|
            0 <= j < list.len() ==> exists|i: int|
                0 <= i < entries.len() && (#[trigger] list[j]).0@ == entries[i].id@,
{
    lemma_opened_in_order_is_entries_map(entries);
    lemma_entries_map_lookup(entries);
    let m = opened_in_order(entries);
    assert forall|i: int| 0 <= i < entries.len() implies exists|j: int|
        0 <= j < list.len() && list[j].0@ == (#[trigger] entries[i]).id@ && list[j].1@
            == entries[i].config.protocol_name_spec() && list[j].2@
            == entries[i].config.role_name_spec() by {
        assert(m.contains_key(entries[i].id@));
        let j = choose|j: int| 0 <= j < list.len() && list[j].0@ == entries[i].id@;
        assert(m[entries[i].id@] == entries[i]);
        assert(list[j].0@ == entries[i].id@);
    }
    assert forall|j: int| 0 <= j < list.len() implies exists|i: int|
        0 <= i < entries.len() && (#[trigger] list[j]).0@ == entries[i].id@ by {
        assert(m.contains_key(list[j].0@));
    }
}

} // verus!
