//! The in-memory store: session records in a shared map behind a
//! reader-writer lock.
//!
//! Records are keyed by a random session identifier; the identifier travels
//! in a `session-id` cookie.  The whole table sits behind one verified
//! reader-writer lock, so concurrent writers serialize and every committed
//! state is a well-formed table.

use vstd::prelude::*;
use vstd::rwlock::{RwLock, RwLockPredicate};

use std::sync::Arc;

use crate::error::ReadError;
use crate::http::{cookie_lookup, CookieDirective, RequestCookies, SetCookie};
use crate::session::{intent_after_remove, intent_after_set, RawSession, WriteIntent};
use crate::session_id::{uuid_of_text, SessionId};
use crate::session_map::SessionMap;

verus! {

/// The model of a sequence of table entries: the map that inserts them in
/// order, keyed by the identifier's 128 bits.
pub closed spec fn store_of_entries(s: Seq<(SessionId, SessionMap)>) -> Map<
    u128,
    Map<Seq<char>, Seq<char>>,
>
    decreases s.len(),
{
    if s.len() == 0 {
        Map::empty()
    } else {
        store_of_entries(s.drop_last()).insert(s.last().0@, s.last().1@)
    }
}

/// The identifiers of the entries are pairwise distinct and every stored
/// record is well-formed.
pub closed spec fn store_entries_wf(s: Seq<(SessionId, SessionMap)>) -> bool {
    &&& forall|i: int, j: int| 0 <= i < j < s.len() ==> s[i].0@ != s[j].0@
    &&& forall|i: int| 0 <= i < s.len() ==> (#[trigger] s[i].1).wf()
}

proof fn lemma_store_contains(s: Seq<(SessionId, SessionMap)>, k: u128)
    ensures
        store_of_entries(s).contains_key(k) <==> exists|i: int| 0 <= i < s.len() && s[i].0@ == k,
    decreases s.len(),
{
    if s.len() > 0 {
        lemma_store_contains(s.drop_last(), k);
        if store_of_entries(s).contains_key(k) {
            if s.last().0@ != k {
                let i = choose|i: int| 0 <= i < s.drop_last().len() && s.drop_last()[i].0@ == k;
                assert(s[i].0@ == k);
            } else {
                assert(s[s.len() - 1].0@ == k);
            }
        }
        if exists|i: int| 0 <= i < s.len() && s[i].0@ == k {
            let i = choose|i: int| 0 <= i < s.len() && s[i].0@ == k;
            if i < s.len() - 1 {
                assert(s.drop_last()[i].0@ == k);
            }
        }
    }
}

proof fn lemma_store_wf_drop_last(s: Seq<(SessionId, SessionMap)>)
    requires
        store_entries_wf(s),
        s.len() > 0,
    ensures
        store_entries_wf(s.drop_last()),
{
    assert forall|i: int| 0 <= i < s.drop_last().len() implies (#[trigger] s.drop_last()[i].1).wf()
        by {
        assert(s.drop_last()[i] == s[i]);
    }
}

proof fn lemma_store_index(s: Seq<(SessionId, SessionMap)>, i: int)
    requires
        store_entries_wf(s),
        0 <= i < s.len(),
    ensures
        store_of_entries(s).contains_key(s[i].0@),
        store_of_entries(s)[s[i].0@] == s[i].1@,
    decreases s.len(),
{
    if i == s.len() - 1 {
    } else {
        lemma_store_wf_drop_last(s);
        lemma_store_index(s.drop_last(), i);
        assert(s.drop_last()[i] == s[i]);
        assert(s[i].0@ != s.last().0@);
    }
}

proof fn lemma_store_remove(s: Seq<(SessionId, SessionMap)>, i: int)
    requires
        store_entries_wf(s),
        0 <= i < s.len(),
    ensures
        store_of_entries(s.remove(i)) =~= store_of_entries(s).remove(s[i].0@),
    decreases s.len(),
{
    lemma_store_wf_drop_last(s);
    if i == s.len() - 1 {
        assert(s.remove(i) =~= s.drop_last());
        lemma_store_contains(s.drop_last(), s[i].0@);
        assert(!store_of_entries(s.drop_last()).contains_key(s[i].0@));
    } else {
        lemma_store_remove(s.drop_last(), i);
        assert(s.remove(i).drop_last() =~= s.drop_last().remove(i));
        assert(s.remove(i).last() == s.last());
        assert(store_of_entries(s.remove(i)) == store_of_entries(s.drop_last().remove(i)).insert(
            s.last().0@,
            s.last().1@,
        ));
        assert(s[i].0@ != s.last().0@);
    }
}

/// The session table: records under pairwise-distinct identifiers.
#[derive(Debug)]
pub struct StoreMap {
    entries: Vec<(SessionId, SessionMap)>,
}

impl View for StoreMap {
    type V = Map<u128, Map<Seq<char>, Seq<char>>>;

    closed spec fn view(&self) -> Map<u128, Map<Seq<char>, Seq<char>>> {
        store_of_entries(self.entries@)
    }
}

impl StoreMap {
    /// The table's internal invariant.
    pub closed spec fn wf(&self) -> bool {
        store_entries_wf(self.entries@)
    }

    /// The empty table.
    pub fn new() -> (r: StoreMap)
        ensures
            r.wf(),
            r@ =~= Map::<u128, Map<Seq<char>, Seq<char>>>::empty(),
    {
        StoreMap { entries: Vec::new() }
    }

    /// A copy of the record stored under `id`, if any.
    pub fn get_record(&self, id: SessionId) -> (r: Option<SessionMap>)
        requires
            self.wf(),
        ensures
            match r {
                Some(m) => m.wf() && self@.contains_key(id@) && self@[id@] == m@,
                None => !self@.contains_key(id@),
            },
    {
        let n = self.entries.len();
        let mut i: usize = 0;
        while i < n
            invariant
                n == self.entries@.len(),
                0 <= i <= n,
                self.wf(),
                forall|j: int| 0 <= j < i ==> self.entries@[j].0@ != id@,
            decreases n - i,
        {
            if self.entries[i].0.same_as(&id) {
                proof {
                    lemma_store_index(self.entries@, i as int);
                }
                return Some(self.entries[i].1.duplicate());
            }
            i = i + 1;
        }
        proof {
            lemma_store_contains(self.entries@, id@);
        }
        None
    }

    /// Remove the record under `id`; the model loses exactly that key.
    pub fn remove_record(&mut self, id: SessionId)
        requires
            old(self).wf(),
        ensures
            final(self).wf(),
            final(self)@ =~= old(self)@.remove(id@),
    {
        let n = self.entries.len();
        let mut i: usize = 0;
        while i < n
            invariant
                n == self.entries@.len(),
                0 <= i <= n,
                self.wf(),
                *self == *old(self),
                forall|j: int| 0 <= j < i ==> self.entries@[j].0@ != id@,
            decreases n - i,
        {
            if self.entries[i].0.same_as(&id) {
                proof {
                    lemma_store_remove(self.entries@, i as int);
                }
                let ghost s = self.entries@;
                self.entries.remove(i);
                proof {
                    assert forall|p: int| 0 <= p < self.entries@.len() implies (
                    #[trigger] self.entries@[p].1).wf() by {
                        if p < i {
                            assert(self.entries@[p] == s[p]);
                        } else {
                            assert(self.entries@[p] == s[p + 1]);
                        }
                    }
                    assert forall|p: int, q: int|
                        0 <= p < q < self.entries@.len() implies self.entries@[p].0@
                        != self.entries@[q].0@ by {
                        if p < i {
                            assert(self.entries@[p] == s[p]);
                        } else {
                            assert(self.entries@[p] == s[p + 1]);
                        }
                        if q < i {
                            assert(self.entries@[q] == s[q]);
                        } else {
                            assert(self.entries@[q] == s[q + 1]);
                        }
                    }
                }
                return ;
            }
            i = i + 1;
        }
        proof {
            lemma_store_contains(self.entries@, id@);
            assert(self@ =~= self@.remove(id@));
        }
    }

    /// Insert (or overwrite) the record under `id`.
    pub fn insert_record(&mut self, id: SessionId, record: SessionMap)
        requires
            old(self).wf(),
            record.wf(),
        ensures
            final(self).wf(),
            final(self)@ =~= old(self)@.insert(id@, record@),
    {
        self.remove_record(id);
        let ghost mid = self.entries@;
        proof {
            lemma_store_contains(mid, id@);
        }
        self.entries.push((id, record));
        proof {
            assert(self.entries@.drop_last() =~= mid);
            assert forall|p: int| 0 <= p < self.entries@.len() implies (
            #[trigger] self.entries@[p].1).wf() by {
                if p < self.entries@.len() - 1 {
                    assert(self.entries@[p] == mid[p]);
                }
            }
            assert forall|p: int, q: int| 0 <= p < q < self.entries@.len() implies self.entries@[p].0@
                != self.entries@[q].0@ by {
                if q < self.entries@.len() - 1 {
                    assert(self.entries@[p] == mid[p] && self.entries@[q] == mid[q]);
                } else {
                    assert(self.entries@[p] == mid[p]);
                    lemma_store_index(mid, p);
                }
            }
        }
    }
}

/// Concurrent map integrity: two writers to distinct identifiers both leave
/// their records readable, whichever committed first.
pub proof fn lemma_distinct_writers(
    st: Map<u128, Map<Seq<char>, Seq<char>>>,
    id1: u128,
    v1: Map<Seq<char>, Seq<char>>,
    id2: u128,
    v2: Map<Seq<char>, Seq<char>>,
)
    requires
        id1 != id2,
    ensures
        st.insert(id1, v1).insert(id2, v2)[id1] == v1,
        st.insert(id1, v1).insert(id2, v2)[id2] == v2,
{
}

/// One table state per committed write: the writes of `ws`, committed one
/// at a time under the lock in the order given, applied to a starting table.
pub open spec fn apply_writes(
    st: Map<u128, Map<Seq<char>, Seq<char>>>,
    ws: Seq<(u128, Map<Seq<char>, Seq<char>>)>,
) -> Map<u128, Map<Seq<char>, Seq<char>>>
    decreases ws.len(),
{
    if ws.len() == 0 {
        st
    } else {
        apply_writes(st, ws.drop_last()).insert(ws.last().0, ws.last().1)
    }
}

/// Concurrent map integrity, in general: however many writers commit records
/// under pairwise-distinct identifiers, in whatever order the lock admits
/// them, every one of their records is independently readable afterwards.
pub proof fn lemma_n_distinct_writers(
    st: Map<u128, Map<Seq<char>, Seq<char>>>,
    ws: Seq<(u128, Map<Seq<char>, Seq<char>>)>,
    k: int,
)
    requires
        forall|i: int, j: int| 0 <= i < j < ws.len() ==> ws[i].0 != ws[j].0,
        0 <= k < ws.len(),
    ensures
        apply_writes(st, ws).contains_key(ws[k].0),
        apply_writes(st, ws)[ws[k].0] == ws[k].1,
    decreases ws.len(),
{
    if k == ws.len() - 1 {
    } else {
        lemma_n_distinct_writers(st, ws.drop_last(), k);
        assert(ws.drop_last()[k] == ws[k]);
        assert(ws[k].0 != ws.last().0);
    }
}

/// Concurrent map integrity: two writers to the same identifier leave the
/// table holding exactly the later record, never a mixture.
pub proof fn lemma_same_id_last_wins(
    st: Map<u128, Map<Seq<char>, Seq<char>>>,
    id: u128,
    v1: Map<Seq<char>, Seq<char>>,
    v2: Map<Seq<char>, Seq<char>>,
)
    ensures
        st.insert(id, v1).insert(id, v2)[id] == v2,
        st.insert(id, v1).insert(id, v2) =~= st.insert(id, v2),
{
}

/// Round trip: a record committed under an identifier is exactly what a
/// later lookup of that identifier finds.
pub proof fn lemma_store_round_trip(
    st: Map<u128, Map<Seq<char>, Seq<char>>>,
    id: u128,
    v: Map<Seq<char>, Seq<char>>,
)
    ensures
        st.insert(id, v).contains_key(id),
        st.insert(id, v)[id] == v,
{
}

/// Clearing removes state: after a record is removed, a later lookup of its
/// identifier finds nothing.
pub proof fn lemma_clear_removes(st: Map<u128, Map<Seq<char>, Seq<char>>>, id: u128)
    ensures
        !st.remove(id).contains_key(id),
{
}

/// The lock invariant of the shared table: well-formedness.
pub struct StorePred {}

impl RwLockPredicate<StoreMap> for StorePred {
    open spec fn inv(self, v: StoreMap) -> bool {
        v.wf()
    }
}

/// An in-memory session store, shareable across request handlers.
#[derive(Clone)]
pub struct InMemoryBackend {
    store: Arc<RwLock<StoreMap, StorePred>>,
}

/// Create a session store backed by an in-memory table.
pub fn in_memory() -> InMemoryBackend {
    InMemoryBackend {
        store: Arc::new(RwLock::new(StoreMap::new(), Ghost(StorePred {  }))),
    }
}

impl InMemoryBackend {
    /// Read the session named by the request's `session-id` cookie.  A
    /// missing cookie or a missing record is an empty session; a cookie that
    /// does not parse as an identifier is a client error.
    pub fn read(&self, req: &RequestCookies) -> (r: Result<InMemorySession, ReadError>)
        ensures
            match r {
                Ok(s) => {
                    &&& s.wf()
                    &&& s.intent() is Unmodified
                    &&& cookie_lookup(req@, "session-id"@) is None ==> (s.id() is None && s@
                        =~= Map::<Seq<char>, Seq<char>>::empty())
                    &&& cookie_lookup(req@, "session-id"@) matches Some(t) ==> s.id()
                        == uuid_of_text(t) && s.id() is Some
                },
                Err(e) => {
                    &&& e is BadSessionId
                    &&& cookie_lookup(req@, "session-id"@) matches Some(t) && uuid_of_text(t)
                        is None
                },
            },
    {
        match req.get("session-id") {
            None => Ok(
                InMemorySession {
                    sid: None,
                    map: SessionMap::new(),
                    intent: WriteIntent::Unmodified,
                },
            ),
            Some(t) => match SessionId::parse(t.as_str()) {
                None => Err(ReadError::BadSessionId),
                Some(id) => {
                    let read_handle = self.store.acquire_read();
                    let stored = read_handle.borrow().get_record(id);
                    read_handle.release_read();
                    let map = match stored {
                        Some(m) => m,
                        None => SessionMap::new(),
                    };
                    Ok(InMemorySession { sid: Some(id), map, intent: WriteIntent::Unmodified })
                },
            },
        }
    }

    /// Write a session back, consuming the handle.  An untouched session
    /// leaves the table and the response alone; a modified one commits its
    /// record under its identifier (drawing a fresh one on first write) and
    /// re-issues the identifier cookie; a cleared one with an identifier
    /// removes the record and expires the cookie.
    pub fn write(&self, session: InMemorySession) -> (r: Option<CookieDirective>)
        requires
            session.wf(),
        ensures
            session.intent() is Unmodified ==> r is None,
            session.intent() is Modified ==> (r matches Some(CookieDirective::Issue(sc)) && {
                &&& sc.name@ == "session-id"@
                &&& uuid_of_text(sc.value@) is Some
                &&& (session.id() matches Some(i) ==> uuid_of_text(sc.value@) == Some(i))
                &&& sc.path is None
                &&& !sc.secure
                &&& !sc.http_only
                &&& sc.domain is None
                &&& sc.same_site is None
                &&& sc.max_age_seconds is None
            }),
            session.intent() is Cleared && session.id() is Some ==> (r matches Some(
                CookieDirective::Expire(n),
            ) && n@ == "session-id"@),
            session.intent() is Cleared && session.id() is None ==> r is None,
    {
        match session.intent {
            WriteIntent::Unmodified => None,
            WriteIntent::Modified => {
                let id = match session.sid {
                    Some(i) => i,
                    None => SessionId::generate(),
                };
                let (mut table, write_handle) = self.store.acquire_write();
                table.insert_record(id, session.map);
                write_handle.release_write(table);
                Some(
                    CookieDirective::Issue(
                        SetCookie {
                            name: String::from_str("session-id"),
                            value: id.text(),
                            path: None,
                            secure: false,
                            http_only: false,
                            domain: None,
                            same_site: None,
                            max_age_seconds: None,
                        },
                    ),
                )
            },
            WriteIntent::Cleared => match session.sid {
                Some(id) => {
                    let (mut table, write_handle) = self.store.acquire_write();
                    table.remove_record(id);
                    write_handle.release_write(table);
                    Some(CookieDirective::Expire(String::from_str("session-id")))
                },
                None => None,
            },
        }
    }
}

/// A per-request session handle over the in-memory store.
#[derive(Debug)]
pub struct InMemorySession {
    sid: Option<SessionId>,
    map: SessionMap,
    intent: WriteIntent,
}

impl View for InMemorySession {
    type V = Map<Seq<char>, Seq<char>>;

    closed spec fn view(&self) -> Map<Seq<char>, Seq<char>> {
        self.map@
    }
}

impl InMemorySession {
    /// The handle's record is well-formed.
    pub closed spec fn wf(&self) -> bool {
        self.map.wf()
    }

    /// The pending write intent.
    pub closed spec fn intent(&self) -> WriteIntent {
        self.intent
    }

    /// The identifier the session was read under, if any.
    pub closed spec fn id(&self) -> Option<u128> {
        match self.sid {
            Some(s) => Some(s@),
            None => None,
        }
    }

    /// The identifier the session was read under, if any.
    pub fn session_id(&self) -> (r: Option<SessionId>)
        ensures
            match r {
                Some(i) => self.id() == Some(i@),
                None => self.id() is None,
            },
    {
        self.sid
    }

    /// Look a session field up.
    pub fn get(&self, key: &str) -> (r: Option<&String>)
        requires
            self.wf(),
        ensures
            match r {
                Some(v) => self@.contains_key(key@) && self@[key@] == v@,
                None => !self@.contains_key(key@),
            },
    {
        self.map.get(key)
    }

    /// Set a session field; the write-back will persist the record.
    pub fn set(&mut self, key: String, value: String)
        requires
            old(self).wf(),
        ensures
            final(self).wf(),
            final(self)@ =~= old(self)@.insert(key@, value@),
            final(self).intent() == intent_after_set(old(self).intent()),
            final(self).id() == old(self).id(),
    {
        self.map.set(key, value);
        self.intent = WriteIntent::Modified;
    }

    /// Remove a session field; the write-back will persist the record,
    /// unless the session was already cleared.
    pub fn remove(&mut self, key: &str)
        requires
            old(self).wf(),
        ensures
            final(self).wf(),
            final(self)@ =~= old(self)@.remove(key@),
            final(self).intent() == intent_after_remove(old(self).intent()),
            final(self).id() == old(self).id(),
    {
        self.map.remove(key);
        self.intent = match self.intent {
            WriteIntent::Cleared => WriteIntent::Cleared,
            _ => WriteIntent::Modified,
        };
    }

    /// Clear the session; the write-back will remove the record and expire
    /// the identifier cookie.
    pub fn clear(&mut self)
        requires
            old(self).wf(),
        ensures
            final(self).wf(),
            final(self)@ =~= Map::<Seq<char>, Seq<char>>::empty(),
            final(self).intent() is Cleared,
            final(self).id() == old(self).id(),
    {
        self.map.clear();
        self.intent = WriteIntent::Cleared;
    }
}

impl RawSession for InMemorySession {
    open spec fn raw_view(&self) -> Map<Seq<char>, Seq<char>> {
        self@
    }

    open spec fn raw_wf(&self) -> bool {
        self.wf()
    }

    open spec fn raw_intent(&self) -> WriteIntent {
        self.intent()
    }

    fn get(&self, key: &str) -> Option<&String> {
        InMemorySession::get(self, key)
    }

    fn set(&mut self, key: String, value: String) {
        InMemorySession::set(self, key, value);
    }

    fn remove(&mut self, key: &str) {
        InMemorySession::remove(self, key);
    }

    fn clear(&mut self) {
        InMemorySession::clear(self);
    }
}

} // verus!
