//! The Redis-backed store: every decision made here, every network step
//! performed by the caller.
//!
//! Reading resolves the identifier cookie, then proceeds through a suspended
//! flow: the caller opens the connection and runs the commands this module
//! hands it, feeding each outcome back.  Writing turns a session handle into
//! at most one cookie directive and at most one store command.  A connection
//! is used by one step at a time: each step consumes the flow value and hands
//! back the next, so no two commands can be in flight together.

use vstd::prelude::*;

use crate::codec::{encode_record, decode_record, map_of_json};
use crate::error::{ReadError, WriteError};
use crate::http::{cookie_lookup, CookieDirective, RequestCookies, SetCookie};
use crate::session::{intent_after_remove, intent_after_set, RawSession, WriteIntent};
use crate::session_id::{uuid_of_text, uuid_text_of, SessionId};
use crate::session_map::SessionMap;

verus! {

#[verifier::external_type_specification]
#[verifier::external_body]
pub struct ExRedisClient(::redis::Client);

/// The key a record is stored under: `"{prefix}:{uuid-text}"`.
pub open spec fn record_key(prefix: Seq<char>, id: u128) -> Seq<char> {
    prefix + ":"@ + uuid_text_of(id)
}

/// A store command for the caller to run against Redis.
#[derive(Clone, Debug)]
pub enum RedisCommand {
    /// `GET key`: fetch the record blob under a key.
    Fetch(String),
    /// `SET key value`: store a record blob under a key.
    Store(String, String),
    /// `SETEX key seconds value`: store a record blob with a time-to-live.
    StoreExpiring(String, u64, String),
    /// `DEL key`: delete the record under a key.
    Delete(String),
}

/// A session store keeping records in Redis under a configurable key prefix,
/// with the identifier carried in a configurable cookie.
pub struct RedisSessionBackend {
    client: redis::Client,
    key_prefix: String,
    cookie_name: String,
    timeout_seconds: Option<u64>,
}

/// Create a session store backed by the given Redis client.
pub fn redis_backend(client: redis::Client) -> (r: RedisSessionBackend)
    ensures
        r.client_spec() == client,
        r.key_prefix_spec() == "finchers-session"@,
        r.cookie_name_spec() == "session-id"@,
        r.timeout_spec() is None,
{
    RedisSessionBackend::new(client)
}

impl RedisSessionBackend {
    /// The client the store was built over.
    pub closed spec fn client_spec(&self) -> redis::Client {
        self.client
    }

    /// The prefix of the Redis keys records are stored under.
    pub closed spec fn key_prefix_spec(&self) -> Seq<char> {
        self.key_prefix@
    }

    /// The name of the cookie carrying the session identifier.
    pub closed spec fn cookie_name_spec(&self) -> Seq<char> {
        self.cookie_name@
    }

    /// The time-to-live given to stored records, in seconds, if any.
    pub closed spec fn timeout_spec(&self) -> Option<u64> {
        self.timeout_seconds
    }

    /// A store over the given client, with the default key prefix and
    /// cookie name and no record time-to-live.
    pub fn new(client: redis::Client) -> (r: RedisSessionBackend)
        ensures
            r.client_spec() == client,
            r.key_prefix_spec() == "finchers-session"@,
            r.cookie_name_spec() == "session-id"@,
            r.timeout_spec() is None,
    {
        RedisSessionBackend {
            client,
            key_prefix: String::from_str("finchers-session"),
            cookie_name: String::from_str("session-id"),
            timeout_seconds: None,
        }
    }

    /// The client the caller connects with.
    pub fn client(&self) -> (r: &redis::Client)
        ensures
            *r == self.client_spec(),
    {
        &self.client
    }

    /// Set the prefix of the Redis keys records are stored under.
    pub fn key_prefix(self, prefix: String) -> (r: RedisSessionBackend)
        ensures
            r.client_spec() == self.client_spec(),
            r.key_prefix_spec() == prefix@,
            r.cookie_name_spec() == self.cookie_name_spec(),
            r.timeout_spec() == self.timeout_spec(),
    {
        RedisSessionBackend { key_prefix: prefix, ..self }
    }

    /// Set the name of the cookie carrying the session identifier.
    pub fn cookie_name(self, name: String) -> (r: RedisSessionBackend)
        ensures
            r.client_spec() == self.client_spec(),
            r.cookie_name_spec() == name@,
            r.key_prefix_spec() == self.key_prefix_spec(),
            r.timeout_spec() == self.timeout_spec(),
    {
        RedisSessionBackend { cookie_name: name, ..self }
    }

    /// Set the time-to-live of stored records, in seconds.
    pub fn timeout(self, seconds: u64) -> (r: RedisSessionBackend)
        ensures
            r.client_spec() == self.client_spec(),
            r.timeout_spec() == Some(seconds),
            r.key_prefix_spec() == self.key_prefix_spec(),
            r.cookie_name_spec() == self.cookie_name_spec(),
    {
        RedisSessionBackend { timeout_seconds: Some(seconds), ..self }
    }

    /// The identifier the request carried in this store's cookie, if any; a
    /// cookie that does not parse as an identifier is a client error.
    pub fn get_session_id(&self, req: &RequestCookies) -> (r: Result<Option<SessionId>, ReadError>)
        ensures
            match r {
                Ok(opt) => match cookie_lookup(req@, self.cookie_name_spec()) {
                    None => opt is None,
                    Some(t) => opt matches Some(id) && uuid_of_text(t) == Some(id@),
                },
                Err(e) => e is BadSessionId && (cookie_lookup(req@, self.cookie_name_spec())
                    matches Some(t) && uuid_of_text(t) is None),
            },
    {
        match req.get(self.cookie_name.as_str()) {
            None => Ok(None),
            Some(t) => match SessionId::parse(t.as_str()) {
                None => Err(ReadError::BadSessionId),
                Some(id) => Ok(Some(id)),
            },
        }
    }

    /// Begin reading the session the request names.  The flow starts either
    /// failed (malformed identifier cookie) or waiting for a connection.
    pub fn read(&self, req: &RequestCookies) -> (r: ReadSessionFuture)
        ensures
            r.key_prefix_spec() == self.key_prefix_spec(),
            r.cookie_name_spec() == self.cookie_name_spec(),
            r.timeout_spec() == self.timeout_spec(),
            match cookie_lookup(req@, self.cookie_name_spec()) {
                None => r.state() == ReadState::Connecting(None::<SessionId>),
                Some(t) => match uuid_of_text(t) {
                    None => r.state() == ReadState::Failed(ReadError::BadSessionId),
                    Some(i) => r.state() matches ReadState::Connecting(Some(sid)) && sid@ == i,
                },
            },
    {
        let state = match self.get_session_id(req) {
            Ok(opt) => ReadState::Connecting(opt),
            Err(e) => ReadState::Failed(e),
        };
        ReadSessionFuture {
            state,
            key_prefix: self.key_prefix.clone(),
            cookie_name: self.cookie_name.clone(),
            timeout_seconds: self.timeout_seconds,
        }
    }
}

/// Where a suspended session read stands.
#[derive(Debug)]
pub enum ReadState {
    /// The identifier cookie was rejected before any network step.
    Failed(ReadError),
    /// Waiting for the caller to open a connection.
    Connecting(Option<SessionId>),
    /// Waiting for the caller to fetch the record under the identifier.
    Fetching(SessionId),
}

/// A session read in flight: the caller performs each network step and feeds
/// its outcome back, consuming the flow and receiving the next one.
#[derive(Debug)]
pub struct ReadSessionFuture {
    state: ReadState,
    key_prefix: String,
    cookie_name: String,
    timeout_seconds: Option<u64>,
}

/// What follows once the connection is open: a fetch to run, or a ready
/// session when no identifier was presented.
pub enum ConnectStep {
    /// Run `GET` with this key and feed the outcome to the flow.
    Fetch(String, ReadSessionFuture),
    /// No record to fetch: the session is ready.
    Ready(RedisSession),
}

impl ReadSessionFuture {
    /// Where the read stands.
    pub closed spec fn state(&self) -> ReadState {
        self.state
    }

    /// The prefix of the Redis keys records are stored under.
    pub closed spec fn key_prefix_spec(&self) -> Seq<char> {
        self.key_prefix@
    }

    /// The name of the cookie carrying the session identifier.
    pub closed spec fn cookie_name_spec(&self) -> Seq<char> {
        self.cookie_name@
    }

    /// The time-to-live given to stored records, in seconds, if any.
    pub closed spec fn timeout_spec(&self) -> Option<u64> {
        self.timeout_seconds
    }

    /// Whether the flow already failed before any network step.
    pub fn is_failed(&self) -> (r: bool)
        ensures
            r <==> self.state() is Failed,
    {
        matches!(self.state, ReadState::Failed(_))
    }

    /// Take the error out of a flow that failed before any network step.
    pub fn failure(self) -> (e: ReadError)
        requires
            self.state() is Failed,
        ensures
            self.state() == ReadState::Failed(e),
    {
        match self.state {
            ReadState::Failed(e) => e,
            _ => ReadError::BadSessionId,
        }
    }

    /// The connection is open: with an identifier at hand the record must be
    /// fetched under its key; with none the session is ready and empty.
    pub fn connected(self) -> (r: ConnectStep)
        requires
            self.state() is Connecting,
        ensures
            self.state() == ReadState::Connecting(None::<SessionId>) ==> (r matches
                ConnectStep::Ready(s) && {
                &&& s@ =~= Map::<Seq<char>, Seq<char>>::empty()
                &&& s.id() is None
                &&& s.intent() is Unmodified
                &&& s.wf()
                &&& s.key_prefix_spec() == self.key_prefix_spec()
                &&& s.cookie_name_spec() == self.cookie_name_spec()
                &&& s.timeout_spec() == self.timeout_spec()
            }),
            self.state() matches ReadState::Connecting(Some(sid)) ==> (r matches
                ConnectStep::Fetch(k, f) && {
                &&& k@ == record_key(self.key_prefix_spec(), sid@)
                &&& f.state() == ReadState::Fetching(sid)
                &&& f.key_prefix_spec() == self.key_prefix_spec()
                &&& f.cookie_name_spec() == self.cookie_name_spec()
                &&& f.timeout_spec() == self.timeout_spec()
            }),
    {
        match self.state {
            ReadState::Connecting(Some(id)) => {
                let key = record_key_text(&self.key_prefix, &id);
                ConnectStep::Fetch(
                    key,
                    ReadSessionFuture { state: ReadState::Fetching(id), ..self },
                )
            },
            _ => ConnectStep::Ready(
                RedisSession {
                    sid: None,
                    map: SessionMap::new(),
                    intent: WriteIntent::Unmodified,
                    key_prefix: self.key_prefix,
                    cookie_name: self.cookie_name,
                    timeout_seconds: self.timeout_seconds,
                },
            ),
        }
    }

    /// The fetch came back.  A missing record is an empty session, not an
    /// error; a present record must decode, else the store held garbage and
    /// the failure is the backend's.
    pub fn fetched(self, value: Option<String>) -> (r: Result<RedisSession, ReadError>)
        requires
            self.state() is Fetching,
        ensures
            match value {
                None => r matches Ok(s) && {
                    &&& s@ =~= Map::<Seq<char>, Seq<char>>::empty()
                    &&& s.id() is None
                    &&& s.intent() is Unmodified
                    &&& s.wf()
                    &&& s.key_prefix_spec() == self.key_prefix_spec()
                    &&& s.cookie_name_spec() == self.cookie_name_spec()
                    &&& s.timeout_spec() == self.timeout_spec()
                },
                Some(v) => match map_of_json(v@) {
                    None => r matches Err(e) && e is Backend,
                    Some(m) => r matches Ok(s) && {
                        &&& s@ =~= m
                        &&& (self.state() matches ReadState::Fetching(sid) ==> s.id() == Some(
                            sid@,
                        ))
                        &&& s.intent() is Unmodified
                        &&& s.wf()
                        &&& s.key_prefix_spec() == self.key_prefix_spec()
                        &&& s.cookie_name_spec() == self.cookie_name_spec()
                        &&& s.timeout_spec() == self.timeout_spec()
                    },
                },
            },
    {
        let sid = match &self.state {
            ReadState::Fetching(id) => Some(*id),
            _ => None,
        };
        match value {
            None => Ok(
                RedisSession {
                    sid: None,
                    map: SessionMap::new(),
                    intent: WriteIntent::Unmodified,
                    key_prefix: self.key_prefix,
                    cookie_name: self.cookie_name,
                    timeout_seconds: self.timeout_seconds,
                },
            ),
            Some(v) => match decode_record(v.as_str()) {
                None => Err(ReadError::Backend(String::from_str("stored record did not decode"))),
                Some(m) => Ok(
                    RedisSession {
                        sid,
                        map: m,
                        intent: WriteIntent::Unmodified,
                        key_prefix: self.key_prefix,
                        cookie_name: self.cookie_name,
                        timeout_seconds: self.timeout_seconds,
                    },
                ),
            },
        }
    }

    /// Opening the connection or running a command failed: the failure is
    /// the backend's.
    pub fn connection_failed(self, message: String) -> (e: ReadError)
        ensures
            e matches ReadError::Backend(m) && m@ == message@,
    {
        ReadError::Backend(message)
    }
}

fn record_key_text(prefix: &String, id: &SessionId) -> (r: String)
    ensures
        r@ == record_key(prefix@, id@),
{
    let mut out = prefix.clone();
    out.append(":");
    let text = id.text();
    out.append(text.as_str());
    out
}

/// A per-request session handle over the Redis store.
#[derive(Debug)]
pub struct RedisSession {
    sid: Option<SessionId>,
    map: SessionMap,
    intent: WriteIntent,
    key_prefix: String,
    cookie_name: String,
    timeout_seconds: Option<u64>,
}

impl View for RedisSession {
    type V = Map<Seq<char>, Seq<char>>;

    closed spec fn view(&self) -> Map<Seq<char>, Seq<char>> {
        self.map@
    }
}

impl RedisSession {
    /// The handle's record is well-formed.
    pub closed spec fn wf(&self) -> bool {
        self.map.wf()
    }

    /// The pending write intent.
    pub closed spec fn intent(&self) -> WriteIntent {
        self.intent
    }

    /// The identifier the session was read under, if any.
    pub closed spec fn id(&self) -> Option<u128> {
        match self.sid {
            Some(s) => Some(s@),
            None => None,
        }
    }

    /// The prefix of the Redis keys records are stored under.
    pub closed spec fn key_prefix_spec(&self) -> Seq<char> {
        self.key_prefix@
    }

    /// The name of the cookie carrying the session identifier.
    pub closed spec fn cookie_name_spec(&self) -> Seq<char> {
        self.cookie_name@
    }

    /// The time-to-live given to stored records, in seconds, if any.
    pub closed spec fn timeout_spec(&self) -> Option<u64> {
        self.timeout_seconds
    }

    /// Look a session field up.
    pub fn get(&self, key: &str) -> (r: Option<&String>)
        requires
            self.wf(),
        ensures
            match r {
                Some(v) => self@.contains_key(key@) && self@[key@] == v@,
                None => !self@.contains_key(key@),
            },
    {
        self.map.get(key)
    }

    /// Set a session field; the write-back will persist the record.
    pub fn set(&mut self, key: String, value: String)
        requires
            old(self).wf(),
        ensures
            final(self).wf(),
            final(self)@ =~= old(self)@.insert(key@, value@),
            final(self).intent() == intent_after_set(old(self).intent()),
            final(self).id() == old(self).id(),
            final(self).key_prefix_spec() == old(self).key_prefix_spec(),
            final(self).cookie_name_spec() == old(self).cookie_name_spec(),
            final(self).timeout_spec() == old(self).timeout_spec(),
    {
        self.map.set(key, value);
        self.intent = WriteIntent::Modified;
    }

    /// Remove a session field; the write-back will persist the record,
    /// unless the session was already cleared.
    pub fn remove(&mut self, key: &str)
        requires
            old(self).wf(),
        ensures
            final(self).wf(),
            final(self)@ =~= old(self)@.remove(key@),
            final(self).intent() == intent_after_remove(old(self).intent()),
            final(self).id() == old(self).id(),
            final(self).key_prefix_spec() == old(self).key_prefix_spec(),
            final(self).cookie_name_spec() == old(self).cookie_name_spec(),
            final(self).timeout_spec() == old(self).timeout_spec(),
    {
        self.map.remove(key);
        self.intent = match self.intent {
            WriteIntent::Cleared => WriteIntent::Cleared,
            _ => WriteIntent::Modified,
        };
    }

    /// Clear the session; the write-back will delete the record and expire
    /// the identifier cookie.
    pub fn clear(&mut self)
        requires
            old(self).wf(),
        ensures
            final(self).wf(),
            final(self)@ =~= Map::<Seq<char>, Seq<char>>::empty(),
            final(self).intent() is Cleared,
            final(self).id() == old(self).id(),
            final(self).key_prefix_spec() == old(self).key_prefix_spec(),
            final(self).cookie_name_spec() == old(self).cookie_name_spec(),
            final(self).timeout_spec() == old(self).timeout_spec(),
    {
        self.map.clear();
        self.intent = WriteIntent::Cleared;
    }

    /// Write the session back, consuming the handle: an untouched session
    /// asks for nothing; a modified one stores its record (under a fresh
    /// identifier if none existed, with the configured time-to-live if any)
    /// and re-issues the identifier cookie; a cleared one with an identifier
    /// deletes the record and expires the cookie.
    pub fn write(self) -> (r: WriteSessionFuture)
        requires
            self.wf(),
        ensures
            self.intent() is Unmodified ==> (r.directive() is None && r.command() is None),
            self.intent() is Cleared && self.id() is None ==> (r.directive() is None
                && r.command() is None),
            self.intent() is Cleared ==> (self.id() matches Some(i) ==> {
                &&& r.directive() matches Some(CookieDirective::Expire(n)) && n@
                    == self.cookie_name_spec()
                &&& r.command() matches Some(RedisCommand::Delete(k)) && k@ == record_key(
                    self.key_prefix_spec(),
                    i,
                )
            }),
            self.intent() is Modified ==> (r.written_id() matches Some(i) && {
                &&& self.id() matches Some(i0) ==> i == i0
                &&& r.directive() matches Some(CookieDirective::Issue(sc)) && sc.name@
                    == self.cookie_name_spec() && sc.value@ == uuid_text_of(i) && uuid_of_text(
                    sc.value@,
                ) == Some(i) && sc.path is None && !sc.secure && !sc.http_only && sc.domain
                    is None && sc.same_site is None && sc.max_age_seconds is None
                &&& self.timeout_spec() is None ==> (r.command() matches Some(
                    RedisCommand::Store(k, v),
                ) && k@ == record_key(self.key_prefix_spec(), i) && map_of_json(v@) == Some(
                    self@,
                ))
                &&& self.timeout_spec() matches Some(secs) ==> (r.command() matches Some(
                    RedisCommand::StoreExpiring(k, s2, v),
                ) && k@ == record_key(self.key_prefix_spec(), i) && s2 == secs && map_of_json(v@)
                    == Some(self@))
            }),
    {
        match self.intent {
            WriteIntent::Unmodified => WriteSessionFuture {
                directive: None,
                command: None,
                sid: None,
            },
            WriteIntent::Cleared => match self.sid {
                None => WriteSessionFuture { directive: None, command: None, sid: None },
                Some(id) => WriteSessionFuture {
                    directive: Some(CookieDirective::Expire(self.cookie_name.clone())),
                    command: Some(RedisCommand::Delete(record_key_text(&self.key_prefix, &id))),
                    sid: Some(id),
                },
            },
            WriteIntent::Modified => {
                let id = match self.sid {
                    Some(i) => i,
                    None => SessionId::generate(),
                };
                let key = record_key_text(&self.key_prefix, &id);
                let blob = encode_record(&self.map);
                let command = match self.timeout_seconds {
                    None => RedisCommand::Store(key, blob),
                    Some(secs) => RedisCommand::StoreExpiring(key, secs, blob),
                };
                WriteSessionFuture {
                    directive: Some(
                        CookieDirective::Issue(
                            SetCookie {
                                name: self.cookie_name.clone(),
                                value: id.text(),
                                path: None,
                                secure: false,
                                http_only: false,
                                domain: None,
                                same_site: None,
                                max_age_seconds: None,
                            },
                        ),
                    ),
                    command: Some(command),
                    sid: Some(id),
                }
            },
        }
    }
}

/// A session write-back, ready for the caller to perform: at most one cookie
/// directive for the response and at most one command for the store.
#[derive(Debug)]
pub struct WriteSessionFuture {
    directive: Option<CookieDirective>,
    command: Option<RedisCommand>,
    sid: Option<SessionId>,
}

impl WriteSessionFuture {
    /// The cookie directive of the write-back, if any.
    pub closed spec fn directive(&self) -> Option<CookieDirective> {
        self.directive
    }

    /// The store command of the write-back, if any.
    pub closed spec fn command(&self) -> Option<RedisCommand> {
        self.command
    }

    /// The identifier governing the write-back, if a record is touched.
    pub closed spec fn written_id(&self) -> Option<u128> {
        match self.sid {
            Some(s) => Some(s@),
            None => None,
        }
    }

    /// Hand the caller the directive and the command to perform.
    pub fn into_parts(self) -> (r: (Option<CookieDirective>, Option<RedisCommand>))
        ensures
            r.0 == self.directive(),
            r.1 == self.command(),
    {
        (self.directive, self.command)
    }

    /// Close the write-back with the command's outcome: a failed store
    /// command is the backend's failure.
    pub fn finish(self, outcome: Result<(), String>) -> (r: Result<(), WriteError>)
        ensures
            match outcome {
                Ok(()) => r is Ok,
                Err(m) => r matches Err(WriteError::Backend(mm)) && mm@ == m@,
            },
    {
        match outcome {
            Ok(()) => Ok(()),
            Err(m) => Err(WriteError::Backend(m)),
        }
    }
}

/// Round trip: a later request presenting the identifier cookie a modified
/// write-back issued makes the read fetch exactly the key the record was
/// stored under, and decode the stored blob back to the record.
pub proof fn lemma_redis_round_trip(
    prefix: Seq<char>,
    cookie_text: Seq<char>,
    id: u128,
    blob: Seq<char>,
    m: Map<Seq<char>, Seq<char>>,
)
    requires
        uuid_of_text(cookie_text) == Some(id),
        map_of_json(blob) == Some(m),
    ensures
        uuid_of_text(cookie_text) matches Some(i) && record_key(prefix, i) == record_key(
            prefix,
            id,
        ),
        map_of_json(blob) matches Some(m2) && m2 == m,
{
}

impl RawSession for RedisSession {
    open spec fn raw_view(&self) -> Map<Seq<char>, Seq<char>> {
        self@
    }

    open spec fn raw_wf(&self) -> bool {
        self.wf()
    }

    open spec fn raw_intent(&self) -> WriteIntent {
        self.intent()
    }

    fn get(&self, key: &str) -> Option<&String> {
        RedisSession::get(self, key)
    }

    fn set(&mut self, key: String, value: String) {
        RedisSession::set(self, key, value);
    }

    fn remove(&mut self, key: &str) {
        RedisSession::remove(self, key);
    }

    fn clear(&mut self) {
        RedisSession::clear(self);
    }
}

} // verus!
