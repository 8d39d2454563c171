//! The cookie store: the whole session record lives in one cookie.
//!
//! The record is encoded as a JSON object and carried in a named cookie,
//! either raw (plain mode), behind a MAC (signed mode), or encrypted
//! (private mode).  Reading verifies and decodes the cookie; writing seals
//! the record back into a set-cookie directive.  No server-side state exists.

use vstd::prelude::*;

use crate::codec::{decode_record, encode_record, map_of_json};
use crate::error::ReadError;
use crate::http::{cookie_lookup, CookieDirective, RequestCookies, SameSitePolicy, SetCookie};
use crate::seal::{open_private, open_signed, seal_private, seal_signed, unseal_private,
    unseal_signed};
use crate::session::{intent_after_remove, intent_after_set, RawSession, WriteIntent};
use crate::session_map::SessionMap;

verus! {

/// How the cookie's value is protected.
#[derive(Clone, Copy, Debug, PartialEq, Eq, Structural)]
pub enum SecurityMode {
    /// The record travels in the clear and unauthenticated.
    Plain,
    /// The record travels in the clear behind a MAC.
    Signed,
    /// The record travels encrypted and authenticated.
    Private,
}

/// The construction-time configuration of a cookie store: the security mode,
/// the master key behind it, and the attributes of the issued cookie.
#[derive(Debug)]
pub struct CookieConfig {
    pub security: SecurityMode,
    pub key: Vec<u8>,
    pub name: String,
    pub path: String,
    pub secure: bool,
    pub http_only: bool,
    pub domain: Option<String>,
    pub same_site: Option<SameSitePolicy>,
    pub max_age_seconds: Option<i64>,
}

/// A keyed mode carries a master key long enough for the key derivation the
/// sealing relies on.
pub open spec fn config_wf(c: &CookieConfig) -> bool {
    c.security is Plain || c.key@.len() >= 64
}

/// Two optional strings hold the same text.
pub open spec fn opt_text_eq(a: &Option<String>, b: &Option<String>) -> bool {
    match (a, b) {
        (Some(x), Some(y)) => x@ == y@,
        (None, None) => true,
        _ => false,
    }
}

/// Two configurations agree on everything a contract reads.
pub open spec fn config_eq(a: &CookieConfig, b: &CookieConfig) -> bool {
    &&& a.security == b.security
    &&& a.key@ == b.key@
    &&& a.name@ == b.name@
    &&& a.path@ == b.path@
    &&& a.secure == b.secure
    &&& a.http_only == b.http_only
    &&& opt_text_eq(&a.domain, &b.domain)
    &&& a.same_site == b.same_site
    &&& a.max_age_seconds == b.max_age_seconds
}

/// The construction-time defaults of a cookie store: the cookie's name and
/// the attribute values every mode starts from.
pub open spec fn default_attributes(c: &CookieConfig) -> bool {
    &&& c.name@ == "finchers-session"@
    &&& c.path@ == "/"@
    &&& c.secure
    &&& c.http_only
    &&& c.domain is None
    &&& c.same_site is None
    &&& c.max_age_seconds is None
}

/// What opening a token under a configuration gives: the token itself in
/// plain mode, the MAC-checked value in signed mode, the decrypted value in
/// private mode.
pub open spec fn unseal_model(cfg: &CookieConfig, token: Seq<char>) -> Option<Seq<char>> {
    match cfg.security {
        SecurityMode::Plain => Some(token),
        SecurityMode::Signed => unseal_signed(cfg.key@, token),
        SecurityMode::Private => unseal_private(cfg.key@, cfg.name@, token),
    }
}

/// A token opens under a configuration to exactly the record `m`.
pub open spec fn opens_to(cfg: &CookieConfig, token: Seq<char>, m: Map<Seq<char>, Seq<char>>) -> bool {
    match unseal_model(cfg, token) {
        Some(j) => map_of_json(j) == Some(m),
        None => false,
    }
}

/// What reading gives for a given cookie value: no cookie is an empty
/// session; a cookie that fails its tamper check or does not decode is a
/// client error; otherwise the decoded record.
pub open spec fn read_model(cfg: &CookieConfig, token: Option<Seq<char>>) -> Result<
    Map<Seq<char>, Seq<char>>,
    ReadError,
> {
    match token {
        None => Ok(Map::empty()),
        Some(t) => match unseal_model(cfg, t) {
            None => Err(ReadError::TamperedCookie),
            Some(j) => match map_of_json(j) {
                None => Err(ReadError::MalformedRecord),
                Some(m) => Ok(m),
            },
        },
    }
}

/// Round trip: a token that a write-back sealed from a record is read back
/// to exactly that record on a later request presenting it.
pub proof fn lemma_cookie_round_trip(
    cfg: &CookieConfig,
    token: Seq<char>,
    m: Map<Seq<char>, Seq<char>>,
)
    requires
        opens_to(cfg, token, m),
    ensures
        read_model(cfg, Some(token)) == Ok::<Map<Seq<char>, Seq<char>>, ReadError>(m),
{
}

fn clone_bytes(v: &Vec<u8>) -> (r: Vec<u8>)
    ensures
        r@ == v@,
{
    let n = v.len();
    let mut out: Vec<u8> = Vec::new();
    let mut i: usize = 0;
    while i < n
        invariant
            n == v@.len(),
            0 <= i <= n,
            out@ =~= v@.subrange(0, i as int),
        decreases n - i,
    {
        out.push(v[i]);
        i = i + 1;
    }
    proof {
        assert(out@ =~= v@);
    }
    out
}

fn clone_opt_string(v: &Option<String>) -> (r: Option<String>)
    ensures
        opt_text_eq(&r, v),
{
    match v {
        Some(s) => Some(s.clone()),
        None => None,
    }
}

fn dup_config(c: &CookieConfig) -> (r: CookieConfig)
    ensures
        config_eq(&r, c),
{
    CookieConfig {
        security: c.security,
        key: clone_bytes(&c.key),
        name: c.name.clone(),
        path: c.path.clone(),
        secure: c.secure,
        http_only: c.http_only,
        domain: clone_opt_string(&c.domain),
        same_site: c.same_site,
        max_age_seconds: c.max_age_seconds,
    }
}

/// A cookie-backed session store.
#[derive(Debug)]
pub struct CookieBackend {
    config: CookieConfig,
}

/// Create a cookie store without signing or encryption.
pub fn plain() -> (r: CookieBackend)
    ensures
        r.wf(),
        r.cfg().security is Plain,
        default_attributes(&r.cfg()),
{
    CookieBackend::plain()
}

/// Create a cookie store that signs the cookie value with `master`.
pub fn signed(master: Vec<u8>) -> (r: CookieBackend)
    requires
        master@.len() >= 64,
    ensures
        r.wf(),
        r.cfg().security is Signed,
        r.cfg().key@ == master@,
        default_attributes(&r.cfg()),
{
    CookieBackend::signed(master)
}

/// Create a cookie store that encrypts the cookie value with `master`.
pub fn private(master: Vec<u8>) -> (r: CookieBackend)
    requires
        master@.len() >= 64,
    ensures
        r.wf(),
        r.cfg().security is Private,
        r.cfg().key@ == master@,
        default_attributes(&r.cfg()),
{
    CookieBackend::private(master)
}

impl CookieBackend {
    /// The store's configuration is sound for its mode.
    pub open spec fn wf(&self) -> bool {
        config_wf(&self.cfg())
    }

    /// The configuration the store was built with; it is owned by the store
    /// and never changes after construction.
    pub closed spec fn cfg(&self) -> CookieConfig {
        self.config
    }

    fn with_mode(security: SecurityMode, key: Vec<u8>) -> (r: CookieBackend)
        requires
            security is Plain || key@.len() >= 64,
        ensures
            r.wf(),
            r.cfg().security == security,
            r.cfg().key@ == key@,
            default_attributes(&r.cfg()),
    {
        CookieBackend {
            config: CookieConfig {
                security,
                key,
                name: String::from_str("finchers-session"),
                path: String::from_str("/"),
                secure: true,
                http_only: true,
                domain: None,
                same_site: None,
                max_age_seconds: None,
            },
        }
    }

    /// A store keeping the record as raw cookie text.
    pub fn plain() -> (r: CookieBackend)
        ensures
            r.wf(),
            r.cfg().security is Plain,
            default_attributes(&r.cfg()),
    {
        CookieBackend::with_mode(SecurityMode::Plain, Vec::new())
    }

    /// A store signing the cookie value with the given master key.
    pub fn signed(master: Vec<u8>) -> (r: CookieBackend)
        requires
            master@.len() >= 64,
        ensures
            r.wf(),
            r.cfg().security is Signed,
            r.cfg().key@ == master@,
            default_attributes(&r.cfg()),
    {
        CookieBackend::with_mode(SecurityMode::Signed, master)
    }

    /// A store encrypting the cookie value with the given master key.
    pub fn private(master: Vec<u8>) -> (r: CookieBackend)
        requires
            master@.len() >= 64,
        ensures
            r.wf(),
            r.cfg().security is Private,
            r.cfg().key@ == master@,
            default_attributes(&r.cfg()),
    {
        CookieBackend::with_mode(SecurityMode::Private, master)
    }

    /// Set the path attribute of the issued cookie (default `/`).
    pub fn path(self, value: String) -> (r: CookieBackend)
        ensures
            r.cfg() == (CookieConfig { path: value, ..self.cfg() }),
    {
        CookieBackend { config: CookieConfig { path: value, ..self.config } }
    }

    /// Set the `Secure` attribute of the issued cookie (default `true`).
    pub fn secure(self, value: bool) -> (r: CookieBackend)
        ensures
            r.cfg() == (CookieConfig { secure: value, ..self.cfg() }),
    {
        CookieBackend { config: CookieConfig { secure: value, ..self.config } }
    }

    /// Set the `HttpOnly` attribute of the issued cookie (default `true`).
    pub fn http_only(self, value: bool) -> (r: CookieBackend)
        ensures
            r.cfg() == (CookieConfig { http_only: value, ..self.cfg() }),
    {
        CookieBackend { config: CookieConfig { http_only: value, ..self.config } }
    }

    /// Set the domain attribute of the issued cookie (default none).
    pub fn domain(self, value: String) -> (r: CookieBackend)
        ensures
            r.cfg() == (CookieConfig { domain: Some(value), ..self.cfg() }),
    {
        CookieBackend { config: CookieConfig { domain: Some(value), ..self.config } }
    }

    /// Set the `SameSite` attribute of the issued cookie (default none).
    pub fn same_site(self, value: SameSitePolicy) -> (r: CookieBackend)
        ensures
            r.cfg() == (CookieConfig { same_site: Some(value), ..self.cfg() }),
    {
        CookieBackend { config: CookieConfig { same_site: Some(value), ..self.config } }
    }

    /// Set the `Max-Age` attribute of the issued cookie, in seconds
    /// (default none).
    pub fn max_age(self, seconds: i64) -> (r: CookieBackend)
        ensures
            r.cfg() == (CookieConfig { max_age_seconds: Some(seconds), ..self.cfg() }),
    {
        CookieBackend { config: CookieConfig { max_age_seconds: Some(seconds), ..self.config } }
    }

    /// Read the session the request carried in this store's cookie.
    pub fn read(&self, req: &RequestCookies) -> (r: Result<CookieSession, ReadError>)
        requires
            self.wf(),
        ensures
            match r {
                Ok(s) => {
                    &&& s.wf()
                    &&& config_eq(&s.cfg(), &self.cfg())
                    &&& s.intent() is Unmodified
                    &&& read_model(&self.cfg(), cookie_lookup(req@, self.cfg().name@)) == Ok::<
                        Map<Seq<char>, Seq<char>>,
                        ReadError,
                    >(s@)
                },
                Err(e) => read_model(&self.cfg(), cookie_lookup(req@, self.cfg().name@)) == Err::<
                    Map<Seq<char>, Seq<char>>,
                    ReadError,
                >(e),
            },
    {
        let token = req.get(self.config.name.as_str());
        match token {
            None => Ok(
                CookieSession {
                    config: dup_config(&self.config),
                    map: SessionMap::new(),
                    intent: WriteIntent::Unmodified,
                },
            ),
            Some(t) => {
                let opened: Option<String> = match self.config.security {
                    SecurityMode::Plain => Some(t.clone()),
                    SecurityMode::Signed => open_signed(&self.config.key, t.as_str()),
                    SecurityMode::Private => open_private(
                        &self.config.key,
                        self.config.name.as_str(),
                        t.as_str(),
                    ),
                };
                match opened {
                    None => Err(ReadError::TamperedCookie),
                    Some(j) => match decode_record(j.as_str()) {
                        None => Err(ReadError::MalformedRecord),
                        Some(m) => Ok(
                            CookieSession {
                                config: dup_config(&self.config),
                                map: m,
                                intent: WriteIntent::Unmodified,
                            },
                        ),
                    },
                }
            },
        }
    }
}

/// A per-request session handle over the cookie store.
#[derive(Debug)]
pub struct CookieSession {
    config: CookieConfig,
    map: SessionMap,
    intent: WriteIntent,
}

impl View for CookieSession {
    type V = Map<Seq<char>, Seq<char>>;

    closed spec fn view(&self) -> Map<Seq<char>, Seq<char>> {
        self.map@
    }
}

impl CookieSession {
    /// The handle's record and configuration are sound.
    pub open spec fn wf(&self) -> bool {
        self.map_wf() && config_wf(&self.cfg())
    }

    /// The record's keys are pairwise distinct.
    pub closed spec fn map_wf(&self) -> bool {
        self.map.wf()
    }

    /// The pending write intent.
    pub closed spec fn intent(&self) -> WriteIntent {
        self.intent
    }

    /// The configuration the handle writes under.
    pub closed spec fn cfg(&self) -> CookieConfig {
        self.config
    }

    /// Look a session field up.
    pub fn get(&self, key: &str) -> (r: Option<&String>)
        requires
            self.wf(),
        ensures
            match r {
                Some(v) => self@.contains_key(key@) && self@[key@] == v@,
                None => !self@.contains_key(key@),
            },
    {
        self.map.get(key)
    }

    /// Set a session field; the write-back will persist the record.
    pub fn set(&mut self, key: String, value: String)
        requires
            old(self).wf(),
        ensures
            final(self).wf(),
            final(self)@ =~= old(self)@.insert(key@, value@),
            final(self).intent() == intent_after_set(old(self).intent()),
            final(self).cfg() == old(self).cfg(),
    {
        self.map.set(key, value);
        self.intent = WriteIntent::Modified;
    }

    /// Remove a session field; the write-back will persist the record,
    /// unless the session was already cleared.
    pub fn remove(&mut self, key: &str)
        requires
            old(self).wf(),
        ensures
            final(self).wf(),
            final(self)@ =~= old(self)@.remove(key@),
            final(self).intent() == intent_after_remove(old(self).intent()),
            final(self).cfg() == old(self).cfg(),
    {
        self.map.remove(key);
        self.intent = match self.intent {
            WriteIntent::Cleared => WriteIntent::Cleared,
            _ => WriteIntent::Modified,
        };
    }

    /// Clear the session; the write-back will expire the cookie.
    pub fn clear(&mut self)
        requires
            old(self).wf(),
        ensures
            final(self).wf(),
            final(self)@ =~= Map::<Seq<char>, Seq<char>>::empty(),
            final(self).intent() is Cleared,
            final(self).cfg() == old(self).cfg(),
    {
        self.map.clear();
        self.intent = WriteIntent::Cleared;
    }

    /// Write the session back, consuming the handle: an untouched session
    /// asks nothing of the response, a cleared one expires the cookie, and a
    /// modified one seals the record into a set-cookie directive whose value
    /// reads back to exactly the record.
    pub fn write(self) -> (r: Option<CookieDirective>)
        requires
            self.wf(),
        ensures
            self.intent() is Unmodified ==> r is None,
            self.intent() is Cleared ==> (r matches Some(CookieDirective::Expire(n)) && n@
                == self.cfg().name@),
            self.intent() is Modified ==> (r matches Some(CookieDirective::Issue(sc)) && {
                &&& sc.name@ == self.cfg().name@
                &&& opens_to(&self.cfg(), sc.value@, self@)
                &&& (sc.path matches Some(p) && p@ == self.cfg().path@)
                &&& sc.secure == self.cfg().secure
                &&& sc.http_only == self.cfg().http_only
                &&& opt_text_eq(&sc.domain, &self.cfg().domain)
                &&& sc.same_site == self.cfg().same_site
                &&& sc.max_age_seconds == self.cfg().max_age_seconds
            }),
    {
        match self.intent {
            WriteIntent::Unmodified => None,
            WriteIntent::Cleared => Some(CookieDirective::Expire(self.config.name.clone())),
            WriteIntent::Modified => {
                let encoded = encode_record(&self.map);
                let sealed: String = match self.config.security {
                    SecurityMode::Plain => encoded,
                    SecurityMode::Signed => seal_signed(
                        &self.config.key,
                        self.config.name.as_str(),
                        encoded.as_str(),
                    ),
                    SecurityMode::Private => seal_private(
                        &self.config.key,
                        self.config.name.as_str(),
                        encoded.as_str(),
                    ),
                };
                Some(
                    CookieDirective::Issue(
                        SetCookie {
                            name: self.config.name.clone(),
                            value: sealed,
                            path: Some(self.config.path.clone()),
                            secure: self.config.secure,
                            http_only: self.config.http_only,
                            domain: clone_opt_string(&self.config.domain),
                            same_site: self.config.same_site,
                            max_age_seconds: self.config.max_age_seconds,
                        },
                    ),
                )
            },
        }
    }
}

impl RawSession for CookieSession {
    open spec fn raw_view(&self) -> Map<Seq<char>, Seq<char>> {
        self@
    }

    open spec fn raw_wf(&self) -> bool {
        self.wf()
    }

    open spec fn raw_intent(&self) -> WriteIntent {
        self.intent()
    }

    fn get(&self, key: &str) -> Option<&String> {
        CookieSession::get(self, key)
    }

    fn set(&mut self, key: String, value: String) {
        CookieSession::set(self, key, value);
    }

    fn remove(&mut self, key: &str) {
        CookieSession::remove(self, key);
    }

    fn clear(&mut self) {
        CookieSession::clear(self);
    }
}

} // verus!
