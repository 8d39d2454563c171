//! The request and response boundary, as plain data.
//!
//! A store reads the cookies a request carried and answers with cookie
//! directives; carrying either across the wire is the caller's business.

use vstd::prelude::*;

verus! {

/// The first value under a name in a sequence of cookie pairs.
pub open spec fn cookie_lookup(s: Seq<(Seq<char>, Seq<char>)>, name: Seq<char>) -> Option<
    Seq<char>,
>
    decreases s.len(),
{
    if s.len() == 0 {
        None
    } else if s.first().0 == name {
        Some(s.first().1)
    } else {
        cookie_lookup(s.drop_first(), name)
    }
}

/// The cookies an incoming request carried, as name/value pairs.
pub struct RequestCookies {
    entries: Vec<(String, String)>,
}

impl View for RequestCookies {
    type V = Seq<(Seq<char>, Seq<char>)>;

    closed spec fn view(&self) -> Seq<(Seq<char>, Seq<char>)> {
        self.entries@.map_values(|p: (String, String)| (p.0@, p.1@))
    }
}

proof fn lemma_lookup_after_skip(s: Seq<(Seq<char>, Seq<char>)>, i: int, name: Seq<char>)
    requires
        0 <= i <= s.len(),
        forall|j: int| 0 <= j < i ==> s[j].0 != name,
    ensures
        cookie_lookup(s, name) == cookie_lookup(s.skip(i), name),
    decreases i,
{
    if i == 0 {
        assert(s.skip(0) =~= s);
    } else {
        lemma_lookup_after_skip(s, i - 1, name);
        assert(s.skip(i - 1).first() == s[i - 1]);
        assert(s.skip(i - 1).drop_first() =~= s.skip(i));
    }
}

impl RequestCookies {
    /// A request with no cookies.
    pub fn new() -> (r: RequestCookies)
        ensures
            r@ =~= Seq::<(Seq<char>, Seq<char>)>::empty(),
    {
        RequestCookies { entries: Vec::new() }
    }

    /// Append one cookie pair.
    pub fn add(&mut self, name: String, value: String)
        ensures
            final(self)@ =~= old(self)@.push((name@, value@)),
    {
        self.entries.push((name, value));
    }

    /// The first cookie under `name`, if the request carried one.
    pub fn get(&self, name: &str) -> (r: Option<&String>)
        ensures
            match r {
                Some(v) => cookie_lookup(self@, name@) == Some(v@),
                None => cookie_lookup(self@, name@) is None,
            },
    {
        let owned: String = name.to_owned();
        let n = self.entries.len();
        let mut i: usize = 0;
        while i < n
            invariant
                n == self.entries@.len(),
                self@.len() == self.entries@.len(),
                0 <= i <= n,
                owned@ == name@,
                forall|j: int| 0 <= j < self@.len() ==> self@[j] == (
                    self.entries@[j].0@,
                    self.entries@[j].1@,
                ),
                forall|j: int| 0 <= j < i ==> self@[j].0 != name@,
            decreases n - i,
        {
            if self.entries[i].0 == owned {
                proof {
                    lemma_lookup_after_skip(self@, i as int, name@);
                    assert(self@.skip(i as int).first() == self@[i as int]);
                }
                return Some(&self.entries[i].1);
            }
            i = i + 1;
        }
        proof {
            lemma_lookup_after_skip(self@, n as int, name@);
            assert(self@.skip(n as int).len() == 0);
        }
        None
    }
}

/// The `SameSite` policy a cookie is issued under.  `Permissive` is the
/// policy written on the wire as `SameSite=None`.
#[derive(Clone, Copy, Debug, PartialEq, Eq, Structural)]
pub enum SameSitePolicy {
    Strict,
    Lax,
    Permissive,
}

/// A cookie to set on the outgoing response, with its attributes.
#[derive(Clone, Debug)]
pub struct SetCookie {
    pub name: String,
    pub value: String,
    pub path: Option<String>,
    pub secure: bool,
    pub http_only: bool,
    pub domain: Option<String>,
    pub same_site: Option<SameSitePolicy>,
    pub max_age_seconds: Option<i64>,
}

/// What a store asks the response to do with one cookie.
#[derive(Clone, Debug)]
pub enum CookieDirective {
    /// Set the named cookie to a value.
    Issue(SetCookie),
    /// Expire the named cookie on the client.
    Expire(String),
}

} // verus!
