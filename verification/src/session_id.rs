//! Session identifiers: 128-bit random tokens carried as UUID text.
//!
//! An identifier is held as the 128-bit integer behind a version-4 UUID.  The
//! textual form used in cookies, and the parse of that form, are delegated to
//! the `uuid` crate behind trusted items.

use vstd::prelude::*;

verus! {

/// What `uuid::Uuid::parse_str` returns on a given text, as the 128-bit value
/// of the parsed identifier; `None` where the text parses as no UUID.
pub uninterp spec fn uuid_of_text(s: Seq<char>) -> Option<u128>;

/// The hyphenated text that `uuid::Uuid` formats a given 128-bit value as.
pub uninterp spec fn uuid_text_of(n: u128) -> Seq<char>;

/// A session identifier: an opaque 128-bit token naming a stored record.
#[derive(Clone, Copy, PartialEq, Eq, Structural, Debug)]
pub struct SessionId {
    bits: u128,
}

impl View for SessionId {
    type V = u128;

    closed spec fn view(&self) -> u128 {
        self.bits
    }
}

/// Relies on `uuid::Uuid::new_v4`: a fresh random identifier.  Nothing is
/// assumed of the value drawn.
#[verifier::external_body]
fn random_bits() -> u128 {
    uuid::Uuid::new_v4().as_u128()
}

/// Relies on `uuid::Uuid::parse_str` and `Uuid::as_u128`: parsing is a
/// function of the text alone.
#[verifier::external_body]
fn parse_uuid_text(s: &str) -> (r: Option<u128>)
    ensures
        r == uuid_of_text(s@),
{
    uuid::Uuid::parse_str(s).ok().map(|u| u.as_u128())
}

/// Relies on `uuid::Uuid`'s `Display` (via `Uuid::from_u128`): the hyphenated
/// text is a function of the 128 bits alone, and `Uuid::parse_str` accepts the
/// hyphenated form it produces, giving the same value back.
#[verifier::external_body]
fn format_uuid_bits(n: u128) -> (r: String)
    ensures
        r@ == uuid_text_of(n),
        uuid_of_text(r@) == Some(n),
{
    format!("{}", uuid::Uuid::from_u128(n))
}

impl SessionId {
    /// Draw a fresh random identifier.
    pub fn generate() -> SessionId {
        SessionId { bits: random_bits() }
    }

    /// Whether two identifiers name the same session.
    pub fn same_as(&self, other: &SessionId) -> (r: bool)
        ensures
            r <==> self@ == other@,
    {
        self.bits == other.bits
    }

    /// Parse an identifier from its cookie text.
    pub fn parse(s: &str) -> (r: Option<SessionId>)
        ensures
            match r {
                Some(id) => uuid_of_text(s@) == Some(id@),
                None => uuid_of_text(s@) is None,
            },
    {
        match parse_uuid_text(s) {
            Some(bits) => Some(SessionId { bits }),
            None => None,
        }
    }

    /// The cookie text of this identifier.  Parsing the text gives the
    /// identifier back.
    pub fn text(&self) -> (r: String)
        ensures
            r@ == uuid_text_of(self@),
            uuid_of_text(r@) == Some(self@),
    {
        format_uuid_bits(self.bits)
    }
}

} // verus!
