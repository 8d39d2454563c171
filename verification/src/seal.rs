//! Keyed protection of cookie values, delegated to the `cookie` crate.
//!
//! A signed token carries its value in the clear behind a MAC; a private
//! token is encrypted and authenticated, with the cookie name bound in as
//! associated data.  Sealing draws a nonce in the private mode, so nothing is
//! said of the token itself; what is named is the (deterministic) result of
//! opening a token, and sealing guarantees that opening its token gives the
//! sealed value back.

use vstd::prelude::*;

verus! {

/// What verifying a signed token under a master key returns: the embedded
/// value when the MAC checks out, `None` otherwise.
pub uninterp spec fn unseal_signed(key: Seq<u8>, token: Seq<char>) -> Option<Seq<char>>;

/// What decrypting a private token under a master key and a cookie name
/// returns: the plaintext when authentication succeeds, `None` otherwise.
pub uninterp spec fn unseal_private(key: Seq<u8>, name: Seq<char>, token: Seq<char>) -> Option<
    Seq<char>,
>;

/// Relies on `cookie::Key::from` and `CookieJar::signed_mut(..).add`: the jar
/// then holds the MAC-prefixed token under the cookie's name, and
/// `SignedJar::verify` under the same key always gives the value back.
#[verifier::external_body]
pub(crate) fn seal_signed(master: &Vec<u8>, name: &str, value: &str) -> (r: String)
    requires
        master@.len() >= 64,
    ensures
        unseal_signed(master@, r@) == Some(value@),
{
    let key = cookie::Key::from(master.as_slice());
    let mut jar = cookie::CookieJar::new();
    jar.signed_mut(&key).add(cookie::Cookie::new(name.to_owned(), value.to_owned()));
    match jar.get(name) {
        Some(c) => c.value().to_owned(),
        None => String::new(),
    }
}

/// Relies on `cookie::SignedJar::verify`: verification is a function of the
/// key and the token alone, and returns the embedded value only when the MAC
/// checks out.
#[verifier::external_body]
pub(crate) fn open_signed(master: &Vec<u8>, token: &str) -> (r: Option<String>)
    requires
        master@.len() >= 64,
    ensures
        match r {
            Some(v) => unseal_signed(master@, token@) == Some(v@),
            None => unseal_signed(master@, token@) is None,
        },
{
    let key = cookie::Key::from(master.as_slice());
    let jar = cookie::CookieJar::new();
    let sealed = cookie::Cookie::new("value", token.to_owned());
    jar.signed(&key).verify(sealed).map(|c| c.value().to_owned())
}

/// Relies on `cookie::Key::from` and `CookieJar::private_mut(..).add`: the
/// jar then holds the encrypted token under the cookie's name, and
/// `PrivateJar::decrypt` under the same key and name always gives the value
/// back, whatever nonce was drawn.
#[verifier::external_body]
pub(crate) fn seal_private(master: &Vec<u8>, name: &str, value: &str) -> (r: String)
    requires
        master@.len() >= 64,
    ensures
        unseal_private(master@, name@, r@) == Some(value@),
{
    let key = cookie::Key::from(master.as_slice());
    let mut jar = cookie::CookieJar::new();
    jar.private_mut(&key).add(cookie::Cookie::new(name.to_owned(), value.to_owned()));
    match jar.get(name) {
        Some(c) => c.value().to_owned(),
        None => String::new(),
    }
}

/// Relies on `cookie::PrivateJar::decrypt`: decryption is a function of the
/// key, the cookie name and the token alone, and returns a plaintext only
/// when authentication succeeds.
#[verifier::external_body]
pub(crate) fn open_private(master: &Vec<u8>, name: &str, token: &str) -> (r: Option<String>)
    requires
        master@.len() >= 64,
    ensures
        match r {
            Some(v) => unseal_private(master@, name@, token@) == Some(v@),
            None => unseal_private(master@, name@, token@) is None,
        },
{
    let key = cookie::Key::from(master.as_slice());
    let jar = cookie::CookieJar::new();
    let sealed = cookie::Cookie::new(name.to_owned(), token.to_owned());
    jar.private(&key).decrypt(sealed).map(|c| c.value().to_owned())
}

} // verus!
