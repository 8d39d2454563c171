//! The record codec: a session record as a JSON object of string fields.
//!
//! Encoding and decoding are delegated to `serde_json` behind trusted items;
//! the one fact the stores build on is that decoding the encoding of a record
//! gives the record back.

use vstd::prelude::*;

use crate::session_map::SessionMap;

verus! {

/// What `serde_json::from_str` returns on a given text, read as a map of
/// string fields; `None` where the text is not a JSON object of strings.
pub uninterp spec fn map_of_json(s: Seq<char>) -> Option<Map<Seq<char>, Seq<char>>>;

/// Relies on `serde_json::to_string` for a `BTreeMap<String, String>`:
/// serializing a string-keyed map cannot fail, and `serde_json::from_str`
/// parses the output back to an equal map.
#[verifier::external_body]
pub(crate) fn encode_record(m: &SessionMap) -> (r: String)
    requires
        m.wf(),
    ensures
        map_of_json(r@) == Some(m@),
{
    let sorted: std::collections::BTreeMap<&str, &str> = m.entries.iter().map(
        |p: &(String, String)| (p.0.as_str(), p.1.as_str()),
    ).collect();
    serde_json::to_string(&sorted).unwrap_or_default()
}

/// Relies on `serde_json::from_str` for a `BTreeMap<String, String>`: the
/// result is a function of the text alone, a parsed map holds pairwise
/// distinct keys, and malformed text gives an error.
#[verifier::external_body]
pub(crate) fn decode_record(s: &str) -> (r: Option<SessionMap>)
    ensures
        match r {
            Some(m) => m.wf() && map_of_json(s@) == Some(m@),
            None => map_of_json(s@) is None,
        },
{
    match serde_json::from_str::<std::collections::BTreeMap<String, String>>(s) {
        Ok(parsed) => Some(SessionMap { entries: parsed.into_iter().collect() }),
        Err(_) => None,
    }
}

} // verus!
