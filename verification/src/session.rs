//! The write-intent tag a session handle carries.
//!
//! Exactly one terminal intent governs the write-back of a request: an
//! untouched handle writes nothing, a modified handle persists its record,
//! and a cleared handle deletes the record and the identifying cookie.

use vstd::prelude::*;

verus! {

/// What the write-back of a session handle is to do.
#[derive(Clone, Copy, Debug, PartialEq, Eq, Structural)]
pub enum WriteIntent {
    /// Nothing was touched: the write-back is a no-op.
    Unmodified,
    /// A field was set or removed: the write-back persists the record.
    Modified,
    /// The session was cleared: the write-back deletes record and cookie.
    Cleared,
}

/// The intent after a field is set: always a pending persist.
pub open spec fn intent_after_set(i: WriteIntent) -> WriteIntent {
    WriteIntent::Modified
}

/// The intent after a field is removed: a cleared session stays cleared
/// (its record is deleted either way), anything else has a pending persist.
pub open spec fn intent_after_remove(i: WriteIntent) -> WriteIntent {
    match i {
        WriteIntent::Cleared => WriteIntent::Cleared,
        _ => WriteIntent::Modified,
    }
}

/// The capability every store's session handle offers while a request is
/// handled: a record of string fields and a write-intent tag, mutated in
/// memory and never through I/O.  Writing a session back is each store's
/// own, since what a write-back produces differs per store.
pub trait RawSession: Sized {
    /// The record the handle holds.
    spec fn raw_view(&self) -> Map<Seq<char>, Seq<char>>;

    /// The handle's internal invariant.
    spec fn raw_wf(&self) -> bool;

    /// The pending write intent.
    spec fn raw_intent(&self) -> WriteIntent;

    /// Look a session field up.
    fn get(&self, key: &str) -> (r: Option<&String>)
        requires
            self.raw_wf(),
        ensures
            match r {
                Some(v) => self.raw_view().contains_key(key@) && self.raw_view()[key@] == v@,
                None => !self.raw_view().contains_key(key@),
            },
    ;

    /// Set a session field.
    fn set(&mut self, key: String, value: String)
        requires
            old(self).raw_wf(),
        ensures
            final(self).raw_wf(),
            final(self).raw_view() == old(self).raw_view().insert(key@, value@),
            final(self).raw_intent() == intent_after_set(old(self).raw_intent()),
    ;

    /// Remove a session field.
    fn remove(&mut self, key: &str)
        requires
            old(self).raw_wf(),
        ensures
            final(self).raw_wf(),
            final(self).raw_view() == old(self).raw_view().remove(key@),
            final(self).raw_intent() == intent_after_remove(old(self).raw_intent()),
    ;

    /// Clear the session.
    fn clear(&mut self)
        requires
            old(self).raw_wf(),
        ensures
            final(self).raw_wf(),
            final(self).raw_view() == Map::<Seq<char>, Seq<char>>::empty(),
            final(self).raw_intent() is Cleared,
    ;
}

/// The per-request session manager: a store-agnostic handle over whichever
/// store's session a request was read from.  It is consumed when handed
/// back for the write-back, so no mutation can follow the write.
pub struct Session<S: RawSession> {
    raw: S,
}

impl<S: RawSession> Session<S> {
    /// The record the session holds.
    pub closed spec fn model(&self) -> Map<Seq<char>, Seq<char>> {
        self.raw.raw_view()
    }

    /// The handle's internal invariant.
    pub closed spec fn wf(&self) -> bool {
        self.raw.raw_wf()
    }

    /// The pending write intent.
    pub closed spec fn intent(&self) -> WriteIntent {
        self.raw.raw_intent()
    }

    /// The underlying store session.
    pub closed spec fn raw_spec(&self) -> S {
        self.raw
    }

    /// Wrap a store's session for the duration of a request.
    pub fn new(raw: S) -> (r: Session<S>)
        ensures
            r.raw_spec() == raw,
            r.model() == raw.raw_view(),
            r.wf() == raw.raw_wf(),
            r.intent() == raw.raw_intent(),
    {
        Session { raw }
    }

    /// Look a session field up.
    pub fn get(&self, key: &str) -> (r: Option<&String>)
        requires
            self.wf(),
        ensures
            match r {
                Some(v) => self.model().contains_key(key@) && self.model()[key@] == v@,
                None => !self.model().contains_key(key@),
            },
    {
        self.raw.get(key)
    }

    /// Set a session field.
    pub fn set(&mut self, key: String, value: String)
        requires
            old(self).wf(),
        ensures
            final(self).wf(),
            final(self).model() == old(self).model().insert(key@, value@),
            final(self).intent() == intent_after_set(old(self).intent()),
    {
        self.raw.set(key, value);
    }

    /// Remove a session field.
    pub fn remove(&mut self, key: &str)
        requires
            old(self).wf(),
        ensures
            final(self).wf(),
            final(self).model() == old(self).model().remove(key@),
            final(self).intent() == intent_after_remove(old(self).intent()),
    {
        self.raw.remove(key);
    }

    /// Clear the session.
    pub fn clear(&mut self)
        requires
            old(self).wf(),
        ensures
            final(self).wf(),
            final(self).model() == Map::<Seq<char>, Seq<char>>::empty(),
            final(self).intent() is Cleared,
    {
        self.raw.clear();
    }

    /// Hand the store session back for its write-back, consuming the
    /// manager: nothing can touch the session afterwards.
    pub fn into_raw(self) -> (r: S)
        ensures
            r == self.raw_spec(),
            r.raw_view() == self.model(),
            r.raw_wf() == self.wf(),
            r.raw_intent() == self.intent(),
    {
        self.raw
    }
}

} // verus!
