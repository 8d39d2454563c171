//! The session record: a mapping from string field names to string values.
//!
//! The record is held as a vector of key/value pairs whose keys are pairwise
//! distinct; its mathematical model is a `Map<Seq<char>, Seq<char>>`.

use vstd::prelude::*;

verus! {

/// The model of a sequence of entries: the map that inserts them in order.
pub closed spec fn map_of_entries(s: Seq<(String, String)>) -> Map<Seq<char>, Seq<char>>
    decreases s.len(),
{
    if s.len() == 0 {
        Map::empty()
    } else {
        map_of_entries(s.drop_last()).insert(s.last().0@, s.last().1@)
    }
}

/// The keys of the entries are pairwise distinct.
pub closed spec fn keys_distinct(s: Seq<(String, String)>) -> bool {
    forall|i: int, j: int| 0 <= i < j < s.len() ==> s[i].0@ != s[j].0@
}

/// A key is in the model exactly when some entry carries it.
proof fn lemma_contains(s: Seq<(String, String)>, k: Seq<char>)
    ensures
        map_of_entries(s).contains_key(k) <==> exists|i: int| 0 <= i < s.len() && s[i].0@ == k,
    decreases s.len(),
{
    if s.len() > 0 {
        lemma_contains(s.drop_last(), k);
        if map_of_entries(s).contains_key(k) {
            if s.last().0@ != k {
                let i = choose|i: int| 0 <= i < s.drop_last().len() && s.drop_last()[i].0@ == k;
                assert(s[i].0@ == k);
            } else {
                assert(s[s.len() - 1].0@ == k);
            }
        }
        if exists|i: int| 0 <= i < s.len() && s[i].0@ == k {
            let i = choose|i: int| 0 <= i < s.len() && s[i].0@ == k;
            if i < s.len() - 1 {
                assert(s.drop_last()[i].0@ == k);
            }
        }
    }
}

proof fn lemma_distinct_drop_last(s: Seq<(String, String)>)
    requires
        keys_distinct(s),
        s.len() > 0,
    ensures
        keys_distinct(s.drop_last()),
{
    assert forall|i: int, j: int| 0 <= i < j < s.drop_last().len() implies s.drop_last()[i].0@
        != s.drop_last()[j].0@ by {
        assert(s[i].0@ != s[j].0@);
    }
}

/// With distinct keys, each entry is reflected exactly in the model.
proof fn lemma_index(s: Seq<(String, String)>, i: int)
    requires
        keys_distinct(s),
        0 <= i < s.len(),
    ensures
        map_of_entries(s).contains_key(s[i].0@),
        map_of_entries(s)[s[i].0@] == s[i].1@,
    decreases s.len(),
{
    if i == s.len() - 1 {
    } else {
        lemma_distinct_drop_last(s);
        lemma_index(s.drop_last(), i);
        assert(s.drop_last()[i] == s[i]);
        assert(s[i].0@ != s.last().0@);
    }
}

/// Removing the entry at `i` removes exactly its key from the model.
proof fn lemma_remove(s: Seq<(String, String)>, i: int)
    requires
        keys_distinct(s),
        0 <= i < s.len(),
    ensures
        map_of_entries(s.remove(i)) =~= map_of_entries(s).remove(s[i].0@),
    decreases s.len(),
{
    lemma_distinct_drop_last(s);
    if i == s.len() - 1 {
        assert(s.remove(i) =~= s.drop_last());
        lemma_contains(s.drop_last(), s[i].0@);
        assert(!map_of_entries(s.drop_last()).contains_key(s[i].0@));
    } else {
        lemma_remove(s.drop_last(), i);
        assert(s.remove(i).drop_last() =~= s.drop_last().remove(i));
        assert(s.remove(i).last() == s.last());
        assert(map_of_entries(s.remove(i)) == map_of_entries(s.drop_last().remove(i)).insert(
            s.last().0@,
            s.last().1@,
        ));
        assert(s[i].0@ != s.last().0@);
    }
}

/// A session record: string fields under pairwise-distinct string keys.
#[derive(Debug)]
pub struct SessionMap {
    pub(crate) entries: Vec<(String, String)>,
}

impl View for SessionMap {
    type V = Map<Seq<char>, Seq<char>>;

    closed spec fn view(&self) -> Map<Seq<char>, Seq<char>> {
        map_of_entries(self.entries@)
    }
}

impl SessionMap {
    /// The record's internal invariant: no two entries share a key.
    pub closed spec fn wf(&self) -> bool {
        keys_distinct(self.entries@)
    }

    /// The empty record.
    pub fn new() -> (r: SessionMap)
        ensures
            r@ =~= Map::<Seq<char>, Seq<char>>::empty(),
            r.wf(),
    {
        SessionMap { entries: Vec::new() }
    }

    /// The number of fields in the record.
    pub fn len(&self) -> (n: usize)
        requires
            self.wf(),
        ensures
            n == self@.dom().len(),
    {
        proof {
            self.lemma_dom_len();
        }
        self.entries.len()
    }

    /// Whether the record has no fields.
    pub fn is_empty(&self) -> (b: bool)
        requires
            self.wf(),
        ensures
            b <==> self@ =~= Map::<Seq<char>, Seq<char>>::empty(),
    {
        proof {
            if self.entries@.len() > 0 {
                lemma_index(self.entries@, 0);
            } else {
                assert(self@ =~= Map::<Seq<char>, Seq<char>>::empty());
            }
        }
        self.entries.len() == 0
    }

    /// The domain of the model has exactly as many keys as there are entries.
    proof fn lemma_dom_len(&self)
        requires
            self.wf(),
        ensures
            self@.dom().len() == self.entries@.len(),
            self@.dom().finite(),
    {
        Self::lemma_dom_len_rec(self.entries@);
    }

    proof fn lemma_dom_len_rec(s: Seq<(String, String)>)
        requires
            keys_distinct(s),
        ensures
            map_of_entries(s).dom().len() == s.len(),
            map_of_entries(s).dom().finite(),
        decreases s.len(),
    {
        if s.len() > 0 {
            lemma_distinct_drop_last(s);
            Self::lemma_dom_len_rec(s.drop_last());
            lemma_contains(s.drop_last(), s.last().0@);
            assert(!map_of_entries(s.drop_last()).contains_key(s.last().0@));
            assert(map_of_entries(s).dom() =~= map_of_entries(s.drop_last()).dom().insert(
                s.last().0@,
            ));
            vstd::set::axiom_set_insert_len(map_of_entries(s.drop_last()).dom(), s.last().0@);
        }
    }

    /// Look a field up by its key.
    pub fn get(&self, key: &str) -> (r: Option<&String>)
        requires
            self.wf(),
        ensures
            match r {
                Some(v) => self@.contains_key(key@) && self@[key@] == v@,
                None => !self@.contains_key(key@),
            },
    {
        let owned: String = key.to_owned();
        let n = self.entries.len();
        let mut i: usize = 0;
        while i < n
            invariant
                n == self.entries@.len(),
                0 <= i <= n,
                self.wf(),
                owned@ == key@,
                forall|j: int| 0 <= j < i ==> self.entries@[j].0@ != key@,
            decreases n - i,
        {
            if self.entries[i].0 == owned {
                proof {
                    lemma_index(self.entries@, i as int);
                }
                return Some(&self.entries[i].1);
            }
            i = i + 1;
        }
        proof {
            lemma_contains(self.entries@, key@);
        }
        None
    }

    /// Remove a field; the model loses exactly that key.
    pub fn remove(&mut self, key: &str)
        requires
            old(self).wf(),
        ensures
            final(self).wf(),
            final(self)@ =~= old(self)@.remove(key@),
    {
        let owned: String = key.to_owned();
        let n = self.entries.len();
        let mut i: usize = 0;
        while i < n
            invariant
                n == self.entries@.len(),
                0 <= i <= n,
                self.wf(),
                *self == *old(self),
                owned@ == key@,
                forall|j: int| 0 <= j < i ==> self.entries@[j].0@ != key@,
            decreases n - i,
        {
            if self.entries[i].0 == owned {
                proof {
                    lemma_remove(self.entries@, i as int);
                }
                let ghost s = self.entries@;
                self.entries.remove(i);
                proof {
                    assert forall|p: int, q: int|
                        0 <= p < q < self.entries@.len() implies self.entries@[p].0@
                        != self.entries@[q].0@ by {
                        if p < i {
                            assert(self.entries@[p] == s[p]);
                        } else {
                            assert(self.entries@[p] == s[p + 1]);
                        }
                        if q < i {
                            assert(self.entries@[q] == s[q]);
                        } else {
                            assert(self.entries@[q] == s[q + 1]);
                        }
                    }
                }
                return ;
            }
            i = i + 1;
        }
        proof {
            lemma_contains(self.entries@, key@);
            assert(!self@.contains_key(key@));
            assert(self@ =~= self@.remove(key@));
        }
    }

    /// Set a field; the model gains (or overwrites) exactly that key.
    pub fn set(&mut self, key: String, value: String)
        requires
            old(self).wf(),
        ensures
            final(self).wf(),
            final(self)@ =~= old(self)@.insert(key@, value@),
    {
        self.remove(key.as_str());
        let ghost mid = self.entries@;
        proof {
            lemma_contains(mid, key@);
        }
        self.entries.push((key, value));
        proof {
            assert(self.entries@.drop_last() =~= mid);
            assert forall|p: int, q: int| 0 <= p < q < self.entries@.len() implies self.entries@[p].0@
                != self.entries@[q].0@ by {
                if q < self.entries@.len() - 1 {
                    assert(self.entries@[p] == mid[p] && self.entries@[q] == mid[q]);
                } else {
                    assert(self.entries@[p] == mid[p]);
                    lemma_index(mid, p);
                }
            }
        }
    }

    /// Drop every field; the model becomes the empty map.
    pub fn clear(&mut self)
        ensures
            final(self).wf(),
            final(self)@ =~= Map::<Seq<char>, Seq<char>>::empty(),
    {
        self.entries.clear();
    }

    /// An equal copy of the record.
    pub fn duplicate(&self) -> (r: SessionMap)
        requires
            self.wf(),
        ensures
            r.wf(),
            r@ =~= self@,
    {
        let n = self.entries.len();
        let mut out: Vec<(String, String)> = Vec::new();
        let mut i: usize = 0;
        while i < n
            invariant
                n == self.entries@.len(),
                0 <= i <= n,
                out@.len() == i,
                forall|j: int| 0 <= j < i ==> out@[j] == self.entries@[j],
            decreases n - i,
        {
            let k = self.entries[i].0.clone();
            let v = self.entries[i].1.clone();
            out.push((k, v));
            i = i + 1;
        }
        proof {
            assert(out@ =~= self.entries@);
        }
        SessionMap { entries: out }
    }
}

} // verus!
