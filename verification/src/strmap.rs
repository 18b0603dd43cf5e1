//! A string-to-string map that remembers insertion order, used for header
//! sets and header-matching rules.

use vstd::prelude::*;
use crate::text::str_eq;
use std::collections::BTreeMap;

verus! {

/// Key/value pairs taken by their views.
pub type Pairs = Seq<(Seq<char>, Seq<char>)>;

/// No key occurs twice.
pub open spec fn distinct_keys(p: Pairs) -> bool {
    forall|i: int, j: int| 0 <= i < j < p.len() ==> p[i].0 != p[j].0
}

/// The map that a pair sequence denotes: a later pair overrides an earlier one.
pub open spec fn pairs_map(p: Pairs) -> Map<Seq<char>, Seq<char>>
    decreases p.len(),
{
    if p.len() == 0 {
        Map::empty()
    } else {
        pairs_map(p.drop_last()).insert(p.last().0, p.last().1)
    }
}

/// The index of the pair with key `k`, if any.
pub open spec fn has_key_at(p: Pairs, k: Seq<char>, i: int) -> bool {
    0 <= i < p.len() && p[i].0 == k
}

/// The pairs after setting `k` to `v`: the pair with key `k` is replaced in
/// place, or a new pair is appended.
pub open spec fn pairs_insert(p: Pairs, k: Seq<char>, v: Seq<char>) -> Pairs {
    if exists|i: int| has_key_at(p, k, i) {
        p.update(choose|i: int| has_key_at(p, k, i), (k, v))
    } else {
        p.push((k, v))
    }
}

/// For distinct keys, the map holds exactly the pairs.
pub proof fn lemma_pairs_map(p: Pairs)
    requires
        distinct_keys(p),
    ensures
        forall|k: Seq<char>| #[trigger]
            pairs_map(p).contains_key(k) <==> exists|i: int| has_key_at(p, k, i),
        forall|i: int| 0 <= i < p.len() ==> #[trigger] pairs_map(p)[p[i].0] == p[i].1,
    decreases p.len(),
{
    if p.len() > 0 {
        let q = p.drop_last();
        lemma_pairs_map(q);
        assert forall|k: Seq<char>| #[trigger]
            pairs_map(p).contains_key(k) <==> exists|i: int| has_key_at(p, k, i) by {
            if pairs_map(p).contains_key(k) && k != p.last().0 {
                assert(pairs_map(q).contains_key(k));
                let i = choose|i: int| has_key_at(q, k, i);
                assert(q[i] == p[i]);
                assert(has_key_at(p, k, i));
            }
            if k == p.last().0 {
                assert(has_key_at(p, k, p.len() - 1));
            }
            if exists|i: int| has_key_at(p, k, i) {
                let i = choose|i: int| has_key_at(p, k, i);
                if i < p.len() - 1 {
                    assert(q[i] == p[i]);
                    assert(has_key_at(q, k, i));
                    assert(pairs_map(q).contains_key(k));
                }
            }
        }
        assert forall|i: int| 0 <= i < p.len() implies #[trigger] pairs_map(p)[p[i].0] == p[i].1 by {
            if i < p.len() - 1 {
                assert(q[i] == p[i]);
                assert(p[i].0 != p.last().0);
                assert(pairs_map(q)[q[i].0] == q[i].1);
            }
        }
    }
}

#[verifier::external_type_specification]
#[verifier::external_body]
pub struct ExJsonError(serde_json::Error);

/// The pairs, in key order, of the JSON object of strings that `text` holds,
/// or `None` where `text` is no such object. Names the result of
/// `serde_json::from_str::<BTreeMap<String, String>>`.
pub uninterp spec fn parsed_json_object(text: Seq<char>) -> Option<Pairs>;

/// The JSON text of the object with the given pairs. Names the result of
/// `serde_json::to_string` on a `BTreeMap<&str, &str>` of the pairs.
pub uninterp spec fn json_object_text(pairs: Pairs) -> Seq<char>;

/// The views of owned pairs.
pub open spec fn owned_pairs(v: Seq<(String, String)>) -> Pairs {
    v.map_values(|e: (String, String)| (e.0@, e.1@))
}

/// Calls `serde_json::from_str` into a `BTreeMap<String, String>` and hands
/// its entries out in key order. The contract says that the call succeeds
/// exactly where `parsed_json_object` is `Some`, and names the entries.
#[verifier::external_body]
fn parse_json_object(text: &str) -> (r: Result<Vec<(String, String)>, serde_json::Error>)
    ensures
        match r {
            Ok(v) => parsed_json_object(text@) == Some(owned_pairs(v@)),
            Err(_) => parsed_json_object(text@) is None,
        },
{
    serde_json::from_str::<BTreeMap<String, String>>(text).map(|m| m.into_iter().collect())
}

/// Calls `serde_json::to_string` on a `BTreeMap<&str, &str>` built from the
/// pairs. The contract names the text, and says that the call succeeds:
/// serde_json documents that serialization fails only where a `Serialize`
/// impl decides to fail or a map has keys that are not strings, and neither
/// holds of a map from `&str` to `&str`.
#[verifier::external_body]
fn encode_json_object(entries: &Vec<(String, String)>) -> (r: Result<String, serde_json::Error>)
    ensures
        r is Ok,
        r matches Ok(t) ==> t@ == json_object_text(owned_pairs(entries@)),
{
    let m: BTreeMap<&str, &str> = entries.iter().map(|e| (e.0.as_str(), e.1.as_str())).collect();
    serde_json::to_string(&m)
}

/// A header set could not be written as JSON.
#[derive(Debug, Clone, Copy, PartialEq, Eq, Structural)]
pub struct JsonEncodeError;

/// A map from strings to strings whose keys are distinct, kept in the
/// order in which they were first inserted.
#[derive(Debug)]
pub struct StrMap {
    entries: Vec<(String, String)>,
}

impl View for StrMap {
    type V = Map<Seq<char>, Seq<char>>;

    closed spec fn view(&self) -> Map<Seq<char>, Seq<char>> {
        pairs_map(self.pairs())
    }
}

impl StrMap {
    /// The entries in order, taken by their views.
    pub closed spec fn pairs(&self) -> Pairs {
        self.entries@.map_values(|e: (String, String)| (e.0@, e.1@))
    }

    #[verifier::type_invariant]
    pub closed spec fn wf(&self) -> bool {
        distinct_keys(self.pairs())
    }

    /// The view is the map of the pairs, and the keys are distinct.
    pub proof fn lemma_view(&self)
        requires
            self.wf(),
        ensures
            self@ == pairs_map(self.pairs()),
            distinct_keys(self.pairs()),
            forall|k: Seq<char>| #[trigger]
                self@.contains_key(k) <==> exists|i: int| has_key_at(self.pairs(), k, i),
            forall|i: int|
                0 <= i < self.pairs().len() ==> #[trigger] self@[self.pairs()[i].0]
                    == self.pairs()[i].1,
    {
        lemma_pairs_map(self.pairs());
    }

    /// An empty map.
    pub fn new() -> (m: Self)
        ensures
            m@ == Map::<Seq<char>, Seq<char>>::empty(),
            m.pairs() == Seq::<(Seq<char>, Seq<char>)>::empty(),
    {
        let m = StrMap { entries: Vec::new() };
        assert(m.pairs() =~= Seq::<(Seq<char>, Seq<char>)>::empty());
        m
    }

    /// The number of entries.
    pub fn len(&self) -> (n: usize)
        ensures
            n == self.pairs().len(),
            n == self@.dom().len(),
    {
        proof {
            use_type_invariant(self);
            self.lemma_view();
            lemma_pairs_map_len(self.pairs());
        }
        self.entries.len()
    }

    /// Whether the map has no entries.
    pub fn is_empty(&self) -> (b: bool)
        ensures
            b == (self.pairs().len() == 0),
            b == (self@ == Map::<Seq<char>, Seq<char>>::empty()),
    {
        proof {
            use_type_invariant(self);
            self.lemma_view();
            if self.pairs().len() > 0 {
                assert(has_key_at(self.pairs(), self.pairs()[0].0, 0));
                assert(self@.contains_key(self.pairs()[0].0));
            } else {
                assert(self@ =~= Map::<Seq<char>, Seq<char>>::empty());
            }
        }
        self.entries.len() == 0
    }

    /// The key of the `i`-th entry.
    pub fn key_at(&self, i: usize) -> (k: &String)
        requires
            i < self.pairs().len(),
        ensures
            k@ == self.pairs()[i as int].0,
    {
        &self.entries[i].0
    }

    /// The value of the `i`-th entry.
    pub fn value_at(&self, i: usize) -> (v: &String)
        requires
            i < self.pairs().len(),
        ensures
            v@ == self.pairs()[i as int].1,
    {
        &self.entries[i].1
    }

    /// The position of the entry with key `key`.
    pub fn position(&self, key: &str) -> (r: Option<usize>)
        ensures
            match r {
                Some(i) => has_key_at(self.pairs(), key@, i as int),
                None => !(exists|i: int| has_key_at(self.pairs(), key@, i)),
            },
    {
        let n = self.entries.len();
        let mut i: usize = 0;
        while i < n
            invariant
                n == self.pairs().len(),
                i <= n,
                forall|j: int| 0 <= j < i ==> !has_key_at(self.pairs(), key@, j),
            decreases n - i,
        {
            if str_eq(self.entries[i].0.as_str(), key) {
                return Some(i);
            }
            i = i + 1;
        }
        None
    }

    /// The value stored under `key`.
    pub fn get(&self, key: &str) -> (r: Option<&String>)
        ensures
            match r {
                Some(v) => self@.contains_key(key@) && self@[key@] == v@,
                None => !self@.contains_key(key@),
            },
    {
        proof {
            use_type_invariant(self);
            self.lemma_view();
        }
        match self.position(key) {
            Some(i) => Some(&self.entries[i].1),
            None => None,
        }
    }

    /// Whether `key` has an entry.
    pub fn contains_key(&self, key: &str) -> (b: bool)
        ensures
            b == self@.contains_key(key@),
    {
        proof {
            use_type_invariant(self);
            self.lemma_view();
        }
        self.position(key).is_some()
    }

    /// The map that a JSON object of strings denotes, or `None` where
    /// `text` is no such object.
    pub fn from_json(text: &str) -> (r: Option<StrMap>)
        ensures
            match r {
                Some(m) => parsed_json_object(text@) matches Some(p) && m@ == pairs_map(p),
                None => parsed_json_object(text@) is None,
            },
    {
        match parse_json_object(text) {
            Ok(v) => Some(Self::from_pairs(&v)),
            Err(_) => None,
        }
    }

    /// The map built by inserting the pairs in order.
    pub fn from_pairs(v: &Vec<(String, String)>) -> (m: StrMap)
        ensures
            m@ == pairs_map(owned_pairs(v@)),
    {
        let mut m = StrMap::new();
        let n = v.len();
        let mut i: usize = 0;
        while i < n
            invariant
                n == v@.len(),
                i <= n,
                m@ == pairs_map(owned_pairs(v@).take(i as int)),
            decreases n - i,
        {
            let k = v[i].0.clone();
            let val = v[i].1.clone();
            m.insert(k, val);
            assert(owned_pairs(v@).take(i + 1).drop_last() =~= owned_pairs(v@).take(i as int));
            i = i + 1;
        }
        assert(owned_pairs(v@).take(n as int) =~= owned_pairs(v@));
        m
    }

    /// The JSON object text of the map's entries; writing it always succeeds.
    pub fn to_json(&self) -> (r: Result<String, JsonEncodeError>)
        ensures
            r is Ok,
            r matches Ok(t) ==> t@ == json_object_text(self.pairs()),
    {
        match encode_json_object(&self.entries) {
            Ok(t) => Ok(t),
            Err(_) => Err(JsonEncodeError),
        }
    }

    /// Sets `key` to `value`: an existing entry keeps its place, a new key
    /// goes to the end.
    pub fn insert(&mut self, key: String, value: String)
        ensures
            final(self)@ == old(self)@.insert(key@, value@),
            final(self).pairs() == pairs_insert(old(self).pairs(), key@, value@),
    {
        proof {
            use_type_invariant(&*self);
            self.lemma_view();
        }
        let ghost p = self.pairs();
        let pos = self.position(key.as_str());
        let mut entries: Vec<(String, String)> = Vec::new();
        std::mem::swap(&mut entries, &mut self.entries);
        let ghost k = key@;
        let ghost v = value@;
        assert(entries@.map_values(|e: (String, String)| (e.0@, e.1@)) == p);
        match pos {
            Some(i) => {
                entries.set(i, (key, value));
                assert(entries@.map_values(|e: (String, String)| (e.0@, e.1@)) =~= p.update(
                    i as int,
                    (k, v),
                ));
            },
            None => {
                entries.push((key, value));
                assert(entries@.map_values(|e: (String, String)| (e.0@, e.1@)) =~= p.push((k, v)));
            },
        }
        let ghost q = entries@.map_values(|e: (String, String)| (e.0@, e.1@));
        proof {
            lemma_pairs_insert(p, k, v);
        }
        assert(q == pairs_insert(p, k, v));
        self.entries = entries;
    }
}

/// Setting a key keeps keys distinct and sets the key in the denoted map.
pub proof fn lemma_pairs_insert(p: Pairs, k: Seq<char>, v: Seq<char>)
    requires
        distinct_keys(p),
    ensures
        distinct_keys(pairs_insert(p, k, v)),
        pairs_map(pairs_insert(p, k, v)) == pairs_map(p).insert(k, v),
{
    let q = pairs_insert(p, k, v);
    lemma_pairs_map(p);
    if exists|i: int| has_key_at(p, k, i) {
        let i = choose|i: int| has_key_at(p, k, i);
        assert forall|a: int, b: int| 0 <= a < b < q.len() implies q[a].0 != q[b].0 by {
            assert(q[a].0 == p[a].0);
            assert(q[b].0 == p[b].0);
        }
        lemma_pairs_map(q);
        assert forall|key: Seq<char>| #[trigger] pairs_map(q).contains_key(key)
            <==> pairs_map(p).insert(k, v).contains_key(key) by {
            if pairs_map(q).contains_key(key) {
                let j = choose|j: int| has_key_at(q, key, j);
                assert(has_key_at(p, key, j));
            }
            if pairs_map(p).contains_key(key) {
                let j = choose|j: int| has_key_at(p, key, j);
                assert(has_key_at(q, key, j));
            }
            if key == k {
                assert(has_key_at(q, key, i));
            }
        }
        assert forall|key: Seq<char>| #[trigger] pairs_map(q).contains_key(key) implies pairs_map(
            q,
        )[key] == pairs_map(p).insert(k, v)[key] by {
            let j = choose|j: int| has_key_at(q, key, j);
            assert(pairs_map(q)[q[j].0] == q[j].1);
            if j != i {
                assert(pairs_map(p)[p[j].0] == p[j].1);
            }
        }
        assert(pairs_map(q) =~= pairs_map(p).insert(k, v));
    } else {
        assert forall|a: int, b: int| 0 <= a < b < q.len() implies q[a].0 != q[b].0 by {
            if b == q.len() - 1 {
                assert(!has_key_at(p, k, a));
            }
        }
        assert(q.drop_last() =~= p);
    }
}

proof fn lemma_pairs_map_len(p: Pairs)
    requires
        distinct_keys(p),
    ensures
        pairs_map(p).dom().finite(),
        pairs_map(p).dom().len() == p.len(),
    decreases p.len(),
{
    if p.len() > 0 {
        let q = p.drop_last();
        lemma_pairs_map_len(q);
        lemma_pairs_map(q);
        assert(!pairs_map(q).contains_key(p.last().0)) by {
            if pairs_map(q).contains_key(p.last().0) {
                let i = choose|i: int| has_key_at(q, p.last().0, i);
                assert(p[i].0 == p[p.len() - 1].0);
            }
        }
    }
}

} // verus!
