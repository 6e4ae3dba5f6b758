//! A bounded cache from request keys to destination URLs that evicts the
//! least recently used entry first.
use vstd::prelude::*;

use crate::text::str_eq;

verus! {

/// The identity of a request: its text, the engine identifier as given, and
/// the language; compared exactly, without any normalisation.
#[derive(Clone, Debug)]
pub struct CacheKey {
    pub query: String,
    pub engine: String,
    pub language: String,
}

pub type KeyView = (Seq<char>, Seq<char>, Seq<char>);

/// An entry as the model sees it: a key and the URL stored for it.
pub type EntryView = (KeyView, Seq<char>);

impl View for CacheKey {
    type V = KeyView;

    open spec fn view(&self) -> KeyView {
        (self.query@, self.engine@, self.language@)
    }
}

impl CacheKey {
    pub fn new(query: &str, engine: &str, language: &str) -> (r: Self)
        ensures
            r@ == (query@, engine@, language@),
    {
        CacheKey {
            query: String::from_str(query),
            engine: String::from_str(engine),
            language: String::from_str(language),
        }
    }

    pub fn same(&self, other: &CacheKey) -> (r: bool)
        ensures
            r == (self@ == other@),
    {
        str_eq(self.query.as_str(), other.query.as_str()) && str_eq(
            self.engine.as_str(),
            other.engine.as_str(),
        ) && str_eq(self.language.as_str(), other.language.as_str())
    }
}

/// No key occurs twice.
pub open spec fn keys_distinct(s: Seq<EntryView>) -> bool {
    forall|i: int, j: int| 0 <= i < j < s.len() ==> s[i].0 != s[j].0
}

/// Where the key stands, counted from the least recently used entry; -1 if
/// it is absent.
pub open spec fn position(s: Seq<EntryView>, k: KeyView) -> int
    decreases s.len(),
{
    if s.len() == 0 {
        -1
    } else if s.last().0 == k {
        s.len() - 1
    } else {
        position(s.drop_last(), k)
    }
}

/// The URL stored for a key.
pub open spec fn lookup(s: Seq<EntryView>, k: KeyView) -> Option<Seq<char>> {
    let p = position(s, k);
    if p >= 0 {
        Some(s[p].1)
    } else {
        None
    }
}

/// The entries after a read of `k`: a present key becomes the most recently
/// used one.
pub open spec fn touched(s: Seq<EntryView>, k: KeyView) -> Seq<EntryView> {
    let p = position(s, k);
    if p >= 0 {
        s.remove(p).push(s[p])
    } else {
        s
    }
}

/// The entries after storing `v` under `k`: the key becomes the most recently
/// used one; a new key in a full cache first evicts the least recently used.
pub open spec fn inserted(s: Seq<EntryView>, cap: nat, k: KeyView, v: Seq<char>) -> Seq<EntryView> {
    let p = position(s, k);
    if p >= 0 {
        s.remove(p).push((k, v))
    } else if s.len() < cap {
        s.push((k, v))
    } else if s.len() > 0 {
        s.subrange(1, s.len() as int).push((k, v))
    } else {
        s
    }
}

/// `position` finds the last entry with the key, or says there is none.
pub proof fn lemma_position(s: Seq<EntryView>, k: KeyView)
    ensures
        -1 <= position(s, k) < s.len(),
        position(s, k) >= 0 ==> s[position(s, k)].0 == k,
        forall|j: int| position(s, k) < j < s.len() ==> s[j].0 != k,
    decreases s.len(),
{
    if s.len() > 0 && s.last().0 != k {
        let t = s.drop_last();
        lemma_position(t, k);
        assert forall|j: int| position(s, k) < j < s.len() implies s[j].0 != k by {
            if j < t.len() {
                assert(s[j] == t[j]);
            }
        }
    }
}

/// With distinct keys, the entry at `i` is where its key stands.
pub proof fn lemma_position_at(s: Seq<EntryView>, i: int)
    requires
        keys_distinct(s),
        0 <= i < s.len(),
    ensures
        position(s, s[i].0) == i,
{
    lemma_position(s, s[i].0);
    let p = position(s, s[i].0);
    if p != i {
        if p < i {
            assert(s[i].0 != s[i].0);
        } else {
            assert(s[i].0 != s[p].0);
        }
    }
}

/// With distinct keys, a key is found exactly where it occurs.
pub proof fn lemma_lookup(s: Seq<EntryView>, k: KeyView)
    requires
        keys_distinct(s),
    ensures
        lookup(s, k) is None <==> forall|i: int| 0 <= i < s.len() ==> s[i].0 != k,
        forall|i: int| 0 <= i < s.len() && s[i].0 == k ==> lookup(s, k) == Some(s[i].1),
{
    lemma_position(s, k);
    assert forall|i: int| 0 <= i < s.len() && s[i].0 == k implies lookup(s, k) == Some(
        s[i].1,
    ) by {
        lemma_position_at(s, i);
    }
}

/// Storing keeps the keys distinct and the length within the bound.
pub proof fn lemma_inserted_wf(s: Seq<EntryView>, cap: nat, k: KeyView, v: Seq<char>)
    requires
        keys_distinct(s),
        s.len() <= cap,
    ensures
        keys_distinct(inserted(s, cap, k, v)),
        inserted(s, cap, k, v).len() <= cap,
        inserted(s, cap, k, v).len() > 0 ==> lookup(inserted(s, cap, k, v), k) == Some(v),
        cap > 0 ==> inserted(s, cap, k, v).len() > 0,
{
    lemma_position(s, k);
    let p = position(s, k);
    let t = inserted(s, cap, k, v);
    if p >= 0 {
        let r = s.remove(p);
        assert forall|i: int| 0 <= i < r.len() implies r[i].0 != k by {
            if i < p {
                assert(s[i].0 != s[p].0);
            } else {
                assert(r[i] == s[i + 1]);
                assert(s[i + 1].0 != s[p].0);
            }
        }
        assert forall|i: int, j: int| 0 <= i < j < t.len() implies t[i].0 != t[j].0 by {
            if j < r.len() {
                let a = if i < p { i } else { i + 1 };
                let b = if j < p { j } else { j + 1 };
                assert(s[a].0 != s[b].0);
            }
        }
    } else if s.len() < cap {
        assert(forall|i: int| 0 <= i < s.len() ==> s[i].0 != k);
    } else if s.len() > 0 {
        let r = s.subrange(1, s.len() as int);
        assert forall|i: int, j: int| 0 <= i < j < t.len() implies t[i].0 != t[j].0 by {
            if j < r.len() {
                assert(s[i + 1].0 != s[j + 1].0);
            } else {
                assert(s[i + 1].0 != k);
            }
        }
    }
    if t.len() > 0 {
        lemma_position_at(t, t.len() - 1);
    }
}

/// A read keeps the keys distinct, the length, and what each key maps to.
pub proof fn lemma_touched(s: Seq<EntryView>, k: KeyView)
    requires
        keys_distinct(s),
    ensures
        keys_distinct(touched(s, k)),
        touched(s, k).len() == s.len(),
        forall|k2: KeyView| #[trigger] lookup(touched(s, k), k2) == lookup(s, k2),
{
    lemma_position(s, k);
    let p = position(s, k);
    let t = touched(s, k);
    if p >= 0 {
        let r = s.remove(p);
        let idx = |i: int| if i == t.len() - 1 { p } else if i < p { i } else { i + 1 };
        assert forall|i: int| 0 <= i < t.len() implies t[i] == s[idx(i)] by {}
        assert forall|i: int, j: int| 0 <= i < j < t.len() implies t[i].0 != t[j].0 by {
            assert(s[idx(i)].0 != s[idx(j)].0);
        }
        assert forall|k2: KeyView| #[trigger] lookup(t, k2) == lookup(s, k2) by {
            lemma_lookup(s, k2);
            lemma_lookup(t, k2);
            if lookup(s, k2) is None {
                assert forall|i: int| 0 <= i < t.len() implies t[i].0 != k2 by {
                    assert(t[i] == s[idx(i)]);
                }
            } else {
                lemma_position(s, k2);
                let q = position(s, k2);
                let i = if q == p { t.len() - 1 } else if q < p { q } else { q - 1 };
                assert(t[i] == s[q]);
            }
        }
    }
}

/// With a full cache, storing a key that it does not hold evicts exactly the
/// least recently used entry: that key is then a miss, every other entry
/// stays, and the new key is a hit.
pub proof fn lemma_insert_evicts_least_recent(
    s: Seq<EntryView>,
    cap: nat,
    k: KeyView,
    v: Seq<char>,
)
    requires
        keys_distinct(s),
        s.len() == cap,
        cap >= 1,
        lookup(s, k) is None,
    ensures
        lookup(inserted(s, cap, k, v), s[0].0) is None,
        forall|i: int| 1 <= i < s.len() ==> lookup(inserted(s, cap, k, v), #[trigger] s[i].0) == Some(s[i].1),
        lookup(inserted(s, cap, k, v), k) == Some(v),
{
    lemma_lookup(s, k);
    lemma_inserted_wf(s, cap, k, v);
    let t = inserted(s, cap, k, v);
    lemma_position(s, k);
    assert(t == s.subrange(1, s.len() as int).push((k, v)));
    lemma_lookup(t, s[0].0);
    assert forall|i: int| 0 <= i < t.len() implies t[i].0 != s[0].0 by {
        if i < t.len() - 1 {
            assert(t[i] == s[i + 1]);
        }
    }
    assert forall|i: int| 1 <= i < s.len() implies lookup(t, #[trigger] s[i].0) == Some(s[i].1) by {
        assert(t[i - 1] == s[i]);
        lemma_lookup(t, s[i].0);
    }
}

/// With room left, storing a key that the cache does not hold keeps every
/// entry, and the new key is a hit.
pub proof fn lemma_insert_with_room(s: Seq<EntryView>, cap: nat, k: KeyView, v: Seq<char>)
    requires
        keys_distinct(s),
        s.len() < cap,
        lookup(s, k) is None,
    ensures
        forall|i: int| 0 <= i < s.len() ==> lookup(inserted(s, cap, k, v), #[trigger] s[i].0) == Some(s[i].1),
        lookup(inserted(s, cap, k, v), k) == Some(v),
{
    lemma_lookup(s, k);
    lemma_position(s, k);
    lemma_inserted_wf(s, cap, k, v);
    let t = inserted(s, cap, k, v);
    assert forall|i: int| 0 <= i < s.len() implies lookup(t, #[trigger] s[i].0) == Some(s[i].1) by {
        assert(t[i] == s[i]);
        lemma_lookup(t, s[i].0);
    }
}

/// The bounded cache.
pub struct LruCache {
    entries: Vec<(CacheKey, String)>,
    capacity: usize,
}

pub open spec fn entry_view(e: (CacheKey, String)) -> EntryView {
    (e.0@, e.1@)
}

impl View for LruCache {
    type V = Seq<EntryView>;

    /// The entries, least recently used first.
    closed spec fn view(&self) -> Seq<EntryView> {
        self.entries@.map_values(|e: (CacheKey, String)| entry_view(e))
    }
}

impl LruCache {
    pub closed spec fn spec_capacity(&self) -> nat {
        self.capacity as nat
    }

    pub open spec fn wf(&self) -> bool {
        &&& self@.len() <= self.spec_capacity()
        &&& keys_distinct(self@)
    }

    /// An empty cache that holds at most `capacity` entries.
    pub fn new(capacity: usize) -> (r: Self)
        ensures
            r.wf(),
            r@ == Seq::<EntryView>::empty(),
            r.spec_capacity() == capacity,
    {
        let r = LruCache { entries: Vec::new(), capacity };
        assert(r@ =~= Seq::<EntryView>::empty());
        r
    }

    pub fn capacity(&self) -> (r: usize)
        ensures
            r == self.spec_capacity(),
    {
        self.capacity
    }

    pub fn len(&self) -> (r: usize)
        ensures
            r == self@.len(),
    {
        self.entries.len()
    }

    /// Where the key stands, searching from the most recently used entry.
    fn find(&self, key: &CacheKey) -> (r: Option<usize>)
        ensures
            match r {
                Some(i) => i as int == position(self@, key@),
                None => position(self@, key@) == -1,
            },
    {
        let mut i: usize = self.entries.len();
        while i > 0
            invariant
                i <= self@.len(),
                self@.len() == self.entries@.len(),
                forall|j: int| i <= j < self@.len() ==> self@[j].0 != key@,
            decreases i,
        {
            assert(self@[i - 1] == entry_view(self.entries@[i - 1]));
            if self.entries[i - 1].0.same(key) {
                proof {
                    lemma_position(self@, key@);
                }
                return Some(i - 1);
            }
            i = i - 1;
        }
        proof {
            lemma_position(self@, key@);
        }
        None
    }

    /// The URL stored for the key; a hit makes the key the most recently used.
    pub fn get(&mut self, key: &CacheKey) -> (r: Option<String>)
        requires
            old(self).wf(),
        ensures
            final(self).wf(),
            final(self).spec_capacity() == old(self).spec_capacity(),
            final(self)@ == touched(old(self)@, key@),
            match r {
                Some(v) => lookup(old(self)@, key@) == Some(v@),
                None => lookup(old(self)@, key@) is None,
            },
    {
        let ghost s = self@;
        proof {
            lemma_touched(s, key@);
            lemma_position(s, key@);
        }
        match self.find(key) {
            None => None,
            Some(i) => {
                let e = self.entries.remove(i);
                let v = e.1.clone();
                self.entries.push(e);
                assert(self@ =~= s.remove(i as int).push(s[i as int]));
                Some(v)
            },
        }
    }

    /// Stores the URL under the key, evicting the least recently used entry
    /// when a new key meets a full cache.
    pub fn put(&mut self, key: CacheKey, value: String)
        requires
            old(self).wf(),
        ensures
            final(self).wf(),
            final(self).spec_capacity() == old(self).spec_capacity(),
            final(self)@ == inserted(old(self)@, old(self).spec_capacity(), key@, value@),
    {
        let ghost s = self@;
        let ghost kv = key@;
        let ghost vv = value@;
        proof {
            lemma_inserted_wf(s, self.capacity as nat, kv, vv);
            lemma_position(s, kv);
        }
        match self.find(&key) {
            Some(i) => {
                self.entries.remove(i);
                self.entries.push((key, value));
                assert(self@ =~= s.remove(i as int).push((kv, vv)));
            },
            None => {
                if self.entries.len() < self.capacity {
                    self.entries.push((key, value));
                    assert(self@ =~= s.push((kv, vv)));
                } else if self.entries.len() > 0 {
                    self.entries.remove(0);
                    self.entries.push((key, value));
                    assert(self@ =~= s.subrange(1, s.len() as int).push((kv, vv)));
                }
            },
        }
    }
}

} // verus!
