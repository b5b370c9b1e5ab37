//! A small map from text keys to values.
use vstd::prelude::*;

use crate::text::same_text;

verus! {

/// One key with its value.
#[derive(Debug)]
pub struct Entry<V> {
    pub key: String,
    pub value: V,
}

/// A map from text keys to values, in which no key occurs twice.
#[derive(Debug)]
pub struct Table<V> {
    entries: Vec<Entry<V>>,
}

/// True when `k` is the key of entry `i`.
spec fn holds<V>(s: Seq<Entry<V>>, k: Seq<char>, i: int) -> bool {
    0 <= i < s.len() && s[i].key@ == k
}

spec fn distinct<V>(s: Seq<Entry<V>>) -> bool {
    forall|i: int, j: int| #![trigger s[i], s[j]] 0 <= i < j < s.len() ==> s[i].key@ != s[j].key@
}

spec fn as_map<V>(s: Seq<Entry<V>>) -> Map<Seq<char>, V> {
    Map::new(
        |k: Seq<char>| exists|i: int| holds(s, k, i),
        |k: Seq<char>| s[choose|i: int| holds(s, k, i)].value,
    )
}

proof fn lemma_entry<V>(s: Seq<Entry<V>>, i: int)
    requires
        distinct(s),
        0 <= i < s.len(),
    ensures
        as_map(s).dom().contains(s[i].key@),
        as_map(s)[s[i].key@] == s[i].value,
{
    let k = s[i].key@;
    assert(holds(s, k, i));
    let j = choose|j: int| holds(s, k, j);
    assert(holds(s, k, j));
    assert(i == j);
}

proof fn lemma_push<V>(s: Seq<Entry<V>>, e: Entry<V>)
    requires
        distinct(s),
        !as_map(s).dom().contains(e.key@),
    ensures
        distinct(s.push(e)),
        as_map(s.push(e)) == as_map(s).insert(e.key@, e.value),
{
    let t = s.push(e);
    assert forall|i: int, j: int| #![trigger t[i], t[j]] 0 <= i < j < t.len() implies t[i].key@
        != t[j].key@ by {
        if j == s.len() {
            if t[i].key@ == e.key@ {
                assert(holds(s, e.key@, i));
            }
        }
    }
    lemma_entry(t, s.len() as int);
    assert forall|k: Seq<char>| as_map(t).dom().contains(k) <==> as_map(s).insert(
        e.key@,
        e.value,
    ).dom().contains(k) by {
        if as_map(t).dom().contains(k) {
            let i = choose|i: int| holds(t, k, i);
            if i < s.len() {
                assert(holds(s, k, i));
            }
        }
        if as_map(s).dom().contains(k) {
            let i = choose|i: int| holds(s, k, i);
            assert(holds(t, k, i));
        }
    }
    assert forall|k: Seq<char>| as_map(s).insert(e.key@, e.value).dom().contains(k) implies as_map(
        t,
    )[k] == as_map(s).insert(e.key@, e.value)[k] by {
        if k != e.key@ {
            let i = choose|i: int| holds(s, k, i);
            lemma_entry(s, i);
            assert(t[i] == s[i]);
            lemma_entry(t, i);
        }
    }
    assert(as_map(t) =~= as_map(s).insert(e.key@, e.value));
}

proof fn lemma_remove<V>(s: Seq<Entry<V>>, i: int)
    requires
        distinct(s),
        0 <= i < s.len(),
    ensures
        distinct(s.remove(i)),
        as_map(s.remove(i)) == as_map(s).remove(s[i].key@),
{
    let t = s.remove(i);
    let gone = s[i].key@;
    assert forall|a: int, b: int| #![trigger t[a], t[b]] 0 <= a < b < t.len() implies t[a].key@
        != t[b].key@ by {
        let a2 = if a < i { a } else { a + 1 };
        let b2 = if b < i { b } else { b + 1 };
        assert(t[a] == s[a2] && t[b] == s[b2]);
    }
    assert forall|k: Seq<char>| as_map(t).dom().contains(k) <==> as_map(s).remove(gone).dom().contains(
        k,
    ) by {
        if as_map(t).dom().contains(k) {
            let a = choose|a: int| holds(t, k, a);
            let a2 = if a < i { a } else { a + 1 };
            assert(t[a] == s[a2]);
            assert(holds(s, k, a2));
            assert(s[a2].key@ != gone);
        }
        if as_map(s).remove(gone).dom().contains(k) {
            let a2 = choose|a: int| holds(s, k, a);
            let a = if a2 < i { a2 } else { a2 - 1 };
            assert(t[a] == s[a2]);
            assert(holds(t, k, a));
        }
    }
    assert forall|k: Seq<char>| as_map(s).remove(gone).dom().contains(k) implies as_map(t)[k]
        == as_map(s).remove(gone)[k] by {
        let a2 = choose|a: int| holds(s, k, a);
        lemma_entry(s, a2);
        let a = if a2 < i { a2 } else { a2 - 1 };
        assert(t[a] == s[a2]);
        lemma_entry(t, a);
    }
    assert(as_map(t) =~= as_map(s).remove(gone));
}

impl<V> View for Table<V> {
    type V = Map<Seq<char>, V>;

    closed spec fn view(&self) -> Map<Seq<char>, V> {
        as_map(self.entries@)
    }
}

impl<V> Table<V> {
    #[verifier::type_invariant]
    spec fn no_key_twice(self) -> bool {
        distinct(self.entries@)
    }

    /// The number of entries.
    pub closed spec fn size(&self) -> nat {
        self.entries@.len()
    }

    /// The key of entry `i`.
    pub closed spec fn key(&self, i: int) -> Seq<char> {
        self.entries@[i].key@
    }

    /// The empty table.
    pub fn new() -> (r: Self)
        ensures
            r@ == Map::<Seq<char>, V>::empty(),
            r.size() == 0,
    {
        let entries: Vec<Entry<V>> = Vec::new();
        assert forall|k: Seq<char>| !as_map(entries@).dom().contains(k) by {
            if as_map(entries@).dom().contains(k) {
                let i = choose|i: int| holds(entries@, k, i);
                assert(false);
            }
        }
        assert(as_map(entries@) =~= Map::empty());
        Table { entries }
    }

    /// Every key is the key of exactly one entry.
    pub open spec fn indexed(&self) -> bool {
        &&& forall|k: Seq<char>|
            self@.dom().contains(k) ==> exists|i: int| 0 <= i < self.size() && #[trigger] self.key(i) == k
        &&& forall|i: int, j: int|
            #![trigger self.key(i), self.key(j)]
            0 <= i < j < self.size() ==> self.key(i) != self.key(j)
    }

    pub fn len(&self) -> (r: usize)
        ensures
            r == self.size(),
            self.indexed(),
    {
        proof {
            use_type_invariant(self);
            assert forall|k: Seq<char>| self@.dom().contains(k) implies exists|i: int|
                0 <= i < self.size() && #[trigger] self.key(i) == k by {
                let i = choose|i: int| holds(self.entries@, k, i);
                assert(self.key(i) == k);
            }
        }
        self.entries.len()
    }

    /// The entry at position `i`.
    pub fn at(&self, i: usize) -> (r: &Entry<V>)
        requires
            i < self.size(),
        ensures
            r.key@ == self.key(i as int),
            self@.dom().contains(r.key@),
            self@[r.key@] == r.value,
    {
        proof {
            use_type_invariant(self);
            lemma_entry(self.entries@, i as int);
        }
        &self.entries[i]
    }

    fn position(&self, key: &str) -> (r: Option<usize>)
        ensures
            match r {
                Some(i) => i < self.entries@.len() && self.entries@[i as int].key@ == key@,
                None => !self@.dom().contains(key@),
            },
    {
        for i in 0..self.entries.len()
            invariant
                forall|j: int| 0 <= j < i ==> (#[trigger] self.entries@[j]).key@ != key@,
        {
            if same_text(self.entries[i].key.as_str(), key) {
                return Some(i);
            }
        }
        proof {
            if self@.dom().contains(key@) {
                let i = choose|i: int| holds(self.entries@, key@, i);
                assert(self.entries@[i].key@ == key@);
            }
        }
        None
    }

    pub fn contains(&self, key: &str) -> (r: bool)
        ensures
            r == self@.dom().contains(key@),
    {
        match self.position(key) {
            Some(i) => {
                proof {
                    use_type_invariant(self);
                    lemma_entry(self.entries@, i as int);
                }
                true
            },
            None => false,
        }
    }

    pub fn get(&self, key: &str) -> (r: Option<&V>)
        ensures
            match r {
                Some(v) => self@.dom().contains(key@) && *v == self@[key@],
                None => !self@.dom().contains(key@),
            },
    {
        match self.position(key) {
            Some(i) => {
                proof {
                    use_type_invariant(self);
                    lemma_entry(self.entries@, i as int);
                }
                Some(&self.entries[i].value)
            },
            None => None,
        }
    }

    /// Takes the entry of `key` out of the table.
    pub fn remove(&mut self, key: &str) -> (r: Option<V>)
        ensures
            final(self)@ == old(self)@.remove(key@),
            match r {
                Some(v) => old(self)@.dom().contains(key@) && v == old(self)@[key@] && final(self).size() == old(self).size() - 1,
                None => !old(self)@.dom().contains(key@) && final(self).size() == old(self).size(),
            },
    {
        match self.position(key) {
            Some(i) => {
                proof {
                    use_type_invariant(&*self);
                    lemma_entry(self.entries@, i as int);
                    lemma_remove(self.entries@, i as int);
                }
                let mut entries: Vec<Entry<V>> = Vec::new();
                std::mem::swap(&mut entries, &mut self.entries);
                let entry = entries.remove(i);
                self.entries = entries;
                Some(entry.value)
            },
            None => {
                assert(self@.remove(key@) =~= self@);
                None
            },
        }
    }

    /// Sets the value of `key`.
    pub fn insert(&mut self, key: String, value: V)
        ensures
            final(self)@ == old(self)@.insert(key@, value),
            final(self).size() == old(self).size() + if old(self)@.dom().contains(key@) {
                0int
            } else {
                1int
            },
    {
        let _ = self.remove(key.as_str());
        let ghost without = self@;
        assert(!without.dom().contains(key@));
        proof {
            use_type_invariant(&*self);
            lemma_push(self.entries@, (Entry { key, value }));
        }
        let mut entries: Vec<Entry<V>> = Vec::new();
        std::mem::swap(&mut entries, &mut self.entries);
        entries.push(Entry { key, value });
        self.entries = entries;
        assert(self@ == without.insert(key@, value));
        assert(self@ =~= old(self)@.insert(key@, value));
    }

    /// Takes some entry out of the table.
    pub fn pop(&mut self) -> (r: Option<Entry<V>>)
        ensures
            match r {
                Some(e) => old(self)@.dom().contains(e.key@) && old(self)@[e.key@] == e.value && final(self)@ == old(self)@.remove(e.key@) && final(self).size() == old(self).size() - 1,
                None => old(self)@ == Map::<Seq<char>, V>::empty() && *final(self) == *old(self)
                    && old(self).size() == 0,
            },
    {
        let n: usize = self.entries.len();
        if n == 0 {
            assert forall|k: Seq<char>| !self@.dom().contains(k) by {
                if self@.dom().contains(k) {
                    let i = choose|i: int| holds(self.entries@, k, i);
                    assert(false);
                }
            }
            assert(self@ =~= Map::empty());
            return None;
        }
        proof {
            use_type_invariant(&*self);
            lemma_entry(self.entries@, n - 1);
            lemma_remove(self.entries@, n - 1);
        }
        let mut entries: Vec<Entry<V>> = Vec::new();
        std::mem::swap(&mut entries, &mut self.entries);
        let entry = entries.remove(n - 1);
        self.entries = entries;
        Some(entry)
    }
}

} // verus!
