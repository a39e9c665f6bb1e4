//! A map keyed by strings that keeps its entries in the order in which their
//! keys first came in.

use crate::text::str_eq;
use vstd::prelude::*;

verus! {

/// One key with its value.
#[derive(Debug, Clone, PartialEq, Eq)]
pub struct Entry<V> {
    key: String,
    value: V,
}

/// A map from strings to values of type `V`. No key occurs twice; a key that
/// is inserted again keeps its place.
#[derive(Debug, PartialEq, Eq)]
pub struct StringMap<V> {
    entries: Vec<Entry<V>>,
}

/// The map that `entries` stand for, read from first to last.
pub closed spec fn entries_map<V>(entries: Seq<Entry<V>>) -> Map<Seq<char>, V>
    decreases entries.len(),
{
    if entries.len() == 0 {
        Map::empty()
    } else {
        entries_map(entries.drop_last()).insert(entries.last().key@, entries.last().value)
    }
}

/// Selects the keys other than `key`.
pub open spec fn differs_from(key: Seq<char>) -> spec_fn(Seq<char>) -> bool {
    |k: Seq<char>| k != key
}

/// Whether no key occurs twice in `entries`.
pub closed spec fn distinct_keys<V>(entries: Seq<Entry<V>>) -> bool {
    forall|i: int, j: int|
        0 <= i < entries.len() && 0 <= j < entries.len() && i != j ==> (#[trigger] entries[i]).key@
            != (#[trigger] entries[j]).key@
}

proof fn lemma_map_dom<V>(entries: Seq<Entry<V>>, k: Seq<char>)
    ensures
        entries_map(entries).contains_key(k) <==> exists|i: int|
            0 <= i < entries.len() && (#[trigger] entries[i]).key@ == k,
    decreases entries.len(),
{
    if entries.len() > 0 {
        let rest = entries.drop_last();
        lemma_map_dom(rest, k);
        if entries_map(entries).contains_key(k) {
            if entries.last().key@ == k {
                assert(entries[entries.len() - 1].key@ == k);
            } else {
                let i = choose|i: int| 0 <= i < rest.len() && (#[trigger] rest[i]).key@ == k;
                assert(entries[i].key@ == k);
            }
        }
        if exists|i: int| 0 <= i < entries.len() && (#[trigger] entries[i]).key@ == k {
            let i = choose|i: int| 0 <= i < entries.len() && (#[trigger] entries[i]).key@ == k;
            if i < rest.len() {
                assert(rest[i].key@ == k);
            }
        }
    }
}

proof fn lemma_map_value<V>(entries: Seq<Entry<V>>, i: int)
    requires
        distinct_keys(entries),
        0 <= i < entries.len(),
    ensures
        entries_map(entries).contains_key(entries[i].key@),
        entries_map(entries)[entries[i].key@] == entries[i].value,
    decreases entries.len(),
{
    let rest = entries.drop_last();
    if i < entries.len() - 1 {
        assert(distinct_keys(rest)) by {
            assert forall|a: int, b: int|
                0 <= a < rest.len() && 0 <= b < rest.len() && a != b implies (#[trigger] rest[a]).key@
                != (#[trigger] rest[b]).key@ by {
                assert(entries[a].key@ != entries[b].key@);
            }
        }
        lemma_map_value(rest, i);
        assert(entries[i].key@ != entries[entries.len() - 1].key@);
    }
}

proof fn lemma_map_finite<V>(entries: Seq<Entry<V>>)
    ensures
        entries_map(entries).dom().finite(),
    decreases entries.len(),
{
    if entries.len() > 0 {
        lemma_map_finite(entries.drop_last());
    }
}

proof fn lemma_map_remove<V>(entries: Seq<Entry<V>>, i: int)
    requires
        distinct_keys(entries),
        0 <= i < entries.len(),
    ensures
        distinct_keys(entries.remove(i)),
        entries_map(entries.remove(i)) == entries_map(entries).remove(entries[i].key@),
{
    let after = entries.remove(i);
    let k = entries[i].key@;
    assert(distinct_keys(after)) by {
        assert forall|a: int, b: int|
            0 <= a < after.len() && 0 <= b < after.len() && a != b implies (#[trigger] after[a]).key@
            != (#[trigger] after[b]).key@ by {
            let a0 = if a < i { a } else { a + 1 };
            let b0 = if b < i { b } else { b + 1 };
            assert(after[a] == entries[a0]);
            assert(after[b] == entries[b0]);
        }
    }
    assert forall|q: Seq<char>|
        entries_map(after).contains_key(q) <==> entries_map(entries).remove(k).contains_key(
            q,
        ) by {
        lemma_map_dom(after, q);
        lemma_map_dom(entries, q);
        if entries_map(after).contains_key(q) {
            let a = choose|a: int| 0 <= a < after.len() && (#[trigger] after[a]).key@ == q;
            let a0 = if a < i { a } else { a + 1 };
            assert(after[a] == entries[a0]);
            assert(entries[a0].key@ == q);
            assert(entries[a0].key@ != entries[i].key@);
        }
        if entries_map(entries).remove(k).contains_key(q) {
            let a0 = choose|a: int| 0 <= a < entries.len() && (#[trigger] entries[a]).key@ == q;
            let a = if a0 < i { a0 } else { a0 - 1 };
            assert(after[a] == entries[a0]);
        }
    }
    assert forall|q: Seq<char>| entries_map(after).contains_key(q) implies entries_map(after)[q]
        == entries_map(entries).remove(k)[q] by {
        lemma_map_dom(after, q);
        let a = choose|a: int| 0 <= a < after.len() && (#[trigger] after[a]).key@ == q;
        let a0 = if a < i { a } else { a + 1 };
        assert(after[a] == entries[a0]);
        lemma_map_value(after, a);
        lemma_map_value(entries, a0);
    }
    assert(entries_map(after) =~= entries_map(entries).remove(k));
}

proof fn lemma_map_replace<V>(entries: Seq<Entry<V>>, i: int, e: Entry<V>)
    requires
        distinct_keys(entries),
        0 <= i < entries.len(),
        e.key@ == entries[i].key@,
    ensures
        distinct_keys(entries.remove(i).insert(i, e)),
        entries_map(entries.remove(i).insert(i, e)) == entries_map(entries).insert(e.key@, e.value),
{
    let after = entries.remove(i).insert(i, e);
    let k = e.key@;
    assert(after.len() == entries.len());
    assert forall|a: int| 0 <= a < after.len() implies (#[trigger] after[a]).key@
        == entries[a].key@ by {}
    assert(distinct_keys(after)) by {
        assert forall|a: int, b: int|
            0 <= a < after.len() && 0 <= b < after.len() && a != b implies (#[trigger] after[a]).key@
            != (#[trigger] after[b]).key@ by {
            assert(entries[a].key@ != entries[b].key@);
        }
    }
    assert forall|q: Seq<char>|
        entries_map(after).contains_key(q) <==> entries_map(entries).insert(k, e.value).contains_key(
            q,
        ) by {
        lemma_map_dom(after, q);
        lemma_map_dom(entries, q);
        if entries_map(after).contains_key(q) {
            let a = choose|a: int| 0 <= a < after.len() && (#[trigger] after[a]).key@ == q;
            assert(entries[a].key@ == q);
        }
        if entries_map(entries).insert(k, e.value).contains_key(q) {
            if q == k {
                assert(after[i].key@ == q);
            } else {
                let a = choose|a: int| 0 <= a < entries.len() && (#[trigger] entries[a]).key@ == q;
                assert(after[a].key@ == q);
            }
        }
    }
    assert forall|q: Seq<char>| entries_map(after).contains_key(q) implies entries_map(after)[q]
        == entries_map(entries).insert(k, e.value)[q] by {
        lemma_map_dom(after, q);
        let a = choose|a: int| 0 <= a < after.len() && (#[trigger] after[a]).key@ == q;
        lemma_map_value(after, a);
        lemma_map_value(entries, a);
        if a != i {
            assert(after[a] == entries[a]);
            assert(entries[a].key@ != entries[i].key@);
        }
    }
    assert(entries_map(after) =~= entries_map(entries).insert(k, e.value));
}

impl<V: Clone> Clone for StringMap<V> {
    fn clone(&self) -> (copy: Self)
        ensures
            copy.keys() == self.keys(),
            copy.values().len() == self.values().len(),
            forall|i: int|
                0 <= i < self.values().len() ==> cloned(
                    #[trigger] self.values()[i],
                    copy.values()[i],
                ),
    {
        self.clone_map()
    }
}

impl<V> View for StringMap<V> {
    type V = Map<Seq<char>, V>;

    closed spec fn view(&self) -> Map<Seq<char>, V> {
        entries_map(self.entries@)
    }
}

impl<V> StringMap<V> {
    #[verifier::type_invariant]
    spec fn inv(&self) -> bool {
        distinct_keys(self.entries@)
    }

    /// The keys of the map, in the order in which they first came in.
    pub closed spec fn keys(&self) -> Seq<Seq<char>> {
        self.entries@.map_values(|e: Entry<V>| e.key@)
    }

    /// The values of the map, each at the place of its key in [`Self::keys`].
    pub closed spec fn values(&self) -> Seq<V> {
        self.entries@.map_values(|e: Entry<V>| e.value)
    }

    /// An empty map.
    pub fn new() -> (map: Self)
        ensures
            map@ == Map::<Seq<char>, V>::empty(),
            map.keys() == Seq::<Seq<char>>::empty(),
    {
        let map = StringMap { entries: Vec::new() };
        assert(map.keys() =~= Seq::<Seq<char>>::empty());
        map
    }

    /// The number of entries.
    pub fn len(&self) -> (n: usize)
        ensures
            n == self.keys().len(),
            n == self.values().len(),
            n == self@.dom().len(),
            self@.dom().finite(),
    {
        proof {
            use_type_invariant(self);
            Self::lemma_len(self.entries@);
        }
        self.entries.len()
    }

    proof fn lemma_len(entries: Seq<Entry<V>>)
        requires
            distinct_keys(entries),
        ensures
            entries_map(entries).dom().finite(),
            entries_map(entries).dom().len() == entries.len(),
        decreases entries.len(),
    {
        if entries.len() > 0 {
            let rest = entries.drop_last();
            assert(distinct_keys(rest)) by {
                assert forall|a: int, b: int|
                    0 <= a < rest.len() && 0 <= b < rest.len() && a != b implies (
                #[trigger] rest[a]).key@ != (#[trigger] rest[b]).key@ by {
                    assert(entries[a].key@ != entries[b].key@);
                }
            }
            Self::lemma_len(rest);
            lemma_map_dom(rest, entries.last().key@);
            if entries_map(rest).contains_key(entries.last().key@) {
                let i = choose|i: int|
                    0 <= i < rest.len() && (#[trigger] rest[i]).key@ == entries.last().key@;
                assert(entries[i].key@ == entries[entries.len() - 1].key@);
            }
        }
    }

    /// Whether the map has no entry.
    pub fn is_empty(&self) -> (empty: bool)
        ensures
            empty == (self.keys().len() == 0),
            empty == (self@ == Map::<Seq<char>, V>::empty()),
    {
        proof {
            use_type_invariant(self);
            if self.entries@.len() > 0 {
                lemma_map_value(self.entries@, 0);
            } else {
                assert(self@ =~= Map::<Seq<char>, V>::empty());
            }
        }
        self.entries.len() == 0
    }

    /// The place of `key` among the entries, if it has one.
    fn position(&self, key: &str) -> (at: Option<usize>)
        ensures
            match at {
                Some(i) => i < self.entries.len() && self.entries[i as int].key@ == key@,
                None => forall|j: int|
                    0 <= j < self.entries.len() ==> (#[trigger] self.entries[j]).key@ != key@,
            },
    {
        let mut i: usize = 0;
        while i < self.entries.len()
            invariant
                i <= self.entries.len(),
                forall|j: int| 0 <= j < i ==> (#[trigger] self.entries[j]).key@ != key@,
            decreases self.entries.len() - i,
        {
            if str_eq(self.entries[i].key.as_str(), key) {
                return Some(i);
            }
            i += 1;
        }
        None
    }

    /// Whether the map has an entry for `key`.
    pub fn contains_key(&self, key: &str) -> (found: bool)
        ensures
            found == self@.contains_key(key@),
            found == self.keys().contains(key@),
    {
        let at = self.position(key);
        proof {
            lemma_map_dom(self.entries@, key@);
            match at {
                Some(i) => {
                    assert(self.keys()[i as int] == key@);
                },
                None => {},
            }
        }
        at.is_some()
    }

    /// The value stored for `key`, if there is one.
    pub fn get(&self, key: &str) -> (value: Option<&V>)
        ensures
            match value {
                Some(v) => self@.contains_key(key@) && *v == self@[key@],
                None => !self@.contains_key(key@),
            },
    {
        let at = self.position(key);
        proof {
            use_type_invariant(self);
            lemma_map_dom(self.entries@, key@);
        }
        match at {
            Some(i) => {
                proof {
                    lemma_map_value(self.entries@, i as int);
                }
                Some(&self.entries[i].value)
            },
            None => None,
        }
    }

    /// Stores `value` for `key` and returns the value that stood there. A
    /// key the map already has keeps its place; a new key goes to the end.
    pub fn insert(&mut self, key: String, value: V) -> (previous: Option<V>)
        ensures
            final(self)@ == old(self)@.insert(key@, value),
            match previous {
                Some(v) => old(self)@.contains_key(key@) && v == old(self)@[key@],
                None => !old(self)@.contains_key(key@),
            },
            old(self)@.contains_key(key@) ==> final(self).keys() == old(self).keys(),
            !old(self)@.contains_key(key@) ==> final(self).keys() == old(self).keys().push(key@),
    {
        let at = self.position(key.as_str());
        proof {
            use_type_invariant(&*self);
            lemma_map_dom(self.entries@, key@);
        }
        let ghost before = self.entries@;
        match at {
            Some(i) => {
                let entry = Entry { key, value };
                proof {
                    lemma_map_value(before, i as int);
                    lemma_map_replace(before, i as int, entry);
                    lemma_map_remove(before, i as int);
                }
                let mut entries: Vec<Entry<V>> = Vec::new();
                core::mem::swap(&mut self.entries, &mut entries);
                let old_entry = entries.remove(i);
                entries.insert(i, entry);
                core::mem::swap(&mut self.entries, &mut entries);
                assert(self.keys() =~= old(self).keys());
                Some(old_entry.value)
            },
            None => {
                let entry = Entry { key, value };
                let mut entries: Vec<Entry<V>> = Vec::new();
                core::mem::swap(&mut self.entries, &mut entries);
                entries.push(entry);
                proof {
                    assert(entries@.drop_last() =~= before);
                    assert(distinct_keys(entries@));
                }
                core::mem::swap(&mut self.entries, &mut entries);
                assert(self.keys() =~= old(self).keys().push(key@));
                None
            },
        }
    }

    /// Takes the entry for `key` out of the map and returns its value.
    pub fn remove(&mut self, key: &str) -> (removed: Option<V>)
        ensures
            final(self)@ == old(self)@.remove(key@),
            match removed {
                Some(v) => old(self)@.contains_key(key@) && v == old(self)@[key@],
                None => !old(self)@.contains_key(key@),
            },
            final(self).keys() == old(self).keys().filter(differs_from(key@)),
    {
        let at = self.position(key);
        proof {
            use_type_invariant(&*self);
            lemma_map_dom(self.entries@, key@);
        }
        let ghost before = self.entries@;
        match at {
            Some(i) => {
                proof {
                    lemma_map_value(before, i as int);
                    lemma_map_remove(before, i as int);
                }
                let mut entries: Vec<Entry<V>> = Vec::new();
                core::mem::swap(&mut self.entries, &mut entries);
                let entry = entries.remove(i);
                core::mem::swap(&mut self.entries, &mut entries);
                proof {
                    Self::lemma_keys_without(before, i as int);
                }
                Some(entry.value)
            },
            None => {
                proof {
                    assert(self@ =~= old(self)@.remove(key@));
                    Self::lemma_keys_unchanged(before, key@);
                }
                None
            },
        }
    }

    proof fn lemma_keys_unchanged(entries: Seq<Entry<V>>, key: Seq<char>)
        requires
            forall|j: int| 0 <= j < entries.len() ==> (#[trigger] entries[j]).key@ != key,
        ensures
            entries.map_values(|e: Entry<V>| e.key@).filter(differs_from(key))
                == entries.map_values(|e: Entry<V>| e.key@),
        decreases entries.len(),
    {
        let keys = entries.map_values(|e: Entry<V>| e.key@);
        let keep = differs_from(key);
        reveal(Seq::filter);
        if entries.len() > 0 {
            let rest = entries.drop_last();
            Self::lemma_keys_unchanged(rest, key);
            assert(keys.drop_last() =~= rest.map_values(|e: Entry<V>| e.key@));
            assert(entries[entries.len() - 1].key@ != key);
            assert(keys.filter(keep) =~= keys);
        } else {
            assert(keys.filter(keep) =~= keys);
        }
    }

    proof fn lemma_keys_without(entries: Seq<Entry<V>>, i: int)
        requires
            distinct_keys(entries),
            0 <= i < entries.len(),
        ensures
            entries.map_values(|e: Entry<V>| e.key@).filter(differs_from(entries[i].key@))
                == entries.remove(i).map_values(|e: Entry<V>| e.key@),
        decreases entries.len(),
    {
        let key = entries[i].key@;
        let keys = entries.map_values(|e: Entry<V>| e.key@);
        let keep = differs_from(key);
        let rest = entries.drop_last();
        let rest_keys = rest.map_values(|e: Entry<V>| e.key@);
        assert(keys.drop_last() =~= rest_keys);
        assert(keys =~= rest_keys.push(keys.last()));
        rest_keys.lemma_filter_push(keys.last(), keep);
        if i == entries.len() - 1 {
            assert forall|j: int| 0 <= j < rest.len() implies (#[trigger] rest[j]).key@ != key by {
                assert(entries[j].key@ != entries[i].key@);
            }
            Self::lemma_keys_unchanged(rest, key);
            assert(entries.remove(i) =~= rest);
        } else {
            assert(distinct_keys(rest)) by {
                assert forall|a: int, b: int|
                    0 <= a < rest.len() && 0 <= b < rest.len() && a != b implies (
                #[trigger] rest[a]).key@ != (#[trigger] rest[b]).key@ by {
                    assert(entries[a].key@ != entries[b].key@);
                }
            }
            Self::lemma_keys_without(rest, i);
            assert(entries[entries.len() - 1].key@ != entries[i].key@);
            assert(entries.remove(i) =~= rest.remove(i).push(entries.last()));
            assert(entries.remove(i).map_values(|e: Entry<V>| e.key@) =~= rest.remove(i).map_values(
                |e: Entry<V>| e.key@,
            ).push(keys.last()));
        }
    }

    /// A copy of the map: the same keys in the same order, each with a
    /// clone of its value.
    pub fn clone_map(&self) -> (copy: Self) where V: Clone
        ensures
            copy.keys() == self.keys(),
            copy.values().len() == self.values().len(),
            forall|i: int|
                0 <= i < self.values().len() ==> cloned(
                    #[trigger] self.values()[i],
                    copy.values()[i],
                ),
    {
        proof {
            use_type_invariant(self);
        }
        let mut entries: Vec<Entry<V>> = Vec::new();
        let mut i: usize = 0;
        while i < self.entries.len()
            invariant
                i <= self.entries.len(),
                entries.len() == i,
                forall|j: int| 0 <= j < i ==> (#[trigger] entries[j]).key@ == self.entries[j].key@,
                forall|j: int|
                    0 <= j < i ==> cloned(self.entries[j].value, (#[trigger] entries[j]).value),
            decreases self.entries.len() - i,
        {
            let entry = Entry {
                key: self.entries[i].key.clone(),
                value: self.entries[i].value.clone(),
            };
            entries.push(entry);
            i += 1;
        }
        proof {
            assert forall|a: int, b: int|
                0 <= a < entries.len() && 0 <= b < entries.len() && a != b implies (
            #[trigger] entries[a]).key@ != (#[trigger] entries[b]).key@ by {
                assert(self.entries[a].key@ != self.entries[b].key@);
            }
        }
        let copy = StringMap { entries };
        assert(copy.keys() =~= self.keys());
        assert forall|i: int| 0 <= i < self.values().len() implies cloned(
            #[trigger] self.values()[i],
            copy.values()[i],
        ) by {
            assert(cloned(self.entries[i].value, copy.entries[i].value));
        }
        copy
    }

    /// The key at place `i`.
    pub fn key_at(&self, i: usize) -> (key: &String)
        requires
            i < self.keys().len(),
        ensures
            key@ == self.keys()[i as int],
            self@.contains_key(key@),
            self@[key@] == self.values()[i as int],
    {
        proof {
            use_type_invariant(self);
            lemma_map_value(self.entries@, i as int);
        }
        &self.entries[i].key
    }

    /// The value at place `i`.
    pub fn value_at(&self, i: usize) -> (value: &V)
        requires
            i < self.keys().len(),
        ensures
            *value == self.values()[i as int],
            self@.contains_key(self.keys()[i as int]),
            *value == self@[self.keys()[i as int]],
    {
        proof {
            use_type_invariant(self);
            lemma_map_value(self.entries@, i as int);
        }
        &self.entries[i].value
    }

    /// Removes every entry.
    pub fn clear(&mut self)
        ensures
            final(self)@ == Map::<Seq<char>, V>::empty(),
            final(self).keys() == Seq::<Seq<char>>::empty(),
    {
        let mut entries: Vec<Entry<V>> = Vec::new();
        core::mem::swap(&mut self.entries, &mut entries);
        assert(self.keys() =~= Seq::<Seq<char>>::empty());
    }
}

/// Entries that agree in their keys and in the text of their values stand
/// for maps of the same text.
proof fn lemma_same_text(a: Seq<Entry<String>>, b: Seq<Entry<String>>)
    requires
        a.len() == b.len(),
        forall|i: int| 0 <= i < a.len() ==> (#[trigger] a[i]).key@ == b[i].key@,
        forall|i: int| 0 <= i < a.len() ==> (#[trigger] a[i]).value@ == b[i].value@,
    ensures
        crate::text::text_map(entries_map(a)) == crate::text::text_map(entries_map(b)),
    decreases a.len(),
{
    if a.len() > 0 {
        lemma_same_text(a.drop_last(), b.drop_last());
        assert(a.last().key@ == b.last().key@);
        assert(a.last().value@ == b.last().value@);
        let ra = entries_map(a.drop_last());
        let rb = entries_map(b.drop_last());
        assert(crate::text::text_map(ra).dom() =~= ra.dom());
        assert(crate::text::text_map(rb).dom() =~= rb.dom());
        assert(crate::text::text_map(ra.insert(a.last().key@, a.last().value))
            =~= crate::text::text_map(ra).insert(a.last().key@, a.last().value@));
        assert(crate::text::text_map(rb.insert(b.last().key@, b.last().value))
            =~= crate::text::text_map(rb).insert(b.last().key@, b.last().value@));
    } else {
        assert(crate::text::text_map(entries_map(a)) =~= crate::text::text_map(entries_map(b)));
    }
}

impl StringMap<String> {
    /// A copy of the map: the same keys in the same order, each with the
    /// same text.
    pub fn clone_text(&self) -> (copy: Self)
        ensures
            copy.keys() == self.keys(),
            crate::text::text_map(copy@) == crate::text::text_map(self@),
    {
        proof {
            use_type_invariant(self);
        }
        let mut entries: Vec<Entry<String>> = Vec::new();
        let mut i: usize = 0;
        while i < self.entries.len()
            invariant
                i <= self.entries.len(),
                entries.len() == i,
                forall|j: int| 0 <= j < i ==> (#[trigger] entries[j]).key@ == self.entries[j].key@,
                forall|j: int|
                    0 <= j < i ==> (#[trigger] entries[j]).value@ == self.entries[j].value@,
            decreases self.entries.len() - i,
        {
            let entry = Entry {
                key: self.entries[i].key.clone(),
                value: self.entries[i].value.clone(),
            };
            entries.push(entry);
            i += 1;
        }
        proof {
            assert forall|a: int, b: int|
                0 <= a < entries.len() && 0 <= b < entries.len() && a != b implies (
            #[trigger] entries[a]).key@ != (#[trigger] entries[b]).key@ by {
                assert(self.entries[a].key@ != self.entries[b].key@);
            }
            lemma_same_text(entries@, self.entries@);
        }
        let copy = StringMap { entries };
        assert(copy.keys() =~= self.keys());
        copy
    }
}

} // verus!
