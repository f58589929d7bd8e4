//! The mapping from shortcut keys to model identifiers: a list of entries
//! in which no key occurs twice, read as a map.

use vstd::prelude::*;
use vstd::string::*;

verus! {

/// One binding of a shortcut key to a model identifier.
#[derive(Clone, Debug)]
pub struct ShortcutEntry {
    pub key: String,
    pub model: String,
}

/// Whether no key occurs twice in `entries`.
pub open spec fn keys_distinct(entries: Seq<ShortcutEntry>) -> bool {
    forall|i: int, j: int|
        0 <= i < j < entries.len() ==> (#[trigger] entries[i]).key@ != (#[trigger] entries[j]).key@
}

/// Whether `entries` binds `key`.
pub open spec fn has_key(entries: Seq<ShortcutEntry>, key: Seq<char>) -> bool {
    exists|i: int| 0 <= i < entries.len() && (#[trigger] entries[i]).key@ == key
}

/// An index at which `entries` binds `key`.
pub open spec fn index_of(entries: Seq<ShortcutEntry>, key: Seq<char>) -> int {
    choose|i: int| 0 <= i < entries.len() && (#[trigger] entries[i]).key@ == key
}

/// The map that `entries` stands for.
pub open spec fn entries_map(entries: Seq<ShortcutEntry>) -> Map<Seq<char>, Seq<char>> {
    Map::new(|k: Seq<char>| has_key(entries, k), |k: Seq<char>| entries[index_of(entries, k)].model@)
}

/// In a list without repeated keys, the map holds each entry's model under
/// that entry's key.
pub proof fn lemma_entry_in_map(entries: Seq<ShortcutEntry>, i: int)
    requires
        keys_distinct(entries),
        0 <= i < entries.len(),
    ensures
        has_key(entries, entries[i].key@),
        index_of(entries, entries[i].key@) == i,
        entries_map(entries).contains_key(entries[i].key@),
        entries_map(entries)[entries[i].key@] == entries[i].model@,
{
    let j = index_of(entries, entries[i].key@);
    assert(entries[j].key@ == entries[i].key@);
    if j < i {
        assert(entries[j].key@ != entries[i].key@);
    } else if i < j {
        assert(entries[i].key@ != entries[j].key@);
    }
}

/// A map from shortcut keys to model identifiers. A key is bound at most
/// once; binding it again replaces the model.
#[derive(Clone, Debug)]
pub struct ShortcutMap {
    entries: Vec<ShortcutEntry>,
}

impl View for ShortcutMap {
    type V = Map<Seq<char>, Seq<char>>;

    closed spec fn view(&self) -> Map<Seq<char>, Seq<char>> {
        entries_map(self.entries@)
    }
}

impl ShortcutMap {
    /// The invariant of the type: no key occurs twice.
    pub closed spec fn well_formed(&self) -> bool {
        keys_distinct(self.entries@)
    }

    /// The map without bindings.
    pub fn new() -> (r: ShortcutMap)
        ensures
            r.well_formed(),
            r@ == Map::<Seq<char>, Seq<char>>::empty(),
    {
        let r = ShortcutMap { entries: Vec::new() };
        proof {
            assert(r@ =~= Map::<Seq<char>, Seq<char>>::empty());
        }
        r
    }

    fn position(&self, key: &String) -> (r: Option<usize>)
        ensures
            match r {
                Some(i) => i < self.entries.len() && self.entries[i as int].key@ == key@,
                None => !has_key(self.entries@, key@),
            },
    {
        let mut i: usize = 0;
        while i < self.entries.len()
            invariant
                i <= self.entries.len(),
                forall|j: int| 0 <= j < i ==> (#[trigger] self.entries[j]).key@ != key@,
            decreases self.entries.len() - i,
        {
            if self.entries[i].key == *key {
                return Some(i);
            }
            i += 1;
        }
        None
    }

    /// Binds `key` to `model`. Returns the model that `key` was bound to
    /// before, if it was bound.
    pub fn insert(&mut self, key: String, model: String) -> (r: Option<String>)
        requires
            old(self).well_formed(),
        ensures
            final(self).well_formed(),
            final(self)@ == old(self)@.insert(key@, model@),
            match r {
                Some(before) => old(self)@.contains_key(key@) && old(self)@[key@] == before@,
                None => !old(self)@.contains_key(key@),
            },
    {
        let ghost before = self.entries@;
        let ghost k = key@;
        let ghost m = model@;
        match self.position(&key) {
            Some(i) => {
                let replaced = self.entries[i].model.clone();
                self.entries.set(i, ShortcutEntry { key, model });
                proof {
                    let after = self.entries@;
                    lemma_entry_in_map(before, i as int);
                    assert forall|a: int, b: int| 0 <= a < b < after.len() implies (
                    #[trigger] after[a]).key@ != (#[trigger] after[b]).key@ by {
                        assert(after[a].key@ == before[a].key@);
                        assert(after[b].key@ == before[b].key@);
                    }
                    assert forall|q: Seq<char>| has_key(after, q) == has_key(before, q) by {
                        if has_key(before, q) {
                            let w = index_of(before, q);
                            assert(after[w].key@ == q);
                        }
                        if has_key(after, q) {
                            let w = index_of(after, q);
                            assert(before[w].key@ == q);
                        }
                    }
                    assert forall|q: Seq<char>| has_key(after, q) implies #[trigger] entries_map(
                        after,
                    )[q] == entries_map(before).insert(k, m)[q] by {
                        let w = index_of(after, q);
                        lemma_entry_in_map(after, w);
                        lemma_entry_in_map(before, w);
                    }
                    assert(entries_map(after) =~= entries_map(before).insert(k, m));
                }
                Some(replaced)
            },
            None => {
                self.entries.push(ShortcutEntry { key, model });
                proof {
                    let after = self.entries@;
                    let last = before.len() as int;
                    assert(after[last].key@ == k);
                    assert forall|a: int, b: int| 0 <= a < b < after.len() implies (
                    #[trigger] after[a]).key@ != (#[trigger] after[b]).key@ by {
                        assert(after[a] == before[a]);
                        if b < last {
                            assert(after[b] == before[b]);
                        }
                    }
                    assert forall|q: Seq<char>| has_key(after, q) == (has_key(before, q) || q
                        == k) by {
                        if has_key(before, q) {
                            let w = index_of(before, q);
                            assert(after[w].key@ == q);
                        }
                        if has_key(after, q) && q != k {
                            let w = index_of(after, q);
                            assert(before[w].key@ == q);
                        }
                    }
                    assert forall|q: Seq<char>| has_key(after, q) implies #[trigger] entries_map(
                        after,
                    )[q] == entries_map(before).insert(k, m)[q] by {
                        let w = index_of(after, q);
                        lemma_entry_in_map(after, w);
                        if w < last {
                            assert(after[w] == before[w]);
                            lemma_entry_in_map(before, w);
                        }
                    }
                    assert(entries_map(after) =~= entries_map(before).insert(k, m));
                }
                None
            },
        }
    }

    /// The model that `key` is bound to, if it is bound.
    pub fn get(&self, key: &str) -> (r: Option<String>)
        requires
            self.well_formed(),
        ensures
            match r {
                Some(model) => self@.contains_key(key@) && self@[key@] == model@,
                None => !self@.contains_key(key@),
            },
    {
        let wanted = String::from_str(key);
        match self.position(&wanted) {
            Some(i) => {
                proof {
                    lemma_entry_in_map(self.entries@, i as int);
                }
                Some(self.entries[i].model.clone())
            },
            None => None,
        }
    }

    /// The bindings, one entry for each key.
    pub fn entries(&self) -> (r: &Vec<ShortcutEntry>)
        requires
            self.well_formed(),
        ensures
            keys_distinct(r@),
            entries_map(r@) == self@,
    {
        &self.entries
    }
}

} // verus!
