//! A map from addresses to values, kept as a list in which no address
//! occurs twice.

use crate::state::Pubkey;
use vstd::prelude::*;

verus! {

/// One address with what lies at it.
struct Entry<V> {
    key: Pubkey,
    value: V,
}

/// The map that a list of entries stands for. Of two entries with the same
/// address the later one counts.
spec fn entries_map<V: View>(entries: Seq<Entry<V>>) -> Map<Seq<u8>, V::V>
    decreases entries.len(),
{
    if entries.len() == 0 {
        Map::empty()
    } else {
        entries_map(entries.drop_last()).insert(entries.last().key@, entries.last().value@)
    }
}

/// Whether no address occurs twice in a list of entries.
spec fn distinct_keys<V>(entries: Seq<Entry<V>>) -> bool {
    forall|i: int, j: int|
        0 <= i < j < entries.len() ==> (#[trigger] entries[i]).key@ != (#[trigger] entries[j]).key@
}

/// The map holds exactly the addresses of the list.
proof fn lemma_entries_map_keys<V: View>(entries: Seq<Entry<V>>, key: Seq<u8>)
    ensures
        entries_map(entries).contains_key(key) <==> exists|i: int|
            0 <= i < entries.len() && (#[trigger] entries[i]).key@ == key,
    decreases entries.len(),
{
    if entries.len() > 0 {
        let front = entries.drop_last();
        lemma_entries_map_keys(front, key);
        if entries_map(entries).contains_key(key) {
            if entries.last().key@ == key {
                assert(entries[entries.len() - 1].key@ == key);
            } else {
                let i = choose|i: int| 0 <= i < front.len() && (#[trigger] front[i]).key@ == key;
                assert(entries[i].key@ == key);
            }
        }
        if exists|i: int| 0 <= i < entries.len() && (#[trigger] entries[i]).key@ == key {
            let i = choose|i: int| 0 <= i < entries.len() && (#[trigger] entries[i]).key@ == key;
            if i < entries.len() - 1 {
                assert(front[i].key@ == key);
            }
        }
    }
}

/// Where no address occurs twice, the map gives each address the value of
/// its entry.
proof fn lemma_entries_map_value<V: View>(entries: Seq<Entry<V>>, i: int)
    requires
        distinct_keys(entries),
        0 <= i < entries.len(),
    ensures
        entries_map(entries).contains_key(entries[i].key@),
        entries_map(entries)[entries[i].key@] == entries[i].value@,
    decreases entries.len(),
{
    let front = entries.drop_last();
    if i < entries.len() - 1 {
        assert(distinct_keys(front)) by {
            assert forall|a: int, b: int| 0 <= a < b < front.len() implies (#[trigger] front[a]).key@
                != (#[trigger] front[b]).key@ by {
                assert(entries[a].key@ != entries[b].key@);
            }
        }
        lemma_entries_map_value(front, i);
        assert(front[i] == entries[i]);
        assert(entries[i].key@ != entries[entries.len() - 1].key@);
    }
}

/// Replacing the value of one entry is an insertion at its address.
proof fn lemma_entries_map_update<V: View>(entries: Seq<Entry<V>>, i: int, entry: Entry<V>)
    requires
        distinct_keys(entries),
        0 <= i < entries.len(),
        entry.key@ == entries[i].key@,
    ensures
        distinct_keys(entries.update(i, entry)),
        entries_map(entries.update(i, entry)) == entries_map(entries).insert(
            entry.key@,
            entry.value@,
        ),
    decreases entries.len(),
{
    let after = entries.update(i, entry);
    assert(distinct_keys(after)) by {
        assert forall|a: int, b: int| 0 <= a < b < after.len() implies (#[trigger] after[a]).key@
            != (#[trigger] after[b]).key@ by {
            assert(entries[a].key@ != entries[b].key@);
        }
    }
    let front = entries.drop_last();
    if i == entries.len() - 1 {
        assert(after.drop_last() =~= front);
        assert(entries_map(after) =~= entries_map(entries).insert(entry.key@, entry.value@));
    } else {
        assert(distinct_keys(front)) by {
            assert forall|a: int, b: int| 0 <= a < b < front.len() implies (#[trigger] front[a]).key@
                != (#[trigger] front[b]).key@ by {
                assert(entries[a].key@ != entries[b].key@);
            }
        }
        lemma_entries_map_update(front, i, entry);
        assert(after.drop_last() =~= front.update(i, entry));
        assert(after.last() == entries.last());
        assert(entries[i].key@ != entries[entries.len() - 1].key@);
        assert(entries_map(after) =~= entries_map(entries).insert(entry.key@, entry.value@));
    }
}

/// A map from addresses to values.
pub struct AddressMap<V> {
    entries: Vec<Entry<V>>,
}

impl<V: View> View for AddressMap<V> {
    type V = Map<Seq<u8>, V::V>;

    closed spec fn view(&self) -> Map<Seq<u8>, V::V> {
        entries_map(self.entries@)
    }
}

impl<V: View> AddressMap<V> {
    /// Whether the map is well formed: no address occurs twice in its list.
    pub closed spec fn wf(&self) -> bool {
        distinct_keys(self.entries@)
    }

    /// The map that holds nothing.
    pub fn new() -> (map: AddressMap<V>)
        ensures
            map.wf(),
            map@ == Map::<Seq<u8>, V::V>::empty(),
    {
        AddressMap { entries: Vec::new() }
    }

    /// Where the entry of `key` stands in the list, if it has one.
    fn position(&self, key: &Pubkey) -> (at: Option<usize>)
        ensures
            match at {
                Some(i) => i < self.entries@.len() && self.entries@[i as int].key@ == key@,
                None => !self@.contains_key(key@),
            },
    {
        let mut i: usize = 0;
        while i < self.entries.len()
            invariant
                i <= self.entries@.len(),
                forall|j: int| 0 <= j < i ==> (#[trigger] self.entries@[j]).key@ != key@,
            decreases self.entries@.len() - i,
        {
            if self.entries[i].key == *key {
                return Some(i);
            }
            i += 1;
        }
        proof {
            lemma_entries_map_keys(self.entries@, key@);
        }
        None
    }

    /// Whether anything lies at `key`.
    pub fn contains(&self, key: &Pubkey) -> (held: bool)
        requires
            self.wf(),
        ensures
            held == self@.contains_key(key@),
    {
        match self.position(key) {
            Some(i) => {
                proof {
                    lemma_entries_map_keys(self.entries@, key@);
                }
                true
            },
            None => false,
        }
    }

    /// What lies at `key`, if anything does.
    pub fn get(&self, key: &Pubkey) -> (found: Option<&V>)
        requires
            self.wf(),
        ensures
            match found {
                Some(value) => self@.contains_key(key@) && self@[key@] == value@,
                None => !self@.contains_key(key@),
            },
    {
        match self.position(key) {
            Some(i) => {
                proof {
                    lemma_entries_map_value(self.entries@, i as int);
                }
                Some(&self.entries[i].value)
            },
            None => None,
        }
    }

    /// Puts `value` at `key`, in place of what lay there.
    pub fn insert(&mut self, key: Pubkey, value: V)
        requires
            old(self).wf(),
        ensures
            final(self).wf(),
            final(self)@ == old(self)@.insert(key@, value@),
    {
        match self.position(&key) {
            Some(i) => {
                proof {
                    lemma_entries_map_update(self.entries@, i as int, Entry { key, value });
                }
                self.entries[i] = Entry { key, value };
            },
            None => {
                proof {
                    lemma_entries_map_keys(self.entries@, key@);
                    let after = self.entries@.push(Entry { key, value });
                    assert(after.drop_last() =~= self.entries@);
                    assert(distinct_keys(after)) by {
                        assert forall|a: int, b: int| 0 <= a < b < after.len() implies (
                        #[trigger] after[a]).key@ != (#[trigger] after[b]).key@ by {
                            if b < after.len() - 1 {
                                assert(self.entries@[a].key@ != self.entries@[b].key@);
                            } else {
                                assert(self.entries@[a].key@ != key@);
                            }
                        }
                    }
                }
                self.entries.push(Entry { key, value });
            },
        }
    }
}

} // verus!
