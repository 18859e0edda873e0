//! Latest-only values of frequently requested registers: one value per
//! register id, replaced on every poll.

use vstd::prelude::*;
use crate::text::{chars_equal, chars_of};

verus! {

/// The latest value of one register; the scaled reading is kept as the bit
/// pattern of its IEEE-754 double value.
#[derive(Debug, Clone, Copy, PartialEq, Eq, Structural)]
pub struct LatestValue {
    /// Unix timestamp in seconds when the value was read.
    pub ts: u64,
    /// The scaled real-world value, as double bits.
    pub value_bits: u64,
}

/// The map that a list of entries with distinct ids describes.
pub open spec fn entries_map(entries: Seq<(String, LatestValue)>) -> Map<Seq<char>, LatestValue>
    decreases entries.len(),
{
    if entries.len() == 0 {
        Map::empty()
    } else {
        entries_map(entries.drop_last()).insert(entries.last().0@, entries.last().1)
    }
}

pub open spec fn distinct_ids(entries: Seq<(String, LatestValue)>) -> bool {
    forall|i: int, j: int| 0 <= i < j < entries.len() ==> entries[i].0@ != entries[j].0@
}

/// In-memory cache of latest-only values, keyed by register id. The entries
/// are a vector of distinct ids: Verus gives a `HashMap` keyed by `String`
/// no specification it can prove lookups with, so the map is its view.
pub struct LatestCache {
    entries: Vec<(String, LatestValue)>,
}

impl View for LatestCache {
    type V = Map<Seq<char>, LatestValue>;

    closed spec fn view(&self) -> Map<Seq<char>, LatestValue> {
        entries_map(self.entries@)
    }
}

proof fn lemma_entries_map(entries: Seq<(String, LatestValue)>)
    requires
        distinct_ids(entries),
    ensures
        forall|i: int|
            0 <= i < entries.len() ==> #[trigger] entries_map(entries).contains_key(entries[i].0@)
                && entries_map(entries)[entries[i].0@] == entries[i].1,
        forall|k: Seq<char>|
            #[trigger] entries_map(entries).contains_key(k) ==> exists|i: int|
                0 <= i < entries.len() && entries[i].0@ == k,
    decreases entries.len(),
{
    if entries.len() > 0 {
        let d = entries.drop_last();
        assert(distinct_ids(d));
        lemma_entries_map(d);
        assert forall|k: Seq<char>| #[trigger] entries_map(entries).contains_key(k) implies exists|i: int|
            0 <= i < entries.len() && entries[i].0@ == k by {
            if k != entries.last().0@ {
                assert(entries_map(d).contains_key(k));
                let i = choose|i: int| 0 <= i < d.len() && d[i].0@ == k;
                assert(entries[i] == d[i]);
            } else {
                assert(entries[entries.len() - 1].0@ == k);
            }
        }
        assert forall|i: int| 0 <= i < entries.len() implies #[trigger] entries_map(
            entries,
        ).contains_key(entries[i].0@) && entries_map(entries)[entries[i].0@] == entries[i].1 by {
            if i < d.len() {
                assert(entries[i] == d[i]);
                assert(entries[i].0@ != entries[entries.len() - 1].0@);
                assert(entries_map(d).contains_key(d[i].0@));
            }
        }
    }
}

proof fn lemma_entries_map_update(entries: Seq<(String, LatestValue)>, i: int, e: (String, LatestValue))
    requires
        distinct_ids(entries),
        0 <= i < entries.len(),
        e.0@ == entries[i].0@,
    ensures
        distinct_ids(entries.update(i, e)),
        entries_map(entries.update(i, e)) == entries_map(entries).insert(e.0@, e.1),
    decreases entries.len(),
{
    let u = entries.update(i, e);
    assert(distinct_ids(u)) by {
        assert forall|a: int, b: int| 0 <= a < b < u.len() implies u[a].0@ != u[b].0@ by {
            assert(entries[a].0@ != entries[b].0@);
        }
    }
    if i == entries.len() - 1 {
        assert(u.drop_last() =~= entries.drop_last());
        lemma_entries_map(entries.drop_last());
        assert(!entries_map(entries.drop_last()).contains_key(e.0@)) by {
            if entries_map(entries.drop_last()).contains_key(e.0@) {
                let j = choose|j: int| 0 <= j < entries.drop_last().len() && entries.drop_last()[j].0@
                    == e.0@;
                assert(entries[j].0@ == entries[i].0@);
            }
        }
        assert(entries_map(u) =~= entries_map(entries).insert(e.0@, e.1));
    } else {
        let d = entries.drop_last();
        assert(distinct_ids(d));
        lemma_entries_map_update(d, i, e);
        assert(u.drop_last() =~= d.update(i, e));
        assert(u.last() == entries.last());
        assert(entries.last().0@ != e.0@);
        assert(entries_map(u) =~= entries_map(entries).insert(e.0@, e.1));
    }
}

impl LatestCache {
    #[verifier::type_invariant]
    spec fn ids_distinct(&self) -> bool {
        distinct_ids(self.entries@)
    }

    /// Creates an empty cache.
    pub fn new() -> (cache: Self)
        ensures
            cache@ == Map::<Seq<char>, LatestValue>::empty(),
    {
        LatestCache { entries: Vec::new() }
    }

    /// Index of the entry for `id`, if there is one.
    fn find(&self, id: &str) -> (r: Option<usize>)
        ensures
            match r {
                Some(i) => i < self.entries@.len() && self.entries@[i as int].0@ == id@,
                None => forall|i: int| 0 <= i < self.entries@.len() ==> self.entries@[i].0@ != id@,
            },
    {
        let mut i: usize = 0;
        while i < self.entries.len()
            invariant
                i <= self.entries@.len(),
                forall|j: int| 0 <= j < i ==> self.entries@[j].0@ != id@,
            decreases self.entries@.len() - i,
        {
            let name = chars_of(self.entries[i].0.as_str());
            if chars_equal(name.as_slice(), id) {
                return Some(i);
            }
            i = i + 1;
        }
        None
    }

    /// Inserts or replaces the latest value of a register.
    pub fn insert(&mut self, id: &str, value_bits: u64, ts: u64)
        ensures
            final(self)@ == old(self)@.insert(id@, LatestValue { ts, value_bits }),
    {
        proof {
            use_type_invariant(&*self);
        }
        let value = LatestValue { ts, value_bits };
        let name = String::from_str(id);
        let found = self.find(id);
        let mut entries: Vec<(String, LatestValue)> = Vec::new();
        std::mem::swap(&mut entries, &mut self.entries);
        match found {
            Some(i) => {
                proof {
                    lemma_entries_map_update(entries@, i as int, (name, value));
                }
                entries.set(i, (name, value));
            },
            None => {
                let ghost before = entries@;
                entries.push((name, value));
                assert(entries@.drop_last() == before);
                assert(distinct_ids(entries@));
            },
        }
        self.entries = entries;
    }

    /// The latest value of a register, if one was stored.
    pub fn get(&self, id: &str) -> (r: Option<LatestValue>)
        ensures
            self@.contains_key(id@) ==> r == Some(self@[id@]),
            !self@.contains_key(id@) ==> r is None,
    {
        proof {
            use_type_invariant(self);
            lemma_entries_map(self.entries@);
        }
        match self.find(id) {
            Some(i) => Some(self.entries[i].1),
            None => {
                assert(!self@.contains_key(id@));
                None
            },
        }
    }
}

/// What a read gives back of a write: after storing a value for an id, that
/// id reads back the stored value, and every other id reads as before.
pub proof fn lemma_get_after_insert(
    before: Map<Seq<char>, LatestValue>,
    id: Seq<char>,
    value: LatestValue,
    other: Seq<char>,
)
    requires
        other != id,
    ensures
        before.insert(id, value).contains_key(id) && before.insert(id, value)[id] == value,
        before.insert(id, value).contains_key(other) == before.contains_key(other),
        before.contains_key(other) ==> before.insert(id, value)[other] == before[other],
{
}

} // verus!
