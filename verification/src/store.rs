//! A map from string keys to entries, kept as a list in which no key occurs
//! twice. Both tiers of the cache are such maps: the persisted document and
//! the in-memory tier.
//!
//! The model of the map is a `Map` from the key's characters to the entry;
//! every operation is stated over that model. The order of the list means
//! nothing.

use vstd::prelude::*;

verus! {

/// Whether an expiration instant lies in the past: it is set, and `now` is
/// beyond it. An entry without one never expires.
pub open spec fn is_expired(expires_at: Option<u64>, now: u64) -> bool {
    expires_at matches Some(at) && at < now
}

/// Whether an expiration instant is absent or lies in the future.
pub open spec fn is_active(expires_at: Option<u64>, now: u64) -> bool {
    match expires_at {
        Some(at) => at > now,
        None => true,
    }
}

/// Tests whether an expiration instant lies in the past.
#[verifier::when_used_as_spec(is_expired)]
pub fn expired(expires_at: Option<u64>, now: u64) -> (r: bool)
    ensures
        r == is_expired(expires_at, now),
{
    match expires_at {
        Some(at) => at < now,
        None => false,
    }
}

/// Tests whether an expiration instant is absent or lies in the future.
#[verifier::when_used_as_spec(is_active)]
pub fn active(expires_at: Option<u64>, now: u64) -> (r: bool)
    ensures
        r == is_active(expires_at, now),
{
    match expires_at {
        Some(at) => at > now,
        None => true,
    }
}

/// An entry that may carry an expiration instant, in seconds since the epoch.
pub trait Expiring {
    /// The expiration instant of the entry, if it has one.
    spec fn expiry(&self) -> Option<u64>;

    /// Reads the expiration instant of the entry.
    fn expires_at(&self) -> (r: Option<u64>)
        ensures
            r == self.expiry(),
    ;
}

/// Whether no key occurs twice in a list of entries.
pub open spec fn keys_distinct<V>(entries: Seq<(String, V)>) -> bool {
    forall|i: int, j: int|
        0 <= i < j < entries.len() ==> (#[trigger] entries[i]).0@ != (#[trigger] entries[j]).0@
}

/// Whether a key occurs in a list of entries.
pub open spec fn holds_key<V>(entries: Seq<(String, V)>, key: Seq<char>) -> bool {
    exists|i: int| 0 <= i < entries.len() && (#[trigger] entries[i]).0@ == key
}

/// A place at which a key occurs in a list of entries.
pub open spec fn position<V>(entries: Seq<(String, V)>, key: Seq<char>) -> int {
    choose|i: int| 0 <= i < entries.len() && (#[trigger] entries[i]).0@ == key
}

/// The map that a list of entries stands for: each key that occurs, with
/// the entry that stands beside it.
pub open spec fn entries_map<V>(entries: Seq<(String, V)>) -> Map<Seq<char>, V> {
    Map::new(
        |key: Seq<char>| holds_key(entries, key),
        |key: Seq<char>| entries[position(entries, key)].1,
    )
}

/// The entries of a map that have not expired at `now`.
pub open spec fn without_expired<V: Expiring>(map: Map<Seq<char>, V>, now: u64) -> Map<
    Seq<char>,
    V,
> {
    Map::new(
        |key: Seq<char>| map.contains_key(key) && !is_expired(map[key].expiry(), now),
        |key: Seq<char>| map[key],
    )
}

/// The keys of a map whose entries have no expiration or expire after `now`.
pub open spec fn active_keys<V: Expiring>(map: Map<Seq<char>, V>, now: u64) -> Set<Seq<char>> {
    Set::new(|key: Seq<char>| map.contains_key(key) && is_active(map[key].expiry(), now))
}

/// In a list without repeated keys, the map holds each entry under its key,
/// and every key of the map occurs in the list.
pub proof fn lemma_entries_map<V>(entries: Seq<(String, V)>)
    requires
        keys_distinct(entries),
    ensures
        forall|i: int|
            0 <= i < entries.len() ==> entries_map(entries).contains_key(
                (#[trigger] entries[i]).0@,
            ) && entries_map(entries)[entries[i].0@] == entries[i].1,
        forall|key: Seq<char>| #[trigger]
            entries_map(entries).contains_key(key) ==> 0 <= position(entries, key) < entries.len()
                && entries[position(entries, key)].0@ == key,
{
    assert forall|i: int| 0 <= i < entries.len() implies entries_map(entries).contains_key(
        (#[trigger] entries[i]).0@,
    ) && entries_map(entries)[entries[i].0@] == entries[i].1 by {
        let key = entries[i].0@;
        assert(holds_key(entries, key));
        let p = position(entries, key);
        assert(entries[p].0@ == key);
        assert(p == i);
    }
}

/// Appending an entry under a key that does not occur yet inserts it.
pub proof fn lemma_push<V>(entries: Seq<(String, V)>, key: String, value: V)
    requires
        keys_distinct(entries),
        !holds_key(entries, key@),
    ensures
        keys_distinct(entries.push((key, value))),
        entries_map(entries.push((key, value))) == entries_map(entries).insert(key@, value),
{
    let after = entries.push((key, value));
    assert forall|i: int, j: int| 0 <= i < j < after.len() implies (#[trigger] after[i]).0@ != (
    #[trigger] after[j]).0@ by {
        if j == after.len() - 1 {
            assert(after[i] == entries[i]);
        } else {
            assert(after[i] == entries[i]);
            assert(after[j] == entries[j]);
        }
    }
    lemma_entries_map(entries);
    lemma_entries_map(after);
    let m1 = entries_map(after);
    let m2 = entries_map(entries).insert(key@, value);
    assert forall|k: Seq<char>| m1.contains_key(k) <==> m2.contains_key(k) by {
        if m1.contains_key(k) {
            let p = position(after, k);
            if p < entries.len() {
                assert(entries[p].0@ == k);
            }
        }
        if m2.contains_key(k) {
            if k == key@ {
                assert(after[after.len() - 1].0@ == k);
            } else {
                let p = position(entries, k);
                assert(after[p].0@ == k);
            }
        }
    }
    assert forall|k: Seq<char>| m1.contains_key(k) implies m1[k] == m2[k] by {
        let p = position(after, k);
        assert(m1[after[p].0@] == after[p].1);
        if p < entries.len() {
            assert(after[p] == entries[p]);
            assert(entries_map(entries)[entries[p].0@] == entries[p].1);
        }
    }
    assert(m1 =~= m2);
}

/// Replacing the entry that stands beside a key overwrites it in the map.
pub proof fn lemma_update<V>(entries: Seq<(String, V)>, i: int, key: String, value: V)
    requires
        keys_distinct(entries),
        0 <= i < entries.len(),
        entries[i].0@ == key@,
    ensures
        keys_distinct(entries.update(i, (key, value))),
        entries_map(entries.update(i, (key, value))) == entries_map(entries).insert(key@, value),
{
    let after = entries.update(i, (key, value));
    assert forall|a: int, b: int| 0 <= a < b < after.len() implies (#[trigger] after[a]).0@ != (
    #[trigger] after[b]).0@ by {
        assert(after[a].0@ == entries[a].0@);
        assert(after[b].0@ == entries[b].0@);
    }
    lemma_entries_map(entries);
    lemma_entries_map(after);
    let m1 = entries_map(after);
    let m2 = entries_map(entries).insert(key@, value);
    assert forall|k: Seq<char>| m1.contains_key(k) <==> m2.contains_key(k) by {
        if m1.contains_key(k) {
            let p = position(after, k);
            assert(entries[p].0@ == k);
        }
        if m2.contains_key(k) {
            if k == key@ {
                assert(after[i].0@ == k);
            } else {
                let p = position(entries, k);
                assert(after[p].0@ == k);
            }
        }
    }
    assert forall|k: Seq<char>| m1.contains_key(k) implies m1[k] == m2[k] by {
        let p = position(after, k);
        assert(m1[after[p].0@] == after[p].1);
        if p != i {
            assert(after[p] == entries[p]);
            assert(entries_map(entries)[entries[p].0@] == entries[p].1);
        }
    }
    assert(m1 =~= m2);
}

/// Taking an entry out of the list removes its key from the map.
pub proof fn lemma_remove<V>(entries: Seq<(String, V)>, i: int)
    requires
        keys_distinct(entries),
        0 <= i < entries.len(),
    ensures
        keys_distinct(entries.remove(i)),
        entries_map(entries.remove(i)) == entries_map(entries).remove(entries[i].0@),
{
    let after = entries.remove(i);
    let key = entries[i].0@;
    assert forall|a: int| 0 <= a < after.len() implies #[trigger] after[a] == entries[if a < i {
        a
    } else {
        a + 1
    }] by {}
    assert forall|a: int, b: int| 0 <= a < b < after.len() implies (#[trigger] after[a]).0@ != (
    #[trigger] after[b]).0@ by {
        let first_place = if a < i { a } else { a + 1 };
        let second_place = if b < i { b } else { b + 1 };
        assert(after[a] == entries[first_place]);
        assert(after[b] == entries[second_place]);
    }
    lemma_entries_map(entries);
    lemma_entries_map(after);
    let m1 = entries_map(after);
    let m2 = entries_map(entries).remove(key);
    assert forall|k: Seq<char>| m1.contains_key(k) <==> m2.contains_key(k) by {
        if m1.contains_key(k) {
            let p = position(after, k);
            let from_place = if p < i { p } else { p + 1 };
            assert(after[p] == entries[from_place]);
            assert(entries[from_place].0@ == k);
        }
        if m2.contains_key(k) {
            let p = position(entries, k);
            assert(p != i);
            let q = if p < i { p } else { p - 1 };
            assert(after[q] == entries[p]);
            assert(after[q].0@ == k);
        }
    }
    assert forall|k: Seq<char>| m1.contains_key(k) implies m1[k] == m2[k] by {
        let p = position(after, k);
        let from_place = if p < i { p } else { p + 1 };
        assert(after[p] == entries[from_place]);
        assert(m1[after[p].0@] == after[p].1);
        assert(entries_map(entries)[entries[from_place].0@] == entries[from_place].1);
    }
    assert(m1 =~= m2);
}

/// A list without repeated keys stands for a finite map with as many keys
/// as the list has entries.
pub proof fn lemma_len<V>(entries: Seq<(String, V)>)
    requires
        keys_distinct(entries),
    ensures
        entries_map(entries).dom().finite(),
        entries_map(entries).len() == entries.len(),
    decreases entries.len(),
{
    if entries.len() == 0 {
        assert(entries_map(entries) =~= Map::<Seq<char>, V>::empty());
    } else {
        let front = entries.drop_last();
        let last = entries.last();
        assert forall|i: int, j: int| 0 <= i < j < front.len() implies (#[trigger] front[i]).0@ != (
        #[trigger] front[j]).0@ by {
            assert(front[i] == entries[i]);
            assert(front[j] == entries[j]);
        }
        lemma_len(front);
        assert(!holds_key(front, last.0@)) by {
            if holds_key(front, last.0@) {
                let p = position(front, last.0@);
                assert(front[p] == entries[p]);
                assert(entries[p].0@ != entries[entries.len() - 1].0@);
            }
        }
        lemma_push(front, last.0, last.1);
        assert(front.push((last.0, last.1)) =~= entries);
        assert(!entries_map(front).dom().contains(last.0@));
    }
}

/// Any stretch of a list without repeated keys has no repeated keys.
pub proof fn lemma_subrange_distinct<V>(entries: Seq<(String, V)>, from: int, to: int)
    requires
        keys_distinct(entries),
        0 <= from <= to <= entries.len(),
    ensures
        keys_distinct(entries.subrange(from, to)),
{
    let part = entries.subrange(from, to);
    assert forall|i: int, j: int| 0 <= i < j < part.len() implies (#[trigger] part[i]).0@ != (
    #[trigger] part[j]).0@ by {
        assert(part[i] == entries[from + i]);
        assert(part[j] == entries[from + j]);
    }
}

/// The map of a list is the map of the list without one entry, with that
/// entry put back.
pub proof fn lemma_split<V>(entries: Seq<(String, V)>, i: int)
    requires
        keys_distinct(entries),
        0 <= i < entries.len(),
    ensures
        keys_distinct(entries.remove(i)),
        !entries_map(entries.remove(i)).contains_key(entries[i].0@),
        entries_map(entries) == entries_map(entries.remove(i)).insert(
            entries[i].0@,
            entries[i].1,
        ),
{
    lemma_remove(entries, i);
    lemma_entries_map(entries);
}

/// Dropping the expired entries of a map with one more entry: the entry
/// stays exactly if it has not expired.
pub proof fn lemma_without_expired_insert<V: Expiring>(
    map: Map<Seq<char>, V>,
    key: Seq<char>,
    value: V,
    now: u64,
)
    requires
        !map.contains_key(key),
    ensures
        without_expired(map.insert(key, value), now) == if is_expired(value.expiry(), now) {
            without_expired(map, now)
        } else {
            without_expired(map, now).insert(key, value)
        },
{
}

/// The active keys of a map with one more entry: the key joins them exactly
/// if the entry is active.
pub proof fn lemma_active_keys_insert<V: Expiring>(
    map: Map<Seq<char>, V>,
    key: Seq<char>,
    value: V,
    now: u64,
)
    requires
        !map.contains_key(key),
    ensures
        !active_keys(map, now).contains(key),
        active_keys(map.insert(key, value), now) == if is_active(value.expiry(), now) {
            active_keys(map, now).insert(key)
        } else {
            active_keys(map, now)
        },
{
}

/// The map that a list of entries gives when they are inserted one after
/// another: of two entries under one key, the later one stays.
pub open spec fn collected<V>(entries: Seq<(String, V)>) -> Map<Seq<char>, V>
    decreases entries.len(),
{
    if entries.len() == 0 {
        Map::empty()
    } else {
        collected(entries.drop_last()).insert(entries.last().0@, entries.last().1)
    }
}

/// A map from string keys to entries.
pub struct EntryMap<V> {
    entries: Vec<(String, V)>,
}

impl<V> View for EntryMap<V> {
    type V = Map<Seq<char>, V>;

    closed spec fn view(&self) -> Map<Seq<char>, V> {
        entries_map(self.entries@)
    }
}

impl<V> EntryMap<V> {
    #[verifier::type_invariant]
    spec fn distinct(&self) -> bool {
        keys_distinct(self.entries@)
    }

    /// An empty map.
    pub fn new() -> (r: Self)
        ensures
            r@ == Map::<Seq<char>, V>::empty(),
    {
        let r = EntryMap { entries: Vec::new() };
        assert(r@ =~= Map::<Seq<char>, V>::empty());
        r
    }

    /// The number of keys.
    pub fn len(&self) -> (r: usize)
        ensures
            self@.dom().finite(),
            r == self@.len(),
    {
        proof {
            use_type_invariant(self);
            lemma_len(self.entries@);
        }
        self.entries.len()
    }

    /// Whether the map holds no key.
    pub fn is_empty(&self) -> (r: bool)
        ensures
            r == (self@ == Map::<Seq<char>, V>::empty()),
    {
        proof {
            use_type_invariant(self);
            lemma_len(self.entries@);
            if self.entries@.len() == 0 {
                assert(self@ =~= Map::<Seq<char>, V>::empty());
            }
        }
        self.entries.len() == 0
    }

    /// Moves the list out of the map, which is left empty until the list
    /// is put back.
    fn take_entries(&mut self) -> (entries: Vec<(String, V)>)
        ensures
            entries@ == old(self).entries@,
            keys_distinct(entries@),
            final(self).entries@ == Seq::<(String, V)>::empty(),
    {
        proof {
            use_type_invariant(&*self);
        }
        let mut entries: Vec<(String, V)> = Vec::new();
        core::mem::swap(&mut self.entries, &mut entries);
        entries
    }

    /// The place of a key in the list, if it occurs.
    fn find(&self, key: &String) -> (r: Option<usize>)
        ensures
            match r {
                Some(i) => i < self.entries@.len() && self.entries@[i as int].0@ == key@,
                None => !holds_key(self.entries@, key@),
            },
    {
        let mut i: usize = 0;
        while i < self.entries.len()
            invariant
                i <= self.entries@.len(),
                forall|j: int| 0 <= j < i ==> (#[trigger] self.entries@[j]).0@ != key@,
            decreases self.entries@.len() - i,
        {
            if self.entries[i].0 == *key {
                return Some(i);
            }
            i += 1;
        }
        None
    }

    /// Whether the map holds a key.
    pub fn contains_key(&self, key: &str) -> (r: bool)
        ensures
            r == self@.contains_key(key@),
    {
        proof {
            use_type_invariant(self);
            lemma_entries_map(self.entries@);
        }
        let owned = key.to_owned();
        self.find(&owned).is_some()
    }

    /// The entry under a key, if the map holds the key.
    pub fn get(&self, key: &str) -> (r: Option<&V>)
        ensures
            match r {
                Some(entry) => self@.contains_key(key@) && *entry == self@[key@],
                None => !self@.contains_key(key@),
            },
    {
        proof {
            use_type_invariant(self);
            lemma_entries_map(self.entries@);
        }
        let owned = key.to_owned();
        match self.find(&owned) {
            Some(i) => Some(&self.entries[i].1),
            None => None,
        }
    }

    /// Puts an entry under a key, in place of the entry that the key had.
    pub fn insert(&mut self, key: String, value: V)
        ensures
            final(self)@ == old(self)@.insert(key@, value),
    {
        proof {
            use_type_invariant(&*self);
        }
        let found = self.find(&key);
        let mut entries = self.take_entries();
        match found {
            Some(i) => {
                proof {
                    lemma_update(entries@, i as int, key, value);
                }
                entries.set(i, (key, value));
            },
            None => {
                proof {
                    lemma_push(entries@, key, value);
                }
                entries.push((key, value));
            },
        }
        self.entries = entries;
    }

    /// Takes a key out of the map and hands back the entry it had, if any.
    pub fn remove(&mut self, key: &str) -> (r: Option<V>)
        ensures
            final(self)@ == old(self)@.remove(key@),
            match r {
                Some(entry) => old(self)@.contains_key(key@) && entry == old(self)@[key@],
                None => !old(self)@.contains_key(key@),
            },
    {
        proof {
            use_type_invariant(&*self);
            lemma_entries_map(self.entries@);
        }
        let owned = key.to_owned();
        match self.find(&owned) {
            Some(i) => {
                let mut entries = self.take_entries();
                proof {
                    lemma_remove(entries@, i as int);
                }
                let entry = entries.remove(i);
                self.entries = entries;
                Some(entry.1)
            },
            None => {
                assert(self@ =~= self@.remove(key@));
                None
            },
        }
    }

    /// Takes every key out of the map.
    pub fn clear(&mut self)
        ensures
            final(self)@ == Map::<Seq<char>, V>::empty(),
    {
        self.entries = Vec::new();
        assert(self@ =~= Map::<Seq<char>, V>::empty());
    }

    /// The entries as a list, each key once.
    pub fn entries(&self) -> (r: &Vec<(String, V)>)
        ensures
            keys_distinct(r@),
            entries_map(r@) == self@,
    {
        proof {
            use_type_invariant(self);
        }
        &self.entries
    }

    /// Gives up the map for the list of its entries.
    pub fn into_entries(self) -> (r: Vec<(String, V)>)
        ensures
            keys_distinct(r@),
            entries_map(r@) == self@,
    {
        proof {
            use_type_invariant(&self);
        }
        self.entries
    }

    /// Builds the map from a list of entries. Where a key occurs more than
    /// once, its last entry stays.
    pub fn from_entries(entries: Vec<(String, V)>) -> (r: Self)
        ensures
            r@ == collected(entries@),
    {
        let mut map: EntryMap<V> = EntryMap::new();
        let ghost all = entries@;
        for entry in it: entries
            invariant
                it.seq() == all,
                map@ == collected(all.take(it.index() as int)),
        {
            proof {
                let done = all.take(it.index() as int);
                let next = all.take(it.index() + 1);
                assert(next.drop_last() =~= done);
                assert(next.last() == all[it.index() as int]);
            }
            map.insert(entry.0, entry.1);
        }
        assert(all.take(all.len() as int) =~= all);
        map
    }
}

impl<V: Expiring> EntryMap<V> {
    /// Takes out every entry whose expiration instant lies before `now`,
    /// and says how many there were.
    pub fn remove_expired(&mut self, now: u64) -> (removed: usize)
        ensures
            final(self)@ == without_expired(old(self)@, now),
            old(self)@.dom().finite(),
            final(self)@.dom().finite(),
            removed == old(self)@.len() - final(self)@.len(),
    {
        let mut entries = self.take_entries();
        let ghost orig = entries@;
        let mut removed: usize = 0;
        let mut i: usize = entries.len();
        assert(entries@.skip(i as int) =~= Seq::<(String, V)>::empty());
        while i > 0
            invariant
                i <= entries@.len(),
                i <= orig.len() <= usize::MAX,
                keys_distinct(orig),
                keys_distinct(entries@),
                entries@.subrange(0, i as int) == orig.subrange(0, i as int),
                entries_map(entries@.skip(i as int)) == without_expired(
                    entries_map(orig.skip(i as int)),
                    now,
                ),
                removed + entries@.len() == orig.len(),
            decreases i,
        {
            i -= 1;
            let ghost before = entries@;
            proof {
                assert(before[i as int] == before.subrange(0, i + 1)[i as int]);
                assert(before[i as int] == orig[i as int]);
                lemma_subrange_distinct(orig, i as int, orig.len() as int);
                lemma_split(orig.skip(i as int), 0);
                assert(orig.skip(i as int).remove(0) =~= orig.skip(i + 1));
                lemma_without_expired_insert(
                    entries_map(orig.skip(i + 1)),
                    orig[i as int].0@,
                    orig[i as int].1,
                    now,
                );
            }
            if expired(entries[i].1.expires_at(), now) {
                proof {
                    lemma_remove(before, i as int);
                }
                entries.remove(i);
                removed += 1;
                proof {
                    assert(entries@.skip(i as int) =~= before.skip(i + 1));
                }
            } else {
                proof {
                    lemma_subrange_distinct(before, i as int, before.len() as int);
                    lemma_split(before.skip(i as int), 0);
                    assert(before.skip(i as int).remove(0) =~= before.skip(i + 1));
                }
            }
        }
        proof {
            assert(entries@.skip(0) =~= entries@);
            assert(orig.skip(0) =~= orig);
            lemma_len(orig);
            lemma_len(entries@);
        }
        self.entries = entries;
        removed
    }

    /// The number of entries that have no expiration or expire after `now`.
    pub fn active_count(&self, now: u64) -> (count: usize)
        ensures
            active_keys(self@, now).finite(),
            count == active_keys(self@, now).len(),
    {
        proof {
            use_type_invariant(self);
        }
        let mut count: usize = 0;
        let mut i: usize = 0;
        assert(active_keys(entries_map(self.entries@.take(0)), now) =~= Set::<Seq<char>>::empty());
        while i < self.entries.len()
            invariant
                i <= self.entries@.len(),
                count <= i,
                keys_distinct(self.entries@),
                active_keys(entries_map(self.entries@.take(i as int)), now).finite(),
                count == active_keys(entries_map(self.entries@.take(i as int)), now).len(),
            decreases self.entries@.len() - i,
        {
            proof {
                let all = self.entries@;
                lemma_subrange_distinct(all, 0, i + 1);
                lemma_split(all.take(i + 1), i as int);
                assert(all.take(i + 1).remove(i as int) =~= all.take(i as int));
                assert(all.take(i + 1)[i as int] == all[i as int]);
                lemma_active_keys_insert(
                    entries_map(all.take(i as int)),
                    all[i as int].0@,
                    all[i as int].1,
                    now,
                );
            }
            if active(self.entries[i].1.expires_at(), now) {
                count += 1;
            }
            i += 1;
        }
        assert(self.entries@.take(i as int) =~= self.entries@);
        count
    }
}

} // verus!
