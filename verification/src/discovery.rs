//! Discovery info: the string pairs an advertiser publishes, held in the
//! order they were first inserted, each key at most once.
use vstd::prelude::*;

verus! {

/// The model of a pair sequence: each pair by the text of its key and value.
pub open spec fn pairs_view(pairs: Seq<(String, String)>) -> Seq<(Seq<char>, Seq<char>)> {
    pairs.map_values(|p: (String, String)| (p.0@, p.1@))
}

/// No key occurs twice.
pub open spec fn distinct_keys(entries: Seq<(Seq<char>, Seq<char>)>) -> bool {
    forall|i: int, j: int|
        0 <= i < entries.len() && 0 <= j < entries.len() && i != j ==> entries[i].0
            != entries[j].0
}

/// The value stored under `key`, if any.
pub open spec fn lookup(entries: Seq<(Seq<char>, Seq<char>)>, key: Seq<char>) -> Option<Seq<char>> {
    if exists|i: int| 0 <= i < entries.len() && entries[i].0 == key {
        let i = choose|i: int| 0 <= i < entries.len() && entries[i].0 == key;
        Some(entries[i].1)
    } else {
        None
    }
}

/// The map the pairs stand for: each key to the value stored under it.
pub open spec fn members_map(pairs: Seq<(Seq<char>, Seq<char>)>) -> Map<Seq<char>, Seq<char>> {
    Map::new(|k: Seq<char>| lookup(pairs, k) is Some, |k: Seq<char>| lookup(pairs, k)->0)
}

/// A map from discovery-info keys to values.
pub struct DiscoveryInfo {
    entries: Vec<(String, String)>,
}

impl View for DiscoveryInfo {
    type V = Seq<(Seq<char>, Seq<char>)>;

    closed spec fn view(&self) -> Seq<(Seq<char>, Seq<char>)> {
        pairs_view(self.entries@)
    }
}

impl DiscoveryInfo {
    #[verifier::type_invariant]
    closed spec fn keys_are_distinct(self) -> bool {
        distinct_keys(pairs_view(self.entries@))
    }

    /// An empty map.
    pub fn new() -> (info: DiscoveryInfo)
        ensures
            info@ == Seq::<(Seq<char>, Seq<char>)>::empty(),
    {
        let info = DiscoveryInfo { entries: Vec::new() };
        assert(pairs_view(info.entries@) =~= Seq::<(Seq<char>, Seq<char>)>::empty());
        info
    }

    /// A map holding the pairs, in order; no key may occur twice.
    pub fn from_distinct_pairs(pairs: Vec<(String, String)>) -> (info: DiscoveryInfo)
        requires
            distinct_keys(pairs_view(pairs@)),
        ensures
            info@ == pairs_view(pairs@),
    {
        DiscoveryInfo { entries: pairs }
    }

    /// The number of entries.
    pub fn len(&self) -> (n: usize)
        ensures
            n == self@.len(),
    {
        self.entries.len()
    }

    /// The pairs, in insertion order.
    pub fn entries(&self) -> (pairs: &Vec<(String, String)>)
        ensures
            pairs_view(pairs@) == self@,
            distinct_keys(self@),
    {
        proof {
            use_type_invariant(self);
        }
        &self.entries
    }

    /// The position of `key`, if present.
    fn position(&self, key: &String) -> (at: Option<usize>)
        ensures
            match at {
                Some(i) => i < self@.len() && self@[i as int].0 == key@,
                None => forall|i: int| 0 <= i < self@.len() ==> self@[i].0 != key@,
            },
    {
        let mut i: usize = 0;
        while i < self.entries.len()
            invariant
                0 <= i <= self.entries@.len(),
                self@ == pairs_view(self.entries@),
                forall|j: int| 0 <= j < i ==> self@[j].0 != key@,
            decreases self.entries@.len() - i,
        {
            if self.entries[i].0 == *key {
                return Some(i);
            }
            i = i + 1;
        }
        None
    }

    /// Stores `value` under `key`. A present key keeps its place and gets the
    /// new value; the old value is returned. A new key goes last.
    pub fn insert(&mut self, key: String, value: String) -> (previous: Option<String>)
        ensures
            distinct_keys(final(self)@),
            match previous {
                Some(p) => exists|i: int|
                    0 <= i < old(self)@.len() && old(self)@[i].0 == key@ && p@ == old(self)@[i].1
                        && final(self)@ == old(self)@.update(i, (key@, value@)),
                None => lookup(old(self)@, key@) is None && final(self)@ == old(self)@.push(
                    (key@, value@),
                ),
            },
    {
        proof {
            use_type_invariant(&*self);
        }
        let ghost before = self@;
        let at = self.position(&key);
        let mut entries: Vec<(String, String)> = Vec::new();
        std::mem::swap(&mut entries, &mut self.entries);
        let ghost k = key@;
        let ghost v = value@;
        match at {
            Some(i) => {
                let previous = entries[i].1.clone();
                entries.set(i, (key, value));
                assert(pairs_view(entries@) =~= before.update(i as int, (k, v)));
                self.entries = entries;
                Some(previous)
            },
            None => {
                entries.push((key, value));
                assert(pairs_view(entries@) =~= before.push((k, v)));
                assert(lookup(before, k) is None);
                self.entries = entries;
                None
            },
        }
    }

    /// The value stored under `key`.
    pub fn get(&self, key: &String) -> (value: Option<&String>)
        ensures
            match value {
                Some(v) => lookup(self@, key@) == Some(v@),
                None => lookup(self@, key@) is None,
            },
    {
        proof {
            use_type_invariant(self);
        }
        match self.position(key) {
            Some(i) => Some(&self.entries[i].1),
            None => None,
        }
    }
}

/// Reads discovery info from the JSON text the bridge reports: an object
/// whose members are all strings; any other text gives `None`.
pub fn discovery_info_from_json(json: &str) -> (info: Option<DiscoveryInfo>)
    ensures
        match info {
            Some(i) => crate::json::json_string_members(json@) == Some(i@),
            None => crate::json::json_string_members(json@) is None,
        },
{
    match crate::json::parse_string_members(json) {
        Some(pairs) => Some(DiscoveryInfo::from_distinct_pairs(pairs)),
        None => None,
    }
}

/// Reading a key back after storing it under that key gives the stored
/// value, and other keys keep their values.
pub proof fn lemma_lookup_after_insert(
    before: Seq<(Seq<char>, Seq<char>)>,
    after: Seq<(Seq<char>, Seq<char>)>,
    key: Seq<char>,
    value: Seq<char>,
    other: Seq<char>,
)
    requires
        distinct_keys(before),
        distinct_keys(after),
        (exists|i: int|
            0 <= i < before.len() && before[i].0 == key && after == before.update(i, (key, value)))
            || (lookup(before, key) is None && after == before.push((key, value))),
        other != key,
    ensures
        lookup(after, key) == Some(value),
        lookup(after, other) == lookup(before, other),
{
    if exists|i: int|
        0 <= i < before.len() && before[i].0 == key && after == before.update(i, (key, value)) {
        let i = choose|i: int|
            0 <= i < before.len() && before[i].0 == key && after == before.update(i, (key, value));
        assert(after[i].0 == key);
        let j = choose|j: int| 0 <= j < after.len() && after[j].0 == key;
        assert(j == i);
        if exists|k: int| 0 <= k < before.len() && before[k].0 == other {
            let kb = choose|k: int| 0 <= k < before.len() && before[k].0 == other;
            assert(after[kb].0 == other);
            let ka = choose|k: int| 0 <= k < after.len() && after[k].0 == other;
            assert(ka == kb);
        } else {
            assert forall|k: int| 0 <= k < after.len() implies after[k].0 != other by {
                if k != i {
                    assert(after[k] == before[k]);
                }
            }
        }
    } else {
        let n = before.len() as int;
        assert(after[n].0 == key);
        let j = choose|j: int| 0 <= j < after.len() && after[j].0 == key;
        if j != n {
            assert(before[j].0 == key);
            assert(false);
        }
        if exists|k: int| 0 <= k < before.len() && before[k].0 == other {
            let kb = choose|k: int| 0 <= k < before.len() && before[k].0 == other;
            assert(after[kb].0 == other);
            let ka = choose|k: int| 0 <= k < after.len() && after[k].0 == other;
            assert(ka == kb);
        } else {
            assert forall|k: int| 0 <= k < after.len() implies after[k].0 != other by {
                if k != n {
                    assert(after[k] == before[k]);
                }
            }
        }
    }
}

} // verus!
