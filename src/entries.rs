//! Lists of `(key, value)` entries read as maps keyed by text, where a later
//! entry shadows an earlier one with the same key.
use vstd::prelude::*;

verus! {

/// The map that a list of entries stands for.
pub open spec fn entries_map<V>(s: Seq<(String, V)>) -> Map<Seq<char>, V>
    decreases s.len(),
{
    if s.len() == 0 {
        Map::empty()
    } else {
        entries_map(s.drop_last()).insert(s.last().0@, s.last().1)
    }
}

/// A key that no entry has is absent from the map.
pub proof fn lemma_entries_map_absent<V>(s: Seq<(String, V)>, k: Seq<char>)
    requires
        forall|i: int| 0 <= i < s.len() ==> s[i].0@ != k,
    ensures
        !entries_map(s).contains_key(k),
    decreases s.len(),
{
    if s.len() > 0 {
        lemma_entries_map_absent(s.drop_last(), k);
    }
}

/// The last entry with a key gives the key's value.
pub proof fn lemma_entries_map_last<V>(s: Seq<(String, V)>, k: Seq<char>, j: int)
    requires
        0 <= j < s.len(),
        s[j].0@ == k,
        forall|i: int| j < i < s.len() ==> s[i].0@ != k,
    ensures
        entries_map(s).contains_key(k),
        entries_map(s)[k] == s[j].1,
    decreases s.len(),
{
    if j < s.len() - 1 {
        let t = s.drop_last();
        assert(t[j] == s[j]);
        assert forall|i: int| j < i < t.len() implies t[i].0@ != k by {
            assert(t[i] == s[i]);
        }
        lemma_entries_map_last(t, k, j);
    }
}

/// Every value of the map is the value of some entry with that key.
pub proof fn lemma_entries_map_value<V>(s: Seq<(String, V)>, k: Seq<char>)
    requires
        entries_map(s).contains_key(k),
    ensures
        exists|j: int| 0 <= j < s.len() && s[j].0@ == k && entries_map(s)[k] == s[j].1,
    decreases s.len(),
{
    let t = s.drop_last();
    if s.last().0@ == k {
        assert(s[s.len() - 1].0@ == k);
    } else {
        lemma_entries_map_value(t, k);
        let j = choose|j: int| 0 <= j < t.len() && t[j].0@ == k && entries_map(t)[k] == t[j].1;
        assert(s[j] == t[j]);
    }
}

/// The index of the last entry whose key is `key`, if any.
pub fn find_last<V>(entries: &Vec<(String, V)>, key: &str) -> (r: Option<usize>)
    ensures
        match r {
            Some(j) => {
                &&& j < entries@.len()
                &&& entries@[j as int].0@ == key@
                &&& entries_map(entries@).contains_key(key@)
                &&& entries_map(entries@)[key@] == entries@[j as int].1
            },
            None => !entries_map(entries@).contains_key(key@),
        },
{
    let wanted = String::from_str(key);
    let mut i: usize = entries.len();
    while i > 0
        invariant
            i <= entries@.len(),
            wanted@ == key@,
            forall|m: int| i <= m < entries@.len() ==> entries@[m].0@ != key@,
        decreases i,
    {
        i = i - 1;
        if entries[i].0 == wanted {
            proof {
                lemma_entries_map_last(entries@, key@, i as int);
            }
            return Some(i);
        }
    }
    proof {
        lemma_entries_map_absent(entries@, key@);
    }
    None
}

} // verus!
