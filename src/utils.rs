//! The query-string parser of upgrade requests.
use vstd::prelude::*;

use crate::entries::{entries_map, find_last};

verus! {

/// The pieces of `s` between occurrences of `sep`, as `str::split` gives
/// them: one more piece than there are separators.
pub open spec fn split_spec(s: Seq<char>, sep: char) -> Seq<Seq<char>>
    decreases s.len(),
{
    if s.len() == 0 {
        seq![Seq::<char>::empty()]
    } else {
        let p = split_spec(s.drop_last(), sep);
        if s.last() == sep {
            p.push(Seq::<char>::empty())
        } else {
            p.update(p.len() - 1, p.last().push(s.last()))
        }
    }
}

/// The map that a list of `&`-separated segments gives: `key=value` maps
/// `key` to `value`, a bare `key` maps it to the empty text, a segment with
/// more than one `=` is dropped, and a later segment wins over an earlier
/// one with the same key.
pub open spec fn segments_map(segs: Seq<Seq<char>>) -> Map<Seq<char>, Seq<char>>
    decreases segs.len(),
{
    if segs.len() == 0 {
        Map::empty()
    } else {
        let m = segments_map(segs.drop_last());
        let kv = split_spec(segs.last(), '=');
        if kv.len() == 2 {
            m.insert(kv[0], kv[1])
        } else if kv.len() == 1 {
            m.insert(kv[0], Seq::<char>::empty())
        } else {
            m
        }
    }
}

/// The parameters of a query string; none where the request has no query.
pub open spec fn query_params(query: Option<Seq<char>>) -> Map<Seq<char>, Seq<char>> {
    match query {
        Some(q) => segments_map(split_spec(q, '&')),
        None => Map::empty(),
    }
}

/// Splits `s` at every `sep`.
pub fn split_on(s: &str, sep: char) -> (r: Vec<String>)
    ensures
        r@.len() == split_spec(s@, sep).len(),
        forall|j: int| 0 <= j < r@.len() ==> #[trigger] r@[j]@ == split_spec(s@, sep)[j],
{
    let n = s.unicode_len();
    let mut parts: Vec<String> = Vec::new();
    let mut start: usize = 0;
    let mut i: usize = 0;
    assert(s@.subrange(0, 0) =~= Seq::<char>::empty());
    while i < n
        invariant
            n == s@.len(),
            start <= i <= n,
            split_spec(s@.subrange(0, i as int), sep).len() == parts@.len() + 1,
            forall|j: int|
                0 <= j < parts@.len() ==> #[trigger] parts@[j]@ == split_spec(
                    s@.subrange(0, i as int),
                    sep,
                )[j],
            split_spec(s@.subrange(0, i as int), sep).last() == s@.subrange(start as int, i as int),
        decreases n - i,
    {
        let c = s.get_char(i);
        let ghost prev = s@.subrange(0, i as int);
        let ghost next = s@.subrange(0, i + 1);
        assert(next.drop_last() =~= prev);
        assert(next.last() == c);
        if c == sep {
            let piece = String::from_str(s.substring_char(start, i));
            parts.push(piece);
            start = i + 1;
            assert(s@.subrange(start as int, i + 1) =~= Seq::<char>::empty());
        } else {
            assert(s@.subrange(start as int, i + 1) =~= s@.subrange(start as int, i as int).push(c));
        }
        i = i + 1;
    }
    assert(s@.subrange(0, n as int) =~= s@);
    parts.push(String::from_str(s.substring_char(start, n)));
    parts
}

/// Parsed query parameters, held as entries in the order of the query.
pub struct QueryMap {
    entries: Vec<(String, String)>,
}

impl View for QueryMap {
    type V = Map<Seq<char>, Seq<char>>;

    closed spec fn view(&self) -> Map<Seq<char>, Seq<char>> {
        let m = entries_map(self.entries@);
        Map::new(|k: Seq<char>| m.contains_key(k), |k: Seq<char>| m[k]@)
    }
}

impl QueryMap {
    fn new() -> (r: QueryMap)
        ensures
            r@ == Map::<Seq<char>, Seq<char>>::empty(),
    {
        let r = QueryMap { entries: Vec::new() };
        assert(r@ =~= Map::<Seq<char>, Seq<char>>::empty());
        r
    }

    fn insert(&mut self, key: String, value: String)
        ensures
            final(self)@ == old(self)@.insert(key@, value@),
    {
        let ghost before = self.entries@;
        self.entries.push((key, value));
        assert(self.entries@.drop_last() =~= before);
        assert(self@ =~= old(self)@.insert(key@, value@));
    }

    /// The value of `key`, if the query has it.
    pub fn get(&self, key: &str) -> (r: Option<String>)
        ensures
            match r {
                Some(v) => self@.contains_key(key@) && self@[key@] == v@,
                None => !self@.contains_key(key@),
            },
    {
        match find_last(&self.entries, key) {
            Some(j) => Some(self.entries[j].1.clone()),
            None => None,
        }
    }
}

/// Parses a query string into its parameters (see `segments_map`).
pub fn query_to_hash_map(query: Option<&str>) -> (r: QueryMap)
    ensures
        r@ == query_params(
            match query {
                Some(q) => Some(q@),
                None => None,
            },
        ),
{
    let mut r = QueryMap::new();
    let q = match query {
        Some(q) => q,
        None => {
            return r;
        },
    };
    let segs = split_on(q, '&');
    let ghost all = split_spec(q@, '&');
    let mut i: usize = 0;
    while i < segs.len()
        invariant
            segs@.len() == all.len(),
            forall|j: int| 0 <= j < segs@.len() ==> #[trigger] segs@[j]@ == all[j],
            i <= segs@.len(),
            r@ == segments_map(all.subrange(0, i as int)),
        decreases segs@.len() - i,
    {
        let kv = split_on(segs[i].as_str(), '=');
        assert(all.subrange(0, i + 1).drop_last() =~= all.subrange(0, i as int));
        if kv.len() == 2 {
            r.insert(kv[0].clone(), kv[1].clone());
        } else if kv.len() == 1 {
            r.insert(kv[0].clone(), String::new());
        }
        i = i + 1;
    }
    assert(all.subrange(0, segs@.len() as int) =~= all);
    r
}

} // verus!
