//! A map from a key to one or more strings that keeps the order in which
//! its entries were given. It backs the query string parameters, the path
//! parameters and the stage variables of a request.

use vstd::prelude::*;
use vstd::string::StringExecFns;
use crate::headers::text_view;
use crate::text::{join, joined, percent_encode, percent_encoded, texts};

verus! {

/// What a `StrMap` holds: its entries in order, each a key with its values.
pub type StrMapView = Seq<(Seq<char>, Seq<Seq<char>>)>;

/// An ordered map from a key to its values.
#[derive(Debug, Clone, PartialEq, Eq)]
pub struct StrMap {
    /// The entries, in the order in which they were given.
    pub entries: Vec<(String, Vec<String>)>,
}

/// The entries that a list of keys with one value each stands for.
pub open spec fn single_view(pairs: Seq<(String, String)>) -> StrMapView {
    Seq::new(pairs.len(), |i: int| (pairs[i].0@, seq![pairs[i].1@]))
}

/// The entries that a list of keys with their values stands for.
pub open spec fn multi_view(pairs: Seq<(String, Vec<String>)>) -> StrMapView {
    Seq::new(pairs.len(), |i: int| (pairs[i].0@, texts(pairs[i].1@)))
}

/// The values of the first entry under `key`.
pub open spec fn values_at(s: StrMapView, key: Seq<char>) -> Option<Seq<Seq<char>>>
    decreases s.len(),
{
    if s.len() == 0 {
        None
    } else if s[0].0 == key {
        Some(s[0].1)
    } else {
        values_at(s.drop_first(), key)
    }
}

/// The first value under `key`.
pub open spec fn first_at(s: StrMapView, key: Seq<char>) -> Option<Seq<char>> {
    match values_at(s, key) {
        Some(values) => if values.len() > 0 {
            Some(values[0])
        } else {
            None
        },
        None => None,
    }
}

/// No key occurs twice.
pub open spec fn keys_distinct(s: StrMapView) -> bool {
    forall|i: int, j: int| 0 <= i < j < s.len() ==> (#[trigger] s[i]).0 != (#[trigger] s[j]).0
}

/// The pairs `key=value` of one entry, one for each of its values, the key
/// and the value percent-encoded.
pub open spec fn entry_pairs(key: Seq<char>, values: Seq<Seq<char>>) -> Seq<Seq<char>> {
    Seq::new(values.len(), |i: int| percent_encoded(key) + seq!['='] + percent_encoded(values[i]))
}

/// The pairs `key=value` of a map: those of each entry, in order.
pub open spec fn query_pairs(s: StrMapView) -> Seq<Seq<char>>
    decreases s.len(),
{
    if s.len() == 0 {
        Seq::empty()
    } else {
        query_pairs(s.drop_last()) + entry_pairs(s.last().0, s.last().1)
    }
}

/// The query string of a map: its pairs `key=value` joined by `&`. A map
/// without a value has none.
pub open spec fn query_text(s: StrMapView) -> Option<Seq<char>> {
    if query_pairs(s).len() == 0 {
        None
    } else {
        Some(joined(query_pairs(s), "&"@))
    }
}

/// What an optional string slice holds.
pub open spec fn slice_view(text: Option<&str>) -> Option<Seq<char>> {
    match text {
        Some(t) => Some(t@),
        None => None,
    }
}

/// What an optional list of strings holds.
pub open spec fn list_view(list: Option<&Vec<String>>) -> Option<Seq<Seq<char>>> {
    match list {
        Some(l) => Some(texts(l@)),
        None => None,
    }
}

impl View for StrMap {
    type V = StrMapView;

    open spec fn view(&self) -> StrMapView {
        multi_view(self.entries@)
    }
}

impl StrMap {
    /// The map is well formed: it holds each key once.
    pub open spec fn wf(&self) -> bool {
        keys_distinct(self@)
    }

    /// A map without entries.
    pub fn new() -> (map: StrMap)
        ensures
            map@.len() == 0,
            map.wf(),
    {
        StrMap { entries: Vec::new() }
    }

    /// A map of keys with one value each, in the order of the list.
    pub fn from_single(pairs: Vec<(String, String)>) -> (map: StrMap)
        ensures
            map@ == single_view(pairs@),
    {
        let mut entries: Vec<(String, Vec<String>)> = Vec::new();
        let mut i: usize = 0;
        while i < pairs.len()
            invariant
                i <= pairs.len(),
                multi_view(entries@) == single_view(pairs@).take(i as int),
            decreases pairs.len() - i,
        {
            let key = pairs[i].0.clone();
            let value = pairs[i].1.clone();
            let mut values: Vec<String> = Vec::new();
            values.push(value);
            let ghost before = entries@;
            entries.push((key, values));
            proof {
                assert(texts(values@) == seq![pairs@[i as int].1@]);
                assert(multi_view(entries@).drop_last() == multi_view(before));
                assert(multi_view(entries@) == single_view(pairs@).take(i + 1));
            }
            i = i + 1;
        }
        assert(single_view(pairs@).take(pairs.len() as int) == single_view(pairs@));
        StrMap { entries }
    }

    /// A map of keys with their values, in the order of the list.
    pub fn from_multi(pairs: Vec<(String, Vec<String>)>) -> (map: StrMap)
        ensures
            map@ == multi_view(pairs@),
    {
        StrMap { entries: pairs }
    }

    /// Whether the map has no entry.
    pub fn is_empty(&self) -> (empty: bool)
        ensures
            empty == (self@.len() == 0),
    {
        self.entries.len() == 0
    }

    /// The number of entries.
    pub fn len(&self) -> (n: usize)
        ensures
            n == self@.len(),
    {
        self.entries.len()
    }

    /// All the values of the first entry under `key`.
    pub fn get_all(&self, key: &str) -> (values: Option<&Vec<String>>)
        ensures
            list_view(values) == values_at(self@, key@),
    {
        let wanted = String::from_str(key);
        let mut i: usize = 0;
        assert(self@.skip(0) == self@);
        while i < self.entries.len()
            invariant
                i <= self.entries.len(),
                wanted@ == key@,
                values_at(self@, key@) == values_at(self@.skip(i as int), key@),
            decreases self.entries.len() - i,
        {
            let ghost rest = self@.skip(i as int);
            proof {
                assert(rest[0] == self@[i as int]);
                assert(rest.drop_first() == self@.skip(i + 1));
            }
            if self.entries[i].0 == wanted {
                return Some(&self.entries[i].1);
            }
            i = i + 1;
        }
        None
    }

    /// The query string of the map: its pairs `key=value` joined by `&`.
    pub fn to_query(&self) -> (text: Option<String>)
        ensures
            text_view(text) == query_text(self@),
    {
        let mut parts: Vec<String> = Vec::new();
        let mut i: usize = 0;
        assert(self@.take(0) =~= Seq::<(Seq<char>, Seq<Seq<char>>)>::empty());
        while i < self.entries.len()
            invariant
                i <= self.entries.len(),
                texts(parts@) == query_pairs(self@.take(i as int)),
            decreases self.entries.len() - i,
        {
            let key = &self.entries[i].0;
            let values = &self.entries[i].1;
            let ghost before = texts(parts@);
            let ghost all = entry_pairs(key@, texts(values@));
            let mut j: usize = 0;
            assert(texts(parts@) =~= before + all.take(0));
            while j < values.len()
                invariant
                    j <= values.len(),
                    all == entry_pairs(key@, texts(values@)),
                    texts(parts@) == before + all.take(j as int),
                decreases values.len() - j,
            {
                let mut pair = percent_encode(key.as_str());
                let value = percent_encode(values[j].as_str());
                proof {
                    reveal_strlit("=");
                }
                pair.append("=");
                pair.append(value.as_str());
                let ghost old_parts = texts(parts@);
                parts.push(pair);
                proof {
                    assert(pair@ =~= percent_encoded(key@) + seq!['='] + percent_encoded(
                        values@[j as int]@,
                    ));
                    assert(texts(parts@) =~= old_parts.push(pair@));
                    assert(all.take(j + 1) =~= all.take(j as int).push(all[j as int]));
                    assert(texts(parts@) =~= before + all.take(j + 1));
                }
                j = j + 1;
            }
            proof {
                assert(all.take(values.len() as int) =~= all);
                assert(self@.take(i + 1).drop_last() =~= self@.take(i as int));
                assert(self@.take(i + 1).last() == (key@, texts(values@)));
            }
            i = i + 1;
        }
        assert(self@.take(self.entries.len() as int) =~= self@);
        if parts.len() == 0 {
            None
        } else {
            Some(join(&parts, "&"))
        }
    }

    /// The first value under `key`.
    pub fn get(&self, key: &str) -> (value: Option<&str>)
        ensures
            slice_view(value) == first_at(self@, key@),
    {
        match self.get_all(key) {
            Some(values) => if values.len() > 0 {
                Some(values[0].as_str())
            } else {
                None
            },
            None => None,
        }
    }
}

} // verus!
