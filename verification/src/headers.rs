//! The header multimap of the `http` crate, with the contracts that the
//! rest of the library relies on.
//!
//! A header map is read here as the sequence of `(name, value)` pairs that
//! iterating over it yields. Names are lower case; the values stored under
//! one name stand next to each other, in the order in which they were added.

use vstd::prelude::*;
use vstd::string::StringExecFns;
use http::header::{HeaderMap, HeaderName, HeaderValue};

verus! {

/// The pairs of a header map: each name with one of its values.
pub type HeaderSeq = Seq<(Seq<char>, Seq<u8>)>;

/// The header value type of the `http` crate. Values of it only live inside
/// a `HeaderMap`; the library reads them as bytes.
#[verifier::external_type_specification]
#[verifier::external_body]
pub struct ExHeaderValue(HeaderValue);

/// The header multimap of the `http` crate.
#[verifier::external_type_specification]
#[verifier::external_body]
#[verifier::reject_recursive_types(T)]
pub struct ExHeaderMap<T>(HeaderMap<T>);

/// The `(name, value)` pairs of a header map, in the order in which
/// `HeaderMap::iter` yields them.
pub uninterp spec fn header_entries(h: HeaderMap<HeaderValue>) -> HeaderSeq;

/// The number of values below which a header map takes one more for sure.
pub const MAX_HEADERS: usize = 6554;

/// A character that a stored header name may hold: a lower-case letter, a
/// digit, or one of the punctuation marks of an HTTP token.
pub open spec fn is_name_char(c: char) -> bool {
    let n = c as u32;
    ||| 97 <= n <= 122
    ||| 48 <= n <= 57
    ||| 33 <= n <= 39
    ||| n == 42
    ||| n == 43
    ||| n == 45
    ||| n == 46
    ||| 94 <= n <= 96
    ||| n == 124
    ||| n == 126
}

/// A header name in the form in which a header map stores it.
pub open spec fn is_header_name(name: Seq<char>) -> bool {
    &&& 0 < name.len() < 65536
    &&& forall|i: int| 0 <= i < name.len() ==> is_name_char(#[trigger] name[i])
}

/// A byte that a header value may hold: anything but a control character,
/// the tab excepted.
pub open spec fn is_value_byte(b: u8) -> bool {
    (b >= 32 && b != 127) || b == 9
}

/// Bytes that make a header value.
pub open spec fn is_header_value(value: Seq<u8>) -> bool {
    forall|i: int| 0 <= i < value.len() ==> is_value_byte(#[trigger] value[i])
}

/// A byte of visible ASCII, or a tab.
pub open spec fn is_visible_byte(b: u8) -> bool {
    (32 <= b < 127) || b == 9
}

/// The text of a header value: its bytes read as characters, where every
/// byte is visible ASCII or a tab.
pub open spec fn visible_text(value: Seq<u8>) -> Option<Seq<char>> {
    if forall|i: int| 0 <= i < value.len() ==> is_visible_byte(#[trigger] value[i]) {
        Some(Seq::new(value.len(), |i: int| value[i] as char))
    } else {
        None
    }
}

/// What an optional string holds.
pub open spec fn text_view(text: Option<String>) -> Option<Seq<char>> {
    match text {
        Some(t) => Some(t@),
        None => None,
    }
}

/// The values stored under `name`, in order.
pub open spec fn values_of(s: HeaderSeq, name: Seq<char>) -> Seq<Seq<u8>>
    decreases s.len(),
{
    if s.len() == 0 {
        Seq::empty()
    } else if s.last().0 == name {
        values_of(s.drop_last(), name).push(s.last().1)
    } else {
        values_of(s.drop_last(), name)
    }
}

/// The text of the first value stored under `name`, if there is such a
/// value and it is visible ASCII.
pub open spec fn first_text(s: HeaderSeq, name: Seq<char>) -> Option<Seq<char>> {
    if values_of(s, name).len() > 0 {
        visible_text(values_of(s, name)[0])
    } else {
        None
    }
}

/// The position right behind the last pair named `name`; 0 where no pair
/// has that name.
pub open spec fn group_end(s: HeaderSeq, name: Seq<char>) -> int
    decreases s.len(),
{
    if s.len() == 0 {
        0
    } else if s.last().0 == name {
        s.len() as int
    } else {
        group_end(s.drop_last(), name)
    }
}

/// The pairs after one more value was added under `name`: behind the
/// values that the name already has, or at the end for a new name.
pub open spec fn with_value(s: HeaderSeq, name: Seq<char>, value: Seq<u8>) -> HeaderSeq {
    let k = group_end(s, name);
    if k == 0 {
        s.push((name, value))
    } else {
        s.insert(k, (name, value))
    }
}

/// The pairs after each pair of `extra` was added to `s` in turn.
pub open spec fn with_values(s: HeaderSeq, extra: HeaderSeq) -> HeaderSeq
    decreases extra.len(),
{
    if extra.len() == 0 {
        s
    } else {
        with_value(with_values(s, extra.drop_last()), extra.last().0, extra.last().1)
    }
}

/// The values of one name stand next to each other: between two pairs of
/// one name there is no pair of another. This holds of every header map.
pub open spec fn is_grouped(s: HeaderSeq) -> bool {
    forall|i: int, j: int, k: int|
        #![trigger s[i], s[j], s[k]]
        0 <= i < j < k < s.len() && s[i].0 == s[k].0 ==> s[j].0 == s[i].0
}

/// The positions that `keep` marks, in order.
pub open spec fn kept_indices(keep: Seq<bool>) -> Seq<int>
    decreases keep.len(),
{
    if keep.len() == 0 {
        Seq::empty()
    } else if keep.last() {
        kept_indices(keep.drop_last()).push(keep.len() - 1)
    } else {
        kept_indices(keep.drop_last())
    }
}

/// The pairs that `keep` marks, in their order.
pub open spec fn selected(s: HeaderSeq, keep: Seq<bool>) -> HeaderSeq {
    let at = kept_indices(keep);
    Seq::new(at.len(), |p: int| s[at[p]])
}

/// The marks of the pairs that have not the name.
pub open spec fn others(s: HeaderSeq, name: Seq<char>) -> Seq<bool> {
    Seq::new(s.len(), |i: int| s[i].0 != name)
}

/// The marks of the pairs behind which the name changes.
pub open spec fn lasts(s: HeaderSeq) -> Seq<bool> {
    Seq::new(s.len(), |i: int| i + 1 == s.len() || s[i + 1].0 != s[i].0)
}

/// The pairs without those of one name, in their order.
pub open spec fn without_name(s: HeaderSeq, name: Seq<char>) -> HeaderSeq {
    selected(s, others(s, name))
}

/// The last pair of each name, in the order of the names.
pub open spec fn last_values(s: HeaderSeq) -> HeaderSeq {
    selected(s, lasts(s))
}

/// The headers with one value for each name, the last: what a payload
/// shows where it can show one value only. Headers of more than
/// `MAX_HEADERS` values are left as they are.
pub open spec fn single_valued(s: HeaderSeq) -> HeaderSeq {
    if s.len() <= MAX_HEADERS {
        last_values(s)
    } else {
        s
    }
}

/// `t` holds what `s` holds but for the values under `name`: under every
/// other name the same values in the same order.
pub open spec fn is_without(t: HeaderSeq, s: HeaderSeq, name: Seq<char>) -> bool {
    &&& values_of(t, name).len() == 0
    &&& forall|other: Seq<char>|
        other != name ==> #[trigger] values_of(t, other) == values_of(s, other)
}

/// `t` is `s` after the values under `name` have left: the other pairs in
/// their order. Of headers of more than `MAX_HEADERS` values only the
/// values under each name are known to stay in their order.
pub open spec fn is_removal(t: HeaderSeq, s: HeaderSeq, name: Seq<char>) -> bool {
    if s.len() <= MAX_HEADERS {
        t == without_name(s, name)
    } else {
        is_without(t, s, name)
    }
}

/// What a list of owned pairs holds.
pub open spec fn pairs_view(pairs: Seq<(String, Vec<u8>)>) -> HeaderSeq {
    Seq::new(pairs.len(), |i: int| (pairs[i].0@, pairs[i].1@))
}

/// `HeaderMap::new`: a map without entries.
#[verifier::external_body]
pub(crate) fn empty_headers() -> (h: HeaderMap<HeaderValue>)
    ensures
        header_entries(h) == Seq::<(Seq<char>, Seq<u8>)>::empty(),
{
    HeaderMap::new()
}

/// `Clone::clone` of a `HeaderMap`: the copy holds the same pairs in the
/// same order.
#[verifier::external_body]
pub(crate) fn clone_headers(h: &HeaderMap<HeaderValue>) -> (copy: HeaderMap<HeaderValue>)
    ensures
        header_entries(copy) == header_entries(*h),
{
    h.clone()
}

/// `HeaderMap::get` followed by `HeaderValue::to_str`: the first value
/// stored under `name`, as text. `to_str` refuses a value that holds a byte
/// other than visible ASCII or a tab.
#[verifier::external_body]
pub(crate) fn lookup_text(h: &HeaderMap<HeaderValue>, name: &str) -> (text: Option<String>)
    requires
        is_header_name(name@),
    ensures
        text_view(text) == first_text(header_entries(*h), name@),
{
    h.get(name).and_then(|v| v.to_str().ok()).map(|t| t.to_string())
}

/// `HeaderMap::get_all` with `HeaderValue::to_str` on each value: every
/// value stored under `name`, in order, as text where it is visible ASCII.
#[verifier::external_body]
pub(crate) fn lookup_texts(h: &HeaderMap<HeaderValue>, name: &str) -> (texts: Vec<Option<String>>)
    requires
        is_header_name(name@),
    ensures
        texts@.len() == values_of(header_entries(*h), name@).len(),
        forall|i: int|
            0 <= i < texts@.len() ==> text_view(#[trigger] texts@[i]) == visible_text(
                values_of(header_entries(*h), name@)[i],
            ),
{
    h.get_all(name).iter().map(|v| v.to_str().ok().map(|t| t.to_string())).collect()
}

/// `HeaderMap::len`: the number of values in the map.
#[verifier::external_body]
pub(crate) fn header_count(h: &HeaderMap<HeaderValue>) -> (n: usize)
    ensures
        n == header_entries(*h).len(),
{
    h.len()
}

/// `HeaderMap::try_append` of a value made by `HeaderValue::from_bytes`
/// under a name made by `HeaderName::from_bytes`. The value joins those
/// that the name already has; a new name goes to the end. Nothing is added
/// where the bytes make no header value or the map refuses to grow, and
/// the map then stays as it was. A map refuses to grow only when its table
/// of 32768 slots is asked to double, which takes at least a fifth of that
/// many names: with fewer than `MAX_HEADERS` values it accepts one more.
#[verifier::external_body]
pub(crate) fn append_value(h: &mut HeaderMap<HeaderValue>, name: &str, value: &[u8]) -> (added: bool)
    requires
        is_header_name(name@),
    ensures
        added ==> is_header_value(value@),
        added ==> header_entries(*final(h)) == with_value(header_entries(*old(h)), name@, value@),
        !added ==> header_entries(*final(h)) == header_entries(*old(h)),
        is_header_value(value@) && header_entries(*old(h)).len() < MAX_HEADERS ==> added,
{
    match (HeaderName::from_bytes(name.as_bytes()), HeaderValue::from_bytes(value)) {
        (Ok(n), Ok(v)) => h.try_append(n, v).is_ok(),
        _ => false,
    }
}

/// `HeaderMap::remove`: every value stored under `name` leaves the map;
/// the values under each other name stay, in their order.
#[verifier::external_body]
pub(crate) fn remove_name(h: &mut HeaderMap<HeaderValue>, name: &str)
    requires
        is_header_name(name@),
    ensures
        values_of(header_entries(*final(h)), name@).len() == 0,
        forall|other: Seq<char>|
            other != name@ ==> #[trigger] values_of(header_entries(*final(h)), other) == values_of(
                header_entries(*old(h)),
                other,
            ),
{
    h.remove(name);
}

/// `HeaderMap::iter`: the pairs of the map in order, each name as a string
/// and each value as bytes. What a map stores is a header name and a
/// header value, and the iterator yields all the values of one name before
/// it goes on to the next.
#[verifier::external_body]
pub(crate) fn entry_list(h: &HeaderMap<HeaderValue>) -> (pairs: Vec<(String, Vec<u8>)>)
    ensures
        pairs_view(pairs@) == header_entries(*h),
        is_grouped(pairs_view(pairs@)),
        forall|i: int|
            0 <= i < pairs@.len() ==> is_header_name((#[trigger] pairs@[i]).0@) && is_header_value(
                pairs@[i].1@,
            ),
{
    h.iter().map(|(n, v)| (n.as_str().to_string(), v.as_bytes().to_vec())).collect()
}

/// Makes a header map of the pairs that `keep` marks, in their order.
pub(crate) fn select_headers(pairs: &Vec<(String, Vec<u8>)>, keep: &Vec<bool>) -> (out: HeaderMap<
    HeaderValue,
>)
    requires
        keep.len() == pairs.len(),
        pairs.len() <= MAX_HEADERS,
        is_grouped(pairs_view(pairs@)),
        forall|j: int|
            0 <= j < pairs@.len() ==> is_header_name((#[trigger] pairs@[j]).0@) && is_header_value(
                pairs@[j].1@,
            ),
    ensures
        header_entries(out) == selected(pairs_view(pairs@), keep@),
{
    let mut out = empty_headers();
    let ghost s = pairs_view(pairs@);
    let mut i: usize = 0;
    assert(keep@.take(0) =~= Seq::<bool>::empty());
    assert(header_entries(out) =~= selected(s, keep@.take(0)));
    while i < pairs.len()
        invariant
            i <= pairs.len(),
            keep.len() == pairs.len(),
            pairs.len() <= MAX_HEADERS,
            s == pairs_view(pairs@),
            is_grouped(s),
            forall|j: int|
                0 <= j < pairs@.len() ==> is_header_name((#[trigger] pairs@[j]).0@)
                    && is_header_value(pairs@[j].1@),
            header_entries(out) == selected(s, keep@.take(i as int)),
            header_entries(out).len() <= i,
        decreases pairs.len() - i,
    {
        let ghost cur = header_entries(out);
        proof {
            assert(keep@.take(i + 1).drop_last() =~= keep@.take(i as int));
            assert(keep@.take(i + 1).last() == keep@[i as int]);
        }
        if keep[i] {
            proof {
                assert(s[i as int] == (pairs@[i as int].0@, pairs@[i as int].1@));
                let next = selected(s, keep@.take(i + 1));
                assert(next =~= cur.push(s[i as int]));
                lemma_selected_grouped(s, keep@.take(i + 1));
                lemma_push_grouped(cur, s[i as int].0, s[i as int].1);
            }
            let added = append_value(&mut out, pairs[i].0.as_str(), pairs[i].1.as_slice());
            assert(added);
        } else {
            assert(selected(s, keep@.take(i + 1)) =~= cur);
        }
        i = i + 1;
    }
    assert(keep@.take(pairs.len() as int) =~= keep@);
    out
}

/// Marks the pairs that have not the name.
fn mark_others(pairs: &Vec<(String, Vec<u8>)>, name: &str) -> (keep: Vec<bool>)
    ensures
        keep@ == others(pairs_view(pairs@), name@),
{
    let wanted = String::from_str(name);
    let mut keep: Vec<bool> = Vec::new();
    let mut i: usize = 0;
    while i < pairs.len()
        invariant
            i <= pairs.len(),
            wanted@ == name@,
            keep@.len() == i,
            forall|j: int| 0 <= j < i ==> keep@[j] == (pairs_view(pairs@)[j].0 != name@),
        decreases pairs.len() - i,
    {
        keep.push(!(pairs[i].0 == wanted));
        i = i + 1;
    }
    assert(keep@ =~= others(pairs_view(pairs@), name@));
    keep
}

/// Marks the last pair of each run of one name.
fn mark_last(pairs: &Vec<(String, Vec<u8>)>) -> (keep: Vec<bool>)
    ensures
        keep@ == lasts(pairs_view(pairs@)),
{
    let mut keep: Vec<bool> = Vec::new();
    let mut i: usize = 0;
    while i < pairs.len()
        invariant
            i <= pairs.len(),
            keep@.len() == i,
            forall|j: int|
                0 <= j < i ==> keep@[j] == (j + 1 == pairs@.len() || pairs_view(pairs@)[j + 1].0
                    != pairs_view(pairs@)[j].0),
        decreases pairs.len() - i,
    {
        let last = i + 1 == pairs.len() || !(pairs[i + 1].0 == pairs[i].0);
        keep.push(last);
        i = i + 1;
    }
    assert(keep@ =~= lasts(pairs_view(pairs@)));
    keep
}

/// The headers with one value for each name: the last that the name has.
/// The names keep their order.
pub fn last_value_headers(h: &HeaderMap<HeaderValue>) -> (out: HeaderMap<HeaderValue>)
    ensures
        header_entries(out) == single_valued(header_entries(*h)),
{
    if header_count(h) > MAX_HEADERS {
        return clone_headers(h);
    }
    let pairs = entry_list(h);
    let keep = mark_last(&pairs);
    select_headers(&pairs, &keep)
}

/// The headers without the values under one name. The other headers keep
/// their order.
pub fn headers_without(h: HeaderMap<HeaderValue>, name: &str) -> (out: HeaderMap<HeaderValue>)
    requires
        is_header_name(name@),
    ensures
        is_removal(header_entries(out), header_entries(h), name@),
{
    if header_count(&h) > MAX_HEADERS {
        let mut out = h;
        remove_name(&mut out, name);
        return out;
    }
    let pairs = entry_list(&h);
    let keep = mark_others(&pairs, name);
    select_headers(&pairs, &keep)
}

/// The marked positions lie in the list and go up.
pub proof fn lemma_kept_indices(keep: Seq<bool>)
    ensures
        kept_indices(keep).len() <= keep.len(),
        forall|p: int| 0 <= p < kept_indices(keep).len() ==> keep[#[trigger] kept_indices(keep)[p]],
        forall|p: int|
            0 <= p < kept_indices(keep).len() ==> 0 <= #[trigger] kept_indices(keep)[p]
                < keep.len(),
        forall|p: int, q: int|
            0 <= p < q < kept_indices(keep).len() ==> #[trigger] kept_indices(keep)[p]
                < #[trigger] kept_indices(keep)[q],
    decreases keep.len(),
{
    if keep.len() > 0 {
        lemma_kept_indices(keep.drop_last());
    }
}

/// What is picked out of grouped pairs is grouped.
pub proof fn lemma_selected_grouped(s: HeaderSeq, keep: Seq<bool>)
    requires
        is_grouped(s),
        keep.len() <= s.len(),
    ensures
        is_grouped(selected(s, keep)),
{
    lemma_kept_indices(keep);
    let at = kept_indices(keep);
    let t = selected(s, keep);
    assert forall|i: int, j: int, k: int|
        #![trigger t[i], t[j], t[k]]
        0 <= i < j < k < t.len() && t[i].0 == t[k].0 implies t[j].0 == t[i].0 by {
        assert(at[i] < at[j]);
        assert(at[j] < at[k]);
        assert(at[k] < s.len());
        assert(0 <= at[i]);
        assert(s[at[i]].0 == s[at[k]].0);
        let (a, b, c) = (at[i], at[j], at[k]);
        assert(s[a].0 == s[c].0 ==> s[b].0 == s[a].0);
    }
}

/// No pair has the name: then no group of the name has an end.
pub proof fn lemma_absent(s: HeaderSeq, name: Seq<char>)
    requires
        forall|j: int| 0 <= j < s.len() ==> (#[trigger] s[j]).0 != name,
    ensures
        group_end(s, name) == 0,
    decreases s.len(),
{
    if s.len() > 0 {
        assert(s.last().0 != name);
        assert forall|j: int| 0 <= j < s.drop_last().len() implies (#[trigger] s.drop_last()[j]).0
            != name by {
            assert(s.drop_last()[j] == s[j]);
        }
        lemma_absent(s.drop_last(), name);
    }
}

/// A value whose pair keeps the pairs grouped when it stands at the end is
/// added at the end.
pub proof fn lemma_push_grouped(w: HeaderSeq, name: Seq<char>, value: Seq<u8>)
    requires
        is_grouped(w.push((name, value))),
    ensures
        with_value(w, name, value) == w.push((name, value)),
{
    let e = (name, value);
    let full = w.push(e);
    if w.len() == 0 {
    } else if w.last().0 == name {
        assert(w.insert(w.len() as int, e) =~= full);
    } else {
        let front = w.drop_last();
        assert forall|j: int| 0 <= j < front.len() implies (#[trigger] front[j]).0 != name by {
            let last = w.len() - 1;
            assert(full[j] == w[j]);
            assert(full[last] == w[last]);
            assert(full[last + 1] == e);
            assert(full[j].0 == full[last + 1].0 ==> full[last].0 == full[j].0);
        }
        lemma_absent(front, name);
    }
}

/// No pair has the name: then there is no value under it.
pub proof fn lemma_no_values(s: HeaderSeq, name: Seq<char>)
    requires
        forall|j: int| 0 <= j < s.len() ==> (#[trigger] s[j]).0 != name,
    ensures
        values_of(s, name).len() == 0,
    decreases s.len(),
{
    if s.len() > 0 {
        assert(s.last().0 != name);
        assert forall|j: int| 0 <= j < s.drop_last().len() implies (#[trigger] s.drop_last()[j]).0
            != name by {
            assert(s.drop_last()[j] == s[j]);
        }
        lemma_no_values(s.drop_last(), name);
    }
}

/// After the values under a name have left, there is none under it.
pub proof fn lemma_removal_leaves_none(t: HeaderSeq, s: HeaderSeq, name: Seq<char>)
    requires
        is_removal(t, s, name),
    ensures
        values_of(t, name).len() == 0,
        t.len() <= s.len() || s.len() > MAX_HEADERS,
{
    if s.len() <= MAX_HEADERS {
        let keep = others(s, name);
        let at = kept_indices(keep);
        lemma_kept_indices(keep);
        assert(t.len() == at.len());
        assert forall|j: int| 0 <= j < t.len() implies (#[trigger] t[j]).0 != name by {
            assert(keep[at[j]]);
            assert(t[j] == s[at[j]]);
        }
        lemma_no_values(t, name);
    }
}

/// The last pair of a name is the last: behind it no pair has its name.
pub proof fn lemma_last_values(s: HeaderSeq, i: int, j: int)
    requires
        is_grouped(s),
        0 <= i < j < s.len(),
        i + 1 == s.len() || s[i + 1].0 != s[i].0,
    ensures
        s[j].0 != s[i].0,
{
    if j > i + 1 && s[j].0 == s[i].0 {
        assert(s[i].0 == s[j].0 ==> s[i + 1].0 == s[i].0);
    }
}

/// The names that the library looks up or adds are header names.
pub proof fn lemma_known_names()
    ensures
        is_header_name("host"@),
        is_header_name("x-forwarded-proto"@),
        is_header_name("cookie"@),
        is_header_name("set-cookie"@),
        is_header_name("content-type"@),
{
    reveal_strlit("host");
    reveal_strlit("x-forwarded-proto");
    reveal_strlit("cookie");
    reveal_strlit("set-cookie");
    reveal_strlit("content-type");
}

/// Adding a value makes the map one pair longer.
pub proof fn lemma_with_value_len(s: HeaderSeq, name: Seq<char>, value: Seq<u8>)
    ensures
        with_value(s, name, value).len() == s.len() + 1,
{
    lemma_group_end(s, name);
}

/// The values under a name are those of the front part followed by those of
/// the back part.
pub proof fn lemma_values_of_concat(a: HeaderSeq, b: HeaderSeq, name: Seq<char>)
    ensures
        values_of(a + b, name) == values_of(a, name) + values_of(b, name),
    decreases b.len(),
{
    if b.len() == 0 {
        assert(a + b == a);
    } else {
        assert((a + b).drop_last() == a + b.drop_last());
        assert((a + b).last() == b.last());
        lemma_values_of_concat(a, b.drop_last(), name);
    }
}

/// Behind `group_end` no value is stored under the name.
pub proof fn lemma_group_end(s: HeaderSeq, name: Seq<char>)
    ensures
        0 <= group_end(s, name) <= s.len(),
        values_of(s.subrange(group_end(s, name), s.len() as int), name).len() == 0,
    decreases s.len(),
{
    if s.len() == 0 {
    } else if s.last().0 == name {
        assert(s.subrange(s.len() as int, s.len() as int) == Seq::<(Seq<char>, Seq<u8>)>::empty());
    } else {
        let k = group_end(s, name);
        lemma_group_end(s.drop_last(), name);
        let tail = s.subrange(k, s.len() as int);
        assert(tail.drop_last() == s.drop_last().subrange(k, s.len() - 1));
        assert(tail.last() == s.last());
    }
}

/// Adding a value under a name puts it behind the values that the name
/// had, and leaves the values of every other name as they were.
pub proof fn lemma_with_value(s: HeaderSeq, name: Seq<char>, value: Seq<u8>, other: Seq<char>)
    ensures
        values_of(with_value(s, name, value), other) == if other == name {
            values_of(s, name).push(value)
        } else {
            values_of(s, other)
        },
{
    let k = group_end(s, name);
    lemma_group_end(s, name);
    let e = (name, value);
    if k == 0 {
        assert(s.push(e).drop_last() == s);
    } else {
        let front = s.subrange(0, k);
        let back = s.subrange(k, s.len() as int);
        let one = seq![e];
        assert(s == front + back);
        assert(s.insert(k, e) == (front + one) + back);
        assert(values_of(one, other) == if other == name {
            seq![value]
        } else {
            Seq::<Seq<u8>>::empty()
        }) by {
            reveal_with_fuel(values_of, 2);
            assert(one.drop_last() == Seq::<(Seq<char>, Seq<u8>)>::empty());
            assert(Seq::<Seq<u8>>::empty().push(value) == seq![value]);
        }
        lemma_values_of_concat(front, back, other);
        lemma_values_of_concat(front, one, other);
        lemma_values_of_concat(front + one, back, other);
        if other == name {
            assert(values_of(back, name) == Seq::<Seq<u8>>::empty());
            assert(values_of(s, name) == values_of(front, name));
            assert(values_of(front, name) + seq![value] == values_of(front, name).push(value));
        } else {
            assert(values_of(front, other) + Seq::<Seq<u8>>::empty() == values_of(front, other));
        }
    }
}

/// Headers merged into a map come behind the values that each name already
/// had there: under every name the merged map holds the values of the
/// first map, then those of the second.
pub proof fn lemma_with_values(s: HeaderSeq, extra: HeaderSeq, name: Seq<char>)
    ensures
        values_of(with_values(s, extra), name) == values_of(s, name) + values_of(extra, name),
    decreases extra.len(),
{
    if extra.len() == 0 {
        assert(values_of(s, name) + Seq::<Seq<u8>>::empty() == values_of(s, name));
    } else {
        let before = with_values(s, extra.drop_last());
        lemma_with_values(s, extra.drop_last(), name);
        lemma_with_value(before, extra.last().0, extra.last().1, name);
        if extra.last().0 == name {
            assert((values_of(s, name) + values_of(extra.drop_last(), name)).push(extra.last().1)
                == values_of(s, name) + values_of(extra.drop_last(), name).push(extra.last().1));
        }
    }
}

} // verus!
