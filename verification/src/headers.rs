//! HTTP header maps.
//!
//! Headers are kept in `http::HeaderMap`. What such a map holds is named by
//! `header_entries`: its name and value pairs in the order in which the map
//! hands them out, names as lower-case text and values as raw bytes. The few
//! map operations that the proxy needs are declared here with contracts over
//! that sequence; Verus takes those contracts on trust.

use http::header::{HeaderMap, HeaderName, HeaderValue};
use vstd::prelude::*;

verus! {

/// `http::HeaderMap`: a multimap from header names to values.
#[verifier::external_type_specification]
#[verifier::external_body]
#[verifier::reject_recursive_types(T)]
pub struct ExHeaderMap<T>(HeaderMap<T>);

/// `http::HeaderValue`: the value of one header.
#[verifier::external_type_specification]
#[verifier::external_body]
pub struct ExHeaderValue(HeaderValue);

/// One header: its name and the bytes of its value.
pub type Entry = (Seq<char>, Seq<u8>);

/// The headers that `headers` holds, in the order of `HeaderMap::iter`.
pub uninterp spec fn header_entries(headers: HeaderMap) -> Seq<Entry>;

/// A header name made of lower-case letters, digits and hyphens, at most 64
/// of them. `http` takes every such name as it is written.
pub open spec fn is_plain_name(name: Seq<char>) -> bool {
    &&& 0 < name.len() <= 64
    &&& forall|i: int|
        0 <= i < name.len() ==> {
            let c = #[trigger] name[i];
            ('a' <= c && c <= 'z') || ('0' <= c && c <= '9') || c == '-'
        }
}

/// The value of the first header called `name`.
pub open spec fn first_value(entries: Seq<Entry>, name: Seq<char>) -> Option<Seq<u8>>
    decreases entries.len(),
{
    if entries.len() == 0 {
        None
    } else if entries[0].0 == name {
        Some(entries[0].1)
    } else {
        first_value(entries.drop_first(), name)
    }
}

/// `entries` without the headers called `name`.
pub open spec fn without_name(entries: Seq<Entry>, name: Seq<char>) -> Seq<Entry>
    decreases entries.len(),
{
    if entries.len() == 0 {
        entries
    } else if entries[0].0 == name {
        without_name(entries.drop_first(), name)
    } else {
        seq![entries[0]] + without_name(entries.drop_first(), name)
    }
}

/// `entries` after `name` has been set to `value`: the first header of that
/// name takes the value and the other headers of that name leave; where
/// there was none, the header is added at the end.
pub open spec fn with_value(entries: Seq<Entry>, name: Seq<char>, value: Seq<u8>) -> Seq<Entry>
    decreases entries.len(),
{
    if entries.len() == 0 {
        seq![(name, value)]
    } else if entries[0].0 == name {
        seq![(name, value)] + without_name(entries.drop_first(), name)
    } else {
        seq![entries[0]] + with_value(entries.drop_first(), name, value)
    }
}

/// `entries` leave room for `more` headers. An `http` map refuses a header
/// only where it would have to grow beyond its greatest size; a map that
/// holds fewer than 6554 headers never has to.
pub open spec fn has_room_for(entries: Seq<Entry>, more: nat) -> bool {
    entries.len() + more <= 6554
}

/// How setting the header `name` to `value` relates what a map held,
/// `before`, to what it holds, `after`. A value that is not legal leaves the
/// map as it was. A legal value is stored where the map has room for a
/// header; where it has not, the map may refuse and stay as it was.
pub open spec fn header_set(
    before: Seq<Entry>,
    name: Seq<char>,
    value: Seq<u8>,
    after: Seq<Entry>,
) -> bool {
    if !is_legal_value(value) {
        after == before
    } else if has_room_for(before, 1) {
        after == with_value(before, name, value)
    } else {
        after == with_value(before, name, value) || after == before
    }
}

/// `without_name` holds no more headers than it was given.
pub proof fn lemma_without_name_len(entries: Seq<Entry>, name: Seq<char>)
    ensures
        without_name(entries, name).len() <= entries.len(),
    decreases entries.len(),
{
    if entries.len() > 0 {
        lemma_without_name_len(entries.drop_first(), name);
    }
}

/// Setting a header adds one header at most.
pub proof fn lemma_with_value_len(entries: Seq<Entry>, name: Seq<char>, value: Seq<u8>)
    ensures
        1 <= with_value(entries, name, value).len() <= entries.len() + 1,
    decreases entries.len(),
{
    if entries.len() > 0 {
        if entries[0].0 == name {
            lemma_without_name_len(entries.drop_first(), name);
        } else {
            lemma_with_value_len(entries.drop_first(), name, value);
        }
    }
}

/// What `without_name` keeps is not called `name`, and what is called
/// otherwise is found in it as before.
pub proof fn lemma_without_name(entries: Seq<Entry>, name: Seq<char>, other: Seq<char>)
    ensures
        first_value(without_name(entries, name), name) is None,
        other != name ==> first_value(without_name(entries, name), other) == first_value(
            entries,
            other,
        ),
    decreases entries.len(),
{
    if entries.len() > 0 {
        let rest = without_name(entries.drop_first(), name);
        lemma_without_name(entries.drop_first(), name, other);
        if entries[0].0 != name {
            assert((seq![entries[0]] + rest).drop_first() =~= rest);
        }
    }
}

/// A header that has been set is found under its name with its value, and
/// the headers of other names are found as before.
pub proof fn lemma_with_value(
    entries: Seq<Entry>,
    name: Seq<char>,
    value: Seq<u8>,
    other: Seq<char>,
)
    ensures
        first_value(with_value(entries, name, value), name) == Some(value),
        other != name ==> first_value(with_value(entries, name, value), other) == first_value(
            entries,
            other,
        ),
    decreases entries.len(),
{
    let set = with_value(entries, name, value);
    if entries.len() == 0 {
        assert(set.drop_first() =~= Seq::<Entry>::empty());
        assert(first_value(set.drop_first(), other) is None);
    } else if entries[0].0 == name {
        let rest = without_name(entries.drop_first(), name);
        lemma_without_name(entries.drop_first(), name, other);
        assert(set.drop_first() =~= rest);
        assert(set[0] == (name, value));
    } else {
        let rest = with_value(entries.drop_first(), name, value);
        lemma_with_value(entries.drop_first(), name, value, other);
        assert(set.drop_first() =~= rest);
        assert(set[0] == entries[0]);
    }
}

/// A byte that `http` accepts in a header value: a tab, or anything from the
/// space on but DEL.
pub open spec fn is_value_byte(b: u8) -> bool {
    (b >= 32 && b != 127) || b == 9
}

/// Every byte of `value` may stand in a header value.
pub open spec fn is_legal_value(value: Seq<u8>) -> bool {
    forall|i: int| 0 <= i < value.len() ==> is_value_byte(#[trigger] value[i])
}

/// A byte of header text: a tab or a printable ASCII character.
pub open spec fn is_text_byte(b: u8) -> bool {
    (32 <= b && b < 127) || b == 9
}

/// The bytes of `value` as characters.
pub open spec fn bytes_as_chars(value: Seq<u8>) -> Seq<char> {
    value.map_values(|b: u8| b as char)
}

/// The text of a header value: its bytes as characters where all of them are
/// header text, nothing otherwise.
pub open spec fn header_text(value: Seq<u8>) -> Option<Seq<char>> {
    if forall|i: int| 0 <= i < value.len() ==> is_text_byte(#[trigger] value[i]) {
        Some(bytes_as_chars(value))
    } else {
        None
    }
}

/// The text of a header value, if it is text.
pub fn value_text(value: &Vec<u8>) -> (text: Option<Vec<char>>)
    ensures
        match text {
            Some(t) => header_text(value@) == Some(t@),
            None => header_text(value@) is None,
        },
{
    let mut text: Vec<char> = Vec::new();
    let mut i: usize = 0;
    while i < value.len()
        invariant
            i <= value.len(),
            forall|j: int| 0 <= j < i ==> is_text_byte(#[trigger] value@[j]),
            text@ == bytes_as_chars(value@.take(i as int)),
        decreases value.len() - i,
    {
        let b = value[i];
        if !((32 <= b && b < 127) || b == 9) {
            return None;
        }
        text.push(b as char);
        assert(bytes_as_chars(value@.take(i + 1)) == bytes_as_chars(value@.take(i as int)).push(
            b as char,
        ));
        i += 1;
    }
    assert(value@.take(value@.len() as int) == value@);
    Some(text)
}

/// Calls `HeaderMap::new`: a map without headers.
#[verifier::external_body]
pub(crate) fn empty_headers() -> (headers: HeaderMap)
    ensures
        header_entries(headers) == Seq::<Entry>::empty(),
{
    HeaderMap::new()
}

/// Calls `HeaderMap::clone`: the copy holds the same headers in the same
/// order.
#[verifier::external_body]
pub(crate) fn copy_headers(headers: &HeaderMap) -> (copy: HeaderMap)
    ensures
        header_entries(copy) == header_entries(*headers),
{
    headers.clone()
}

/// Walks `HeaderMap::iter` and copies each header out: the name by
/// `HeaderName::as_str`, the value by `HeaderValue::as_bytes`.
#[verifier::external_body]
pub(crate) fn header_pairs(headers: &HeaderMap) -> (pairs: Vec<(String, Vec<u8>)>)
    ensures
        pairs.deep_view() == header_entries(*headers),
{
    headers
        .iter()
        .map(|(name, value)| (name.as_str().to_string(), value.as_bytes().to_vec()))
        .collect()
}

/// Calls `HeaderMap::get` with a plain name: the value that the map holds
/// first under that name.
#[verifier::external_body]
pub(crate) fn header_value(headers: &HeaderMap, name: &str) -> (value: Option<Vec<u8>>)
    requires
        is_plain_name(name@),
    ensures
        value.deep_view() == first_value(header_entries(*headers), name@),
{
    headers.get(name).map(|value| value.as_bytes().to_vec())
}

/// Calls `HeaderMap::try_insert` with a plain name, after `HeaderValue::from_bytes`
/// has taken the value. Where the header is stored, the value was legal and
/// the map holds `with_value` of what it held; otherwise the map is as it
/// was. `http` refuses a header where the value is not legal, and where the
/// map would have to grow beyond its greatest size. It grows when its
/// headers fill three quarters of its table, or a fifth under many
/// collisions, and the table has 32768 places at most: so a map with fewer
/// than 6554 headers stores every header with a legal value.
#[verifier::external_body]
pub(crate) fn set_header(headers: &mut HeaderMap, name: &str, value: &[u8]) -> (stored: bool)
    requires
        is_plain_name(name@),
    ensures
        stored ==> is_legal_value(value@),
        stored ==> header_entries(*final(headers)) == with_value(
            header_entries(*old(headers)),
            name@,
            value@,
        ),
        !stored ==> header_entries(*final(headers)) == header_entries(*old(headers)),
        is_legal_value(value@) && has_room_for(header_entries(*old(headers)), 1) ==> stored,
{
    match (HeaderName::from_bytes(name.as_bytes()), HeaderValue::from_bytes(value)) {
        (Ok(name), Ok(value)) => headers.try_insert(name, value).is_ok(),
        _ => false,
    }
}

} // verus!
