//! The caller's extra headers, filtered into a header map: a pair goes in
//! where both its name and its value are fit to be sent, and is left out
//! without a word where one of them is not.

use reqwest::header::{HeaderMap, HeaderName, HeaderValue};
use std::str::FromStr;
use vstd::prelude::*;

verus! {

/// `reqwest::header::HeaderName`, declared to Verus as a type it cannot look
/// into: the name of a header, as the transport knows it.
#[verifier::external_type_specification]
#[verifier::external_body]
pub struct ExHeaderName(HeaderName);

/// `reqwest::header::HeaderValue`, declared to Verus as a type it cannot look
/// into: the value of a header, as the transport knows it.
#[verifier::external_type_specification]
#[verifier::external_body]
pub struct ExHeaderValue(HeaderValue);

/// `reqwest::header::HeaderMap`, declared to Verus as a type it cannot look
/// into: the transport's map from header names to values.
#[verifier::external_type_specification]
#[verifier::external_body]
#[verifier::reject_recursive_types(T)]
pub struct ExHeaderMap<T>(HeaderMap<T>);

/// A header as the caller gives it: a name with its value.
pub type Header = (Seq<char>, Seq<char>);

/// What `HeaderName::from_str` returns for a text: the name, or `None` where
/// the text is refused. The name has no definition here. It stands for what
/// the `http` crate computes, which depends on the text alone.
pub uninterp spec fn header_name_of(text: Seq<char>) -> Option<HeaderName>;

/// What `HeaderValue::from_str` returns for a text: the value, or `None`
/// where the text is refused. The name has no definition here. It stands for
/// what the `http` crate computes, which depends on the text alone.
pub uninterp spec fn header_value_of(text: Seq<char>) -> Option<HeaderValue>;

/// What a header map holds: its names, each with the value that the map
/// gives for the name. The name has no definition here: it stands for the
/// contents that the `http` crate keeps. Two names are one name where the
/// crate holds them equal, as it does two spellings that differ in case.
pub uninterp spec fn header_entries(map: HeaderMap) -> Map<HeaderName, HeaderValue>;

/// The entries of a map that holds nothing.
pub open spec fn no_entries() -> Map<HeaderName, HeaderValue> {
    Map::empty()
}

/// A character that may stand in a header value: a tab, or anything from the
/// space on but the delete character.
pub open spec fn is_value_char(c: char) -> bool {
    c == '\t' || (c >= ' ' && c != '\x7f')
}

/// A text that may be a header value: each of its characters may stand in
/// one.
pub open spec fn is_value_text(text: Seq<char>) -> bool {
    forall|i: int| 0 <= i < text.len() ==> is_value_char(#[trigger] text[i])
}

/// Calls `HeaderName::from_str`. Verus takes the contract as given. It only
/// gives the outcome its name, `header_name_of`: which texts are names, and
/// how a name is normalized, is left to the `http` crate.
#[verifier::external_body]
fn header_name(text: &str) -> (name: Option<HeaderName>)
    ensures
        name == header_name_of(text@),
{
    HeaderName::from_str(text).ok()
}

/// Calls `HeaderValue::from_str`. Verus takes the contract as given. It names
/// the outcome, `header_value_of`, and says which texts are accepted: those
/// whose bytes are all a tab, or at least 32 and not 127. Every byte of a
/// character beyond ASCII is above 127, so this is `is_value_text`.
#[verifier::external_body]
fn header_value(text: &str) -> (value: Option<HeaderValue>)
    ensures
        value == header_value_of(text@),
        value is Some <==> is_value_text(text@),
{
    HeaderValue::from_str(text).ok()
}

/// Calls `HeaderMap::new`. Verus takes the contract as given: the new map
/// holds nothing.
#[verifier::external_body]
fn empty_header_map() -> (map: HeaderMap)
    ensures
        header_entries(map) == no_entries(),
{
    HeaderMap::new()
}

/// Calls `HeaderMap::try_insert` and says whether it succeeded. Verus takes
/// the contract as given. On success the name has the new value and no
/// other, and all other names are as before. Of a failure, which the map
/// reports when it cannot grow any more, nothing is said: neither when it
/// comes nor what the map holds after it.
#[verifier::external_body]
fn try_insert_header(map: &mut HeaderMap, name: HeaderName, value: HeaderValue) -> (inserted: bool)
    ensures
        inserted ==> header_entries(*final(map)) == header_entries(*old(map)).insert(name, value),
{
    map.try_insert(name, value).is_ok()
}

/// The entries of a map after one pair was offered to it: with the pair
/// where name and value both passed, unchanged where one of them did not.
pub open spec fn entries_after(
    entries: Map<HeaderName, HeaderValue>,
    name: Option<HeaderName>,
    value: Option<HeaderValue>,
) -> Map<HeaderName, HeaderValue> {
    match (name, value) {
        (Some(n), Some(v)) => entries.insert(n, v),
        _ => entries,
    }
}

/// A pair that goes into the map: its name and its value both pass.
pub open spec fn is_sendable(pair: Header) -> bool {
    header_name_of(pair.0) is Some && header_value_of(pair.1) is Some
}

/// The entries that a list of pairs leaves in a map that was empty: each pair
/// is offered in turn, so a later pair replaces an earlier one under the same
/// name.
pub open spec fn collected(pairs: Seq<Header>) -> Map<HeaderName, HeaderValue>
    decreases pairs.len(),
{
    if pairs.len() == 0 {
        Map::empty()
    } else {
        entries_after(
            collected(pairs.drop_last()),
            header_name_of(pairs.last().0),
            header_value_of(pairs.last().1),
        )
    }
}

/// The pairs of an optional list of headers: none where there is no list.
pub open spec fn header_pairs(headers: Option<Vec<(String, String)>>) -> Seq<Header> {
    match headers {
        Some(pairs) => pairs.deep_view(),
        None => Seq::empty(),
    }
}

/// Offers one pair to a map, given what the transport made of its name and of
/// its value. A pair whose name or value was refused leaves the map as it
/// is. Returns `None` where the map reports that it cannot take the pair.
pub fn add_header(map: HeaderMap, name: Option<HeaderName>, value: Option<HeaderValue>) -> (next:
    Option<HeaderMap>)
    ensures
        name is None || value is None ==> next == Some(map),
        next is Some ==> header_entries(next->0) == entries_after(header_entries(map), name, value),
{
    match (name, value) {
        (Some(n), Some(v)) => {
            let mut map = map;
            if try_insert_header(&mut map, n, v) {
                Some(map)
            } else {
                None
            }
        },
        _ => Some(map),
    }
}

/// Filters the caller's headers into a header map. Each pair is judged by
/// itself: where the transport takes both its name and its value, the pair
/// goes in, and where it refuses one of them, the pair is dropped and the
/// others are not affected. Without a list the map is empty. Returns `None`
/// where the map reports that it cannot take a pair.
pub fn parse_headers(maybe_headers: Option<Vec<(String, String)>>) -> (map: Option<HeaderMap>)
    ensures
        map is Some ==> header_entries(map->0) == collected(header_pairs(maybe_headers)),
        (forall|i: int|
            0 <= i < header_pairs(maybe_headers).len() ==> !is_sendable(
                #[trigger] header_pairs(maybe_headers)[i],
            )) ==> map is Some,
{
    let mut map = empty_header_map();
    let ghost pairs = header_pairs(maybe_headers);
    if let Some(headers) = maybe_headers {
        let mut i: usize = 0;
        while i < headers.len()
            invariant
                i <= headers.len(),
                pairs == headers.deep_view(),
                pairs == header_pairs(maybe_headers),
                header_entries(map) == collected(pairs.take(i as int)),
            decreases headers.len() - i,
        {
            let ghost next = pairs.take(i + 1);
            assert(next.drop_last() =~= pairs.take(i as int));
            let name = header_name(headers[i].0.as_str());
            let value = header_value(headers[i].1.as_str());
            match add_header(map, name, value) {
                Some(grown) => {
                    map = grown;
                },
                None => {
                    assert(is_sendable(pairs[i as int]));
                    return None;
                },
            }
            i = i + 1;
        }
        assert(pairs.take(i as int) =~= pairs);
    }
    Some(map)
}

/// A pair whose name or value is refused leaves no trace: the entries are
/// those of the pairs before it.
pub proof fn lemma_refused_pair_is_dropped(
    pairs: Seq<Header>,
    pair: Header,
)
    requires
        !is_sendable(pair),
    ensures
        collected(pairs.push(pair)) == collected(pairs),
{
    assert(pairs.push(pair).drop_last() =~= pairs);
}

/// A pair whose name and value both pass is in the map once it was offered,
/// whatever came before it.
pub proof fn lemma_sendable_pair_is_kept(
    pairs: Seq<Header>,
    pair: Header,
)
    requires
        is_sendable(pair),
    ensures
        collected(pairs.push(pair)).contains_key(header_name_of(pair.0)->0),
        collected(pairs.push(pair))[header_name_of(pair.0)->0] == header_value_of(pair.1)->0,
{
    assert(pairs.push(pair).drop_last() =~= pairs);
}

/// Every entry of the map comes from a pair of the list whose name and value
/// both pass.
pub proof fn lemma_entries_come_from_pairs(pairs: Seq<Header>, name: HeaderName)
    requires
        collected(pairs).contains_key(name),
    ensures
        exists|i: int|
            {
                &&& 0 <= i < pairs.len()
                &&& is_sendable(#[trigger] pairs[i])
                &&& header_name_of(pairs[i].0) == Some(name)
                &&& header_value_of(pairs[i].1) == Some(collected(pairs)[name])
            },
    decreases pairs.len(),
{
    let before = pairs.drop_last();
    let last = pairs.last();
    if is_sendable(last) && header_name_of(last.0) == Some(name) {
        assert(is_sendable(pairs[pairs.len() - 1]));
    } else {
        assert(collected(before).contains_key(name));
        lemma_entries_come_from_pairs(before, name);
        let i = choose|i: int|
            {
                &&& 0 <= i < before.len()
                &&& is_sendable(#[trigger] before[i])
                &&& header_name_of(before[i].0) == Some(name)
                &&& header_value_of(before[i].1) == Some(collected(before)[name])
            };
        assert(before[i] == pairs[i]);
        assert(is_sendable(pairs[i]));
    }
}

/// A value with a line feed or a carriage return in it is never sent.
pub proof fn lemma_line_break_is_refused(text: Seq<char>, i: int)
    requires
        0 <= i < text.len(),
        text[i] == '\n' || text[i] == '\r',
    ensures
        !is_value_text(text),
{
}

} // verus!
