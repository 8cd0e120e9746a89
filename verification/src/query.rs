//! The query codec: from a request record to the query string of a URL.
//!
//! A record becomes the list of its present fields, in the order of the
//! fields. Each key and value is encoded by `serde_qs`, and the encoded pairs
//! are joined with `&`. An absent field leaves no trace.
//!
//! `serde_qs` may refuse a pair. The functions here then return `None`, and
//! say so in their contracts: the library does not decide what `serde_qs`
//! takes.

use crate::json::{ScrobblesReq, ScrobblesReqView};
use crate::text::{decimal, decimal_digits, signed_decimal, signed_decimal_digits};
use vstd::prelude::*;

verus! {

/// `serde_qs::Error`, declared to Verus as a type it cannot look into: what
/// `serde_qs` reports when it refuses a value.
#[verifier::external_type_specification]
#[verifier::external_body]
pub struct ExQueryError(serde_qs::Error);

/// What `serde_qs::to_string` returns for a map whose one entry takes `key`
/// to `value`: the encoded pair, or `None` where it reports an error. The
/// name has no definition here. It stands for what the crate computes, which
/// depends on `key` and `value` alone.
pub uninterp spec fn encoded_pair(key: Seq<char>, value: Seq<char>) -> Option<Seq<char>>;

/// Calls `serde_qs::to_string` on a map with the single entry `key` to
/// `value`. Verus takes the contract as given. It only gives the outcome its
/// name, `encoded_pair`: nothing is claimed of what the text holds, nor that
/// the call succeeds.
#[verifier::external_body]
fn encode_pair(key: &str, value: &str) -> (encoded: Result<String, serde_qs::Error>)
    ensures
        match encoded {
            Ok(text) => encoded_pair(key@, value@) == Some(text@),
            Err(_) => encoded_pair(key@, value@) is None,
        },
{
    serde_qs::to_string(&std::collections::BTreeMap::from([(key, value)]))
}

/// A key with its value.
pub type Pair = (Seq<char>, Seq<char>);

/// The pair of a field: one pair where the field holds a value, none where
/// it does not.
pub open spec fn present(key: Seq<char>, value: Option<Seq<char>>) -> Seq<Pair> {
    match value {
        Some(text) => seq![(key, text)],
        None => Seq::empty(),
    }
}

/// A request record that goes out as a query string.
pub trait QueryRecord {
    /// The pairs of the record: its present fields under their wire keys, in
    /// a fixed order. An absent field has no pair.
    spec fn pairs(&self) -> Seq<Pair>;

    /// Lists the present fields of the record as key and value.
    fn query_pairs(&self) -> (pairs: Vec<(String, String)>)
        ensures
            pairs.deep_view() == self.pairs(),
    ;
}

/// The decimal numeral of an optional signed number.
pub open spec fn signed_text(value: Option<i64>) -> Option<Seq<char>> {
    match value {
        Some(n) => Some(signed_decimal_digits(n as int)),
        None => None,
    }
}

/// The decimal numeral of an optional unsigned number.
pub open spec fn unsigned_text(value: Option<u64>) -> Option<Seq<char>> {
    match value {
        Some(n) => Some(decimal_digits(n as nat)),
        None => None,
    }
}

impl ScrobblesReqView {
    /// No field holds a value.
    pub open spec fn is_blank(self) -> bool {
        &&& self.from is None
        &&& self.until is None
        &&& self._in is None
        &&& self.artist is None
        &&& self.page is None
        &&& self.perpage is None
    }

    /// The pairs of the record: its present fields under their wire keys, in
    /// the order `from`, `until`, `in`, `artist`, `page`, `perpage`, numbers
    /// in decimal.
    pub open spec fn pairs(self) -> Seq<Pair> {
        present("from"@, signed_text(self.from)) + present("until"@, signed_text(self.until))
            + present("in"@, self._in) + present("artist"@, self.artist) + present(
            "page"@,
            unsigned_text(self.page),
        ) + present("perpage"@, unsigned_text(self.perpage))
    }
}

/// Every pair has an encoding.
pub open spec fn all_encodable(pairs: Seq<Pair>) -> bool {
    forall|i: int| 0 <= i < pairs.len() ==> (#[trigger] encoded_pair(pairs[i].0, pairs[i].1)) is Some
}

/// The encodings of the pairs, in order, with `&` between two neighbours.
pub open spec fn joined(pairs: Seq<Pair>) -> Seq<char>
    decreases pairs.len(),
{
    if pairs.len() == 0 {
        Seq::empty()
    } else if pairs.len() == 1 {
        encoded_pair(pairs[0].0, pairs[0].1)->0
    } else {
        joined(pairs.drop_last()) + "&"@ + encoded_pair(pairs.last().0, pairs.last().1)->0
    }
}

/// The query string of a list of pairs: the joined encodings where every pair
/// has one, nothing where one has none.
pub open spec fn encoded_query(pairs: Seq<Pair>) -> Option<Seq<char>> {
    if all_encodable(pairs) {
        Some(joined(pairs))
    } else {
        None
    }
}

/// A path with a query string behind it: the path alone where the query
/// string is empty, else the path, a question mark and the query string.
pub open spec fn path_with_query(path: Seq<char>, query: Seq<char>) -> Seq<char> {
    if query.len() == 0 {
        path
    } else {
        path + "?"@ + query
    }
}

/// The full path of a request: `path` with the query string of the pairs, or
/// nothing where a pair has no encoding.
pub open spec fn full_path(pairs: Seq<Pair>, path: Seq<char>) -> Option<Seq<char>> {
    match encoded_query(pairs) {
        Some(text) => Some(path_with_query(path, text)),
        None => None,
    }
}

/// Appends the pair of one field to `pairs`, where the field holds a value.
fn push_present(pairs: &mut Vec<(String, String)>, key: &str, value: Option<String>)
    ensures
        final(pairs).deep_view() == old(pairs).deep_view() + present(key@, value.deep_view()),
{
    if let Some(text) = value {
        pairs.push((key.to_owned(), text));
    }
}

/// Renders an optional signed number in decimal.
fn render_signed(value: Option<i64>) -> (text: Option<String>)
    ensures
        text.deep_view() == signed_text(value),
{
    match value {
        Some(n) => Some(signed_decimal(n)),
        None => None,
    }
}

/// Renders an optional unsigned number in decimal.
fn render_unsigned(value: Option<u64>) -> (text: Option<String>)
    ensures
        text.deep_view() == unsigned_text(value),
{
    match value {
        Some(n) => Some(decimal(n)),
        None => None,
    }
}

/// A second optional text with the same contents.
fn copy_text(value: &Option<String>) -> (copy: Option<String>)
    ensures
        copy.deep_view() == value.deep_view(),
{
    match value {
        Some(text) => Some(text.clone()),
        None => None,
    }
}

impl QueryRecord for ScrobblesReq {
    open spec fn pairs(&self) -> Seq<Pair> {
        self@.pairs()
    }

    fn query_pairs(&self) -> (pairs: Vec<(String, String)>) {
        let mut pairs: Vec<(String, String)> = Vec::new();
        push_present(&mut pairs, "from", render_signed(self.from));
        push_present(&mut pairs, "until", render_signed(self.until));
        push_present(&mut pairs, "in", copy_text(&self._in));
        push_present(&mut pairs, "artist", copy_text(&self.artist));
        push_present(&mut pairs, "page", render_unsigned(self.page));
        push_present(&mut pairs, "perpage", render_unsigned(self.perpage));
        pairs
    }
}

/// Encodes a list of pairs as a query string. Returns `None` where
/// `serde_qs` refuses one of them.
pub fn encode_query(pairs: &Vec<(String, String)>) -> (query: Option<String>)
    ensures
        query.deep_view() == encoded_query(pairs.deep_view()),
{
    let ghost all = pairs.deep_view();
    let mut query = String::new();
    let mut i: usize = 0;
    while i < pairs.len()
        invariant
            i <= pairs.len(),
            all == pairs.deep_view(),
            all_encodable(all.take(i as int)),
            query@ == joined(all.take(i as int)),
        decreases pairs.len() - i,
    {
        let ghost done = all.take(i as int);
        let ghost next = all.take(i + 1);
        assert(next.drop_last() =~= done);
        assert(all[i as int] == (pairs[i as int].0@, pairs[i as int].1@));
        match encode_pair(pairs[i].0.as_str(), pairs[i].1.as_str()) {
            Ok(text) => {
                if i > 0 {
                    query.append("&");
                }
                query.append(text.as_str());
                assert(all_encodable(next)) by {
                    assert forall|k: int| 0 <= k < next.len() implies (#[trigger] encoded_pair(
                        next[k].0,
                        next[k].1,
                    )) is Some by {
                        if k < i {
                            assert(next[k] == done[k]);
                        }
                    }
                }
                assert(query@ =~= joined(next));
            },
            Err(_) => {
                assert(encoded_pair(all[i as int].0, all[i as int].1) is None);
                return None;
            },
        }
        i = i + 1;
    }
    assert(all.take(i as int) =~= all);
    Some(query)
}

/// Puts a query string behind a path.
pub fn append_query(path: &str, query: &str) -> (full: String)
    ensures
        full@ == path_with_query(path@, query@),
{
    if query.is_empty() {
        path.to_owned()
    } else {
        path.to_owned().concat("?").concat(query)
    }
}

/// The path of a request with the record's query string behind it. A record
/// without a present field leaves the path as it is. Returns `None` where
/// `serde_qs` refuses a pair of the record.
pub fn full_query_path<T: QueryRecord>(query: T, path: &str) -> (full: Option<String>)
    ensures
        full.deep_view() == full_path(query.pairs(), path@),
        query.pairs().len() == 0 ==> full.deep_view() == Some(path@),
{
    let pairs = query.query_pairs();
    match encode_query(&pairs) {
        Some(text) => Some(append_query(path, text.as_str())),
        None => None,
    }
}

/// A record without a pair has the empty query string, and a path with that
/// query string behind it is the path.
pub proof fn lemma_no_pairs_no_query(path: Seq<char>)
    ensures
        encoded_query(Seq::<Pair>::empty()) == Some(Seq::<char>::empty()),
        path_with_query(path, Seq::<char>::empty()) == path,
        full_path(Seq::<Pair>::empty(), path) == Some(path),
{
}

/// A listing or count query without a present field has no pair, so its
/// query string is empty and it leaves every path unchanged.
pub proof fn lemma_blank_record_has_empty_query(query: ScrobblesReqView, path: Seq<char>)
    requires
        query.is_blank(),
    ensures
        query.pairs() == Seq::<Pair>::empty(),
        encoded_query(query.pairs()) == Some(Seq::<char>::empty()),
        full_path(query.pairs(), path) == Some(path),
{
    assert(query.pairs() =~= Seq::<Pair>::empty());
}

/// One for a field that holds a value, nought for one that does not.
pub open spec fn presence<T>(field: Option<T>) -> int {
    if field is Some {
        1
    } else {
        0
    }
}

/// A field without a value adds nothing to the pairs of a record, and a field
/// with one adds exactly one pair: the number of pairs is the number of
/// present fields. So a record has no pair exactly when it is blank.
pub proof fn lemma_pairs_count_present_fields(query: ScrobblesReqView)
    ensures
        query.pairs().len() == presence(query.from) + presence(query.until) + presence(query._in)
            + presence(query.artist) + presence(query.page) + presence(query.perpage),
        query.pairs().len() == 0 <==> query.is_blank(),
{
}

} // verus!
