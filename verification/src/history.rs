//! Listing and counting scrobbles: the URL of each query, and the result
//! that a response comes to.

use crate::credentials::MalojaCredentials;
use crate::error::{RequestError, RequestErrorView};
use crate::json::{
    entries_view, NumscrobblesRes, NumscrobblesResView, ScrobblesReq, ScrobblesReqView,
    ScrobblesRes, ScrobblesResEntry, ScrobblesResEntryView, ScrobblesResView,
};
use crate::query::{full_path, full_query_path};
use crate::range::{process_range, Range, ResolvedRange};
use crate::response::{handle_response, normalized};
use crate::types::{mapped_track, Track, TrackView};
use vstd::prelude::*;

verus! {

/// `chrono::NaiveDateTime`, declared to Verus as a type it cannot look into: a
/// date and time of the calendar, here always read as UTC.
#[verifier::external_type_specification]
#[verifier::external_body]
pub struct ExNaiveDateTime(chrono::NaiveDateTime);

/// `NaiveDateTime::clone`, given its contract without proof. The type is
/// `Copy`, so the clone is the value itself.
pub assume_specification[ <chrono::NaiveDateTime as Clone>::clone ](
    time: &chrono::NaiveDateTime,
) -> (copy: chrono::NaiveDateTime)
    ensures
        copy == *time,
;

/// What `chrono::DateTime::from_timestamp` returns for `secs` seconds since
/// the Unix epoch and no nanoseconds, as date and time in UTC: `None` where
/// the instant is beyond what chrono represents. The name has no definition
/// here. It stands for what the crate computes, which depends on `secs` alone.
pub uninterp spec fn utc_date_time(secs: i64) -> Option<chrono::NaiveDateTime>;

/// What `chrono::DateTime::timestamp` returns for a date and time read as
/// UTC: the whole seconds from the Unix epoch to it. The name has no
/// definition here. It stands for what the crate computes, which depends on
/// the date and time alone.
pub uninterp spec fn utc_seconds(time: chrono::NaiveDateTime) -> i64;

/// Calls `chrono::DateTime::from_timestamp` with `secs` and no nanoseconds,
/// and hands out the UTC date and time of what it returns. Verus takes the
/// contract as given. It gives the outcome its name, `utc_date_time`, and
/// says what chrono documents: a date and time made from seconds has these
/// seconds as its timestamp. Nothing is claimed of which seconds have a date
/// and time.
#[verifier::external_body]
fn utc_from_timestamp(secs: i64) -> (time: Option<chrono::NaiveDateTime>)
    ensures
        time == utc_date_time(secs),
        time is Some ==> utc_seconds(time->0) == secs,
{
    chrono::DateTime::from_timestamp(secs, 0).map(|time| time.naive_utc())
}

/// Calls `chrono::DateTime::timestamp` on a date and time read as UTC. Verus
/// takes the contract as given. It only gives the outcome its name,
/// `utc_seconds`.
#[verifier::external_body]
fn timestamp_of(time: &chrono::NaiveDateTime) -> (secs: i64)
    ensures
        secs == utc_seconds(*time),
{
    time.and_utc().timestamp()
}

/// A play of a track: the moment, in UTC and to the second, and the track.
#[derive(Clone, Debug)]
pub struct Scrobble {
    /// The date and time of the play in UTC. `and_utc` makes the instant of
    /// it.
    pub time: chrono::NaiveDateTime,
    pub track: Track,
}

/// A `Scrobble` as a mathematical value.
pub struct ScrobbleView {
    pub time: chrono::NaiveDateTime,
    pub track: TrackView,
}

impl View for Scrobble {
    type V = ScrobbleView;

    open spec fn view(&self) -> ScrobbleView {
        ScrobbleView { time: self.time, track: self.track@ }
    }
}

/// The views of a list of scrobbles, in order.
pub open spec fn scrobbles_view(list: Seq<Scrobble>) -> Seq<ScrobbleView> {
    Seq::new(list.len(), |i: int| list[i]@)
}

/// The mathematical value of the outcome of a listing.
pub open spec fn listing_view(outcome: Result<Vec<Scrobble>, RequestError>) -> Result<
    Seq<ScrobbleView>,
    RequestErrorView,
> {
    match outcome {
        Ok(list) => Ok(scrobbles_view(list@)),
        Err(error) => Err(error@),
    }
}

/// The mathematical value of the outcome of mapping one entry.
pub open spec fn scrobble_view(outcome: Result<Scrobble, RequestError>) -> Result<
    ScrobbleView,
    RequestErrorView,
> {
    match outcome {
        Ok(scrobble) => Ok(scrobble@),
        Err(error) => Err(error@),
    }
}

/// The mathematical value of the outcome of a count.
pub open spec fn count_view(outcome: Result<u64, RequestError>) -> Result<u64, RequestErrorView> {
    match outcome {
        Ok(amount) => Ok(amount),
        Err(error) => Err(error@),
    }
}

/// The moment a wire timestamp stands for: none where the number is beyond
/// the signed 64-bit seconds that chrono takes, or beyond what chrono
/// represents.
pub open spec fn moment(time: u64) -> Option<chrono::NaiveDateTime> {
    if time <= i64::MAX {
        utc_date_time(time as i64)
    } else {
        None
    }
}

/// What an entry comes to once chrono has answered with `time`: a scrobble at
/// that moment with the entry's track as the server gave it, or a decode
/// error with the entry's timestamp.
pub open spec fn scrobble_at(
    time: Option<chrono::NaiveDateTime>,
    entry: ScrobblesResEntryView,
) -> Result<ScrobbleView, RequestErrorView> {
    match time {
        Some(at) => Ok(ScrobbleView { time: at, track: mapped_track(entry.track, None) }),
        None => Err(RequestErrorView::DecodeError(entry.time)),
    }
}

/// What an entry comes to.
pub open spec fn mapped_scrobble(entry: ScrobblesResEntryView) -> Result<
    ScrobbleView,
    RequestErrorView,
> {
    scrobble_at(moment(entry.time), entry)
}

/// What a list of entries comes to: the scrobbles of all entries in the
/// order of the entries, or the error of the first entry that has one.
pub open spec fn mapped_scrobbles(entries: Seq<ScrobblesResEntryView>) -> Result<
    Seq<ScrobbleView>,
    RequestErrorView,
>
    decreases entries.len(),
{
    if entries.len() == 0 {
        Ok(Seq::empty())
    } else {
        match mapped_scrobbles(entries.drop_last()) {
            Err(error) => Err(error),
            Ok(before) => match mapped_scrobble(entries.last()) {
                Ok(scrobble) => Ok(before.push(scrobble)),
                Err(error) => Err(error),
            },
        }
    }
}

/// What the payload of a decoded listing comes to: the mapped list, or,
/// where the record holds no list, a server error with the record's status
/// marker. The record's error descriptor is judged before, in `normalized`.
pub open spec fn listing_of(record: ScrobblesResView) -> Result<Seq<ScrobbleView>, RequestErrorView> {
    match record.list {
        Some(entries) => mapped_scrobbles(entries),
        None => Err(RequestErrorView::ServerError(record.status)),
    }
}

/// What the payload of a decoded count comes to: the amount, or, where the
/// record holds none, a server error with the record's status marker. The
/// record's error descriptor is judged before, in `normalized`.
pub open spec fn count_of(record: NumscrobblesResView) -> Result<u64, RequestErrorView> {
    match record.amount {
        Some(amount) => Ok(amount),
        None => Err(RequestErrorView::ServerError(record.status)),
    }
}

/// What the response to a listing query comes to.
pub open spec fn listing_outcome(response: Result<ScrobblesRes, reqwest::Error>) -> Result<
    Seq<ScrobbleView>,
    RequestErrorView,
> {
    match normalized(response) {
        Err(error) => Err(error),
        Ok(record) => listing_of(record@),
    }
}

/// What the response to a count query comes to.
pub open spec fn count_outcome(response: Result<NumscrobblesRes, reqwest::Error>) -> Result<
    u64,
    RequestErrorView,
> {
    match normalized(response) {
        Err(error) => Err(error),
        Ok(record) => count_of(record@),
    }
}

/// The query record of a listing or a count.
pub open spec fn history_query(
    artist: Option<Seq<char>>,
    range: ResolvedRange,
    page: Option<u64>,
    perpage: Option<u64>,
) -> ScrobblesReqView {
    ScrobblesReqView {
        from: range.from,
        until: range.until,
        _in: range.token,
        artist,
        page,
        perpage,
    }
}

/// The path of the listing endpoint under the base URL.
pub open spec fn scrobbles_endpoint() -> Seq<char> {
    "/apis/mlj_1/scrobbles"@
}

/// The path of the count endpoint under the base URL.
pub open spec fn numscrobbles_endpoint() -> Seq<char> {
    "/apis/mlj_1/numscrobbles"@
}

/// Builds the query record of a listing or a count from what the caller
/// asks for.
pub fn scrobbles_query(
    artist: Option<String>,
    range: Range,
    page_number: Option<u64>,
    scrobbles_per_page: Option<u64>,
) -> (query: ScrobblesReq)
    ensures
        query@ == history_query(
            artist.deep_view(),
            range.resolved(),
            page_number,
            scrobbles_per_page,
        ),
{
    let from_until_in = process_range(range);
    ScrobblesReq {
        from: from_until_in.0,
        until: from_until_in.1,
        _in: from_until_in.2,
        artist,
        page: page_number,
        perpage: scrobbles_per_page,
    }
}

/// The URL to get for a listing: the listing endpoint under the base URL,
/// with the query behind it. Returns `None` where `serde_qs` refuses a field
/// of the query.
pub fn scrobbles_url(
    artist: Option<String>,
    range: Range,
    page_number: Option<u64>,
    scrobbles_per_page: Option<u64>,
    credentials: &MalojaCredentials,
) -> (url: Option<String>)
    ensures
        url.deep_view() == full_path(
            history_query(
                artist.deep_view(),
                range.resolved(),
                page_number,
                scrobbles_per_page,
            ).pairs(),
            credentials.url() + scrobbles_endpoint(),
        ),
{
    let query = scrobbles_query(artist, range, page_number, scrobbles_per_page);
    let path = credentials.get_url().concat("/apis/mlj_1/scrobbles");
    full_query_path(query, path.as_str())
}

/// The URL to get for a count: the count endpoint under the base URL, with
/// the query behind it. The query has no paging fields. Returns `None` where
/// `serde_qs` refuses a field of the query.
pub fn numscrobbles_url(artist: Option<String>, range: Range, credentials: &MalojaCredentials) -> (url:
    Option<String>)
    ensures
        url.deep_view() == full_path(
            history_query(artist.deep_view(), range.resolved(), None, None).pairs(),
            credentials.url() + numscrobbles_endpoint(),
        ),
{
    let query = scrobbles_query(artist, range, None, None);
    let path = credentials.get_url().concat("/apis/mlj_1/numscrobbles");
    full_query_path(query, path.as_str())
}

impl Scrobble {
    /// The moment of the play in whole seconds since the Unix epoch.
    pub fn timestamp(&self) -> (secs: i64)
        ensures
            secs == utc_seconds(self.time),
    {
        timestamp_of(&self.time)
    }

    /// Makes the scrobble of an entry from what chrono returned for the
    /// entry's timestamp.
    pub fn at(time: Option<chrono::NaiveDateTime>, entry: ScrobblesResEntry) -> (outcome: Result<
        Scrobble,
        RequestError,
    >)
        ensures
            scrobble_view(outcome) == scrobble_at(time, entry@),
    {
        match time {
            Some(at) => Ok(Scrobble { time: at, track: Track::from_trackres(entry.track, None) }),
            None => Err(RequestError::DecodeError(entry.time)),
        }
    }

    /// Maps an entry of a listing to a scrobble. The scrobble is at the
    /// moment that the entry's timestamp stands for, so its own timestamp is
    /// the entry's.
    pub fn from_entry(entry: ScrobblesResEntry) -> (outcome: Result<Scrobble, RequestError>)
        ensures
            scrobble_view(outcome) == mapped_scrobble(entry@),
            outcome is Ok ==> utc_seconds(outcome->Ok_0.time) == entry.time,
    {
        if entry.time > i64::MAX as u64 {
            return Err(RequestError::DecodeError(entry.time));
        }
        let time = utc_from_timestamp(entry.time as i64);
        Scrobble::at(time, entry)
    }
}

/// Maps the entries of a listing to scrobbles, in the order of the entries:
/// the scrobble at a place has the timestamp and the track of the entry at
/// that place. The first entry that cannot be mapped ends the mapping with
/// its error.
pub fn scrobbles_from_list(list: Vec<ScrobblesResEntry>) -> (outcome: Result<
    Vec<Scrobble>,
    RequestError,
>)
    ensures
        listing_view(outcome) == mapped_scrobbles(entries_view(list@)),
        outcome is Ok ==> outcome->Ok_0@.len() == list@.len(),
        outcome is Ok ==> forall|i: int|
            0 <= i < list@.len() ==> utc_seconds((#[trigger] outcome->Ok_0@[i]).time)
                == list@[i].time,
{
    let ghost entries = entries_view(list@);
    proof {
        lemma_mapping_keeps_order(entries);
    }
    let mut scrobbles: Vec<Scrobble> = Vec::new();
    assert(scrobbles_view(scrobbles@) =~= Seq::<ScrobbleView>::empty());
    for entry in it: list.into_iter()
        invariant
            it.seq() == list@,
            entries == entries_view(list@),
            mapped_scrobbles(entries.take(it.index() as int)) == Ok::<
                Seq<ScrobbleView>,
                RequestErrorView,
            >(scrobbles_view(scrobbles@)),
            scrobbles@.len() == it.index(),
            forall|i: int|
                0 <= i < scrobbles@.len() ==> utc_seconds((#[trigger] scrobbles@[i]).time)
                    == list@[i].time,
    {
        let ghost done = entries.take(it.index() as int);
        let ghost next = entries.take(it.index() + 1);
        let ghost before = scrobbles_view(scrobbles@);
        assert(next.drop_last() =~= done);
        match Scrobble::from_entry(entry) {
            Ok(scrobble) => {
                scrobbles.push(scrobble);
                assert(scrobbles_view(scrobbles@) =~= before.push(scrobble@));
            },
            Err(error) => {
                proof {
                    lemma_error_persists(entries, it.index() + 1);
                }
                return Err(error);
            },
        }
    }
    assert(entries.take(list@.len() as int) =~= entries);
    Ok(scrobbles)
}

/// Once a prefix of the entries has come to an error, the whole list comes to
/// that error.
pub proof fn lemma_error_persists(entries: Seq<ScrobblesResEntryView>, upto: int)
    requires
        0 <= upto <= entries.len(),
        mapped_scrobbles(entries.take(upto)) is Err,
    ensures
        mapped_scrobbles(entries) == mapped_scrobbles(entries.take(upto)),
    decreases entries.len() - upto,
{
    if upto == entries.len() {
        assert(entries.take(upto) =~= entries);
    } else {
        let longer = entries.take(upto + 1);
        assert(longer.drop_last() =~= entries.take(upto));
        lemma_error_persists(entries, upto + 1);
    }
}

/// Maps the list of a decoded listing. A record without a list is a server
/// error with the record's status marker: the server claimed success and
/// sent nothing. The record's error descriptor is not looked at here.
pub fn scrobbles_from_record(record: ScrobblesRes) -> (outcome: Result<Vec<Scrobble>, RequestError>)
    ensures
        listing_view(outcome) == listing_of(record@),
{
    match record.list {
        Some(list) => scrobbles_from_list(list),
        None => Err(RequestError::ServerError(record.status)),
    }
}

/// Turns what the transport and the decoder returned for a listing query into
/// the scrobbles, or into the error that stands in their way.
pub fn scrobbles_from_response(response: Result<ScrobblesRes, reqwest::Error>) -> (outcome: Result<
    Vec<Scrobble>,
    RequestError,
>)
    ensures
        listing_view(outcome) == listing_outcome(response),
{
    match handle_response(response) {
        Err(error) => Err(error),
        Ok(record) => scrobbles_from_record(record),
    }
}

/// Reads the amount out of a decoded count. A record without an amount is a
/// server error with the record's status marker: the server claimed success
/// and sent nothing. The record's error descriptor is not looked at here.
pub fn count_from_record(record: NumscrobblesRes) -> (outcome: Result<u64, RequestError>)
    ensures
        count_view(outcome) == count_of(record@),
{
    match record.amount {
        Some(amount) => Ok(amount),
        None => Err(RequestError::ServerError(record.status)),
    }
}

/// Turns what the transport and the decoder returned for a count query into
/// the amount, or into the error that stands in its way.
pub fn numscrobbles_from_response(response: Result<NumscrobblesRes, reqwest::Error>) -> (outcome:
    Result<u64, RequestError>)
    ensures
        count_view(outcome) == count_outcome(response),
{
    match handle_response(response) {
        Err(error) => Err(error),
        Ok(record) => count_from_record(record),
    }
}


/// A list comes to scrobbles exactly when every entry does, and then to as
/// many scrobbles as there are entries, each the scrobble of the entry at
/// its place.
pub proof fn lemma_mapping_keeps_order(entries: Seq<ScrobblesResEntryView>)
    ensures
        mapped_scrobbles(entries) is Ok <==> forall|i: int|
            0 <= i < entries.len() ==> (#[trigger] mapped_scrobble(entries[i])) is Ok,
        mapped_scrobbles(entries) is Ok ==> {
            &&& mapped_scrobbles(entries)->Ok_0.len() == entries.len()
            &&& forall|i: int|
                0 <= i < entries.len() ==> mapped_scrobble(#[trigger] entries[i]) == Ok::<
                    ScrobbleView,
                    RequestErrorView,
                >(mapped_scrobbles(entries)->Ok_0[i])
        },
    decreases entries.len(),
{
    if entries.len() > 0 {
        let before = entries.drop_last();
        lemma_mapping_keeps_order(before);
        assert forall|i: int| 0 <= i < before.len() implies before[i] == entries[i] by {}
        if mapped_scrobbles(entries) is Ok {
            assert forall|i: int| 0 <= i < entries.len() implies (#[trigger] mapped_scrobble(
                entries[i],
            )) is Ok by {
                if i < before.len() {
                    assert(before[i] == entries[i]);
                }
            }
            assert forall|i: int| 0 <= i < entries.len() implies mapped_scrobble(
                #[trigger] entries[i],
            ) == Ok::<ScrobbleView, RequestErrorView>(mapped_scrobbles(entries)->Ok_0[i]) by {
                if i < before.len() {
                    assert(before[i] == entries[i]);
                }
            }
        }
        if forall|i: int| 0 <= i < entries.len() ==> (#[trigger] mapped_scrobble(entries[i])) is Ok {
            assert forall|i: int| 0 <= i < before.len() implies (#[trigger] mapped_scrobble(
                before[i],
            )) is Ok by {
                assert(before[i] == entries[i]);
            }
            assert(mapped_scrobble(entries[entries.len() - 1]) is Ok);
        }
    }
}

/// Where a list comes to an error, it is the decode error of the first entry
/// whose timestamp stands for no moment.
pub proof fn lemma_first_failure_decides(entries: Seq<ScrobblesResEntryView>)
    requires
        mapped_scrobbles(entries) is Err,
    ensures
        exists|i: int|
            {
                &&& 0 <= i < entries.len()
                &&& moment(#[trigger] entries[i].time) is None
                &&& mapped_scrobbles(entries) == Err::<Seq<ScrobbleView>, RequestErrorView>(
                    RequestErrorView::DecodeError(entries[i].time),
                )
                &&& forall|j: int| 0 <= j < i ==> moment(#[trigger] entries[j].time) is Some
            },
    decreases entries.len(),
{
    let before = entries.drop_last();
    if mapped_scrobbles(before) is Err {
        lemma_first_failure_decides(before);
        let i = choose|i: int|
            {
                &&& 0 <= i < before.len()
                &&& moment(#[trigger] before[i].time) is None
                &&& mapped_scrobbles(before) == Err::<Seq<ScrobbleView>, RequestErrorView>(
                    RequestErrorView::DecodeError(before[i].time),
                )
                &&& forall|j: int| 0 <= j < i ==> moment(#[trigger] before[j].time) is Some
            };
        assert(before[i] == entries[i]);
        assert forall|j: int| 0 <= j < i implies moment(#[trigger] entries[j].time) is Some by {
            assert(before[j] == entries[j]);
        }
        assert(moment(entries[i].time) is None);
    } else {
        lemma_mapping_keeps_order(before);
        let i = entries.len() - 1;
        assert forall|j: int| 0 <= j < i implies moment(#[trigger] entries[j].time) is Some by {
            assert(before[j] == entries[j]);
            assert(mapped_scrobble(before[j]) is Ok);
        }
        assert(moment(entries[i].time) is None);
    }
}

/// A listing whose record carries an error descriptor comes to a server error
/// with the descriptor's text, whatever list the record holds.
pub proof fn lemma_descriptor_ends_listing(record: ScrobblesRes)
    requires
        record@.error is Some,
    ensures
        listing_outcome(Ok(record)) == Err::<Seq<ScrobbleView>, RequestErrorView>(
            RequestErrorView::ServerError(record@.error->0.desc),
        ),
{
}

/// A count whose record carries an error descriptor comes to a server error
/// with the descriptor's text, whatever amount the record holds.
pub proof fn lemma_descriptor_ends_count(record: NumscrobblesRes)
    requires
        record@.error is Some,
    ensures
        count_outcome(Ok(record)) == Err::<u64, RequestErrorView>(
            RequestErrorView::ServerError(record@.error->0.desc),
        ),
{
}

/// A transport failure comes to a local error with the same cause, for a
/// listing as for a count.
pub proof fn lemma_transport_failure_ends_the_operation(cause: reqwest::Error)
    ensures
        listing_outcome(Err(cause)) == Err::<Seq<ScrobbleView>, RequestErrorView>(
            RequestErrorView::LocalError(cause),
        ),
        count_outcome(Err(cause)) == Err::<u64, RequestErrorView>(RequestErrorView::LocalError(cause)),
{
}

/// A count record without an amount comes to a server error with the
/// record's status marker, and one with an amount comes to the amount.
pub proof fn lemma_count_needs_amount(record: NumscrobblesResView)
    ensures
        record.amount is None ==> count_of(record) == Err::<u64, RequestErrorView>(
            RequestErrorView::ServerError(record.status),
        ),
        record.amount is Some ==> count_of(record) == Ok::<u64, RequestErrorView>(record.amount->0),
{
}

} // verus!
