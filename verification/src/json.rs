//! The records exchanged with the server, in the shape the wire gives them.

use vstd::prelude::*;

verus! {

/// The error descriptor a response may carry.
#[derive(Clone, Debug)]
pub struct MalojaError {
    /// The server's machine-readable code for the failure.
    pub error_type: Option<String>,
    /// The server's description of the failure, for people to read.
    pub desc: String,
}

/// A `MalojaError` as a mathematical value.
pub struct MalojaErrorView {
    pub error_type: Option<Seq<char>>,
    pub desc: Seq<char>,
}

impl View for MalojaError {
    type V = MalojaErrorView;

    open spec fn view(&self) -> MalojaErrorView {
        MalojaErrorView { error_type: self.error_type.deep_view(), desc: self.desc@ }
    }
}

/// The view of an optional error descriptor.
pub open spec fn error_view(error: Option<MalojaError>) -> Option<MalojaErrorView> {
    match error {
        Some(e) => Some(e@),
        None => None,
    }
}

impl MalojaError {
    /// A second descriptor with the same contents.
    pub fn duplicate(&self) -> (copy: MalojaError)
        ensures
            copy@ == self@,
    {
        let error_type = match &self.error_type {
            Some(code) => Some(code.clone()),
            None => None,
        };
        MalojaError { error_type, desc: self.desc.clone() }
    }
}

/// What every response record has in common: it may carry an error
/// descriptor, whatever else it holds.
pub trait MalojaResponse: Sized {
    /// The error descriptor of the record.
    spec fn error_descriptor(&self) -> Option<MalojaErrorView>;

    /// Extracts the error descriptor, if there is one.
    fn get_error(&self) -> (error: Option<MalojaError>)
        ensures
            error_view(error) == self.error_descriptor(),
    ;
}

/// A track as the server describes it.
#[derive(Clone, Debug)]
pub struct TrackRes {
    pub artists: Option<Vec<String>>,
    pub title: String,
    pub album: Option<String>,
    pub albumartists: Option<Vec<String>>,
    pub length: Option<u64>,
}

/// A `TrackRes` as a mathematical value.
pub struct TrackResView {
    pub artists: Option<Seq<Seq<char>>>,
    pub title: Seq<char>,
    pub album: Option<Seq<char>>,
    pub albumartists: Option<Seq<Seq<char>>>,
    pub length: Option<u64>,
}

impl View for TrackRes {
    type V = TrackResView;

    open spec fn view(&self) -> TrackResView {
        TrackResView {
            artists: self.artists.deep_view(),
            title: self.title@,
            album: self.album.deep_view(),
            albumartists: self.albumartists.deep_view(),
            length: self.length,
        }
    }
}

/// One entry of a listing: when the track was played, in seconds since the
/// Unix epoch, and the track.
#[derive(Clone, Debug)]
pub struct ScrobblesResEntry {
    pub time: u64,
    pub track: TrackRes,
}

/// A `ScrobblesResEntry` as a mathematical value.
pub struct ScrobblesResEntryView {
    pub time: u64,
    pub track: TrackResView,
}

impl View for ScrobblesResEntry {
    type V = ScrobblesResEntryView;

    open spec fn view(&self) -> ScrobblesResEntryView {
        ScrobblesResEntryView { time: self.time, track: self.track@ }
    }
}

/// The views of the entries of a list, in order.
pub open spec fn entries_view(list: Seq<ScrobblesResEntry>) -> Seq<ScrobblesResEntryView> {
    Seq::new(list.len(), |i: int| list[i]@)
}

/// The submission of a single scrobble.
#[derive(Clone, Debug)]
pub struct ScrobbleReq {
    pub artist: Option<String>,
    pub artists: Option<Vec<String>>,
    pub title: String,
    pub album: Option<String>,
    pub albumartists: Option<Vec<String>>,
    pub duration: Option<u64>,
    pub length: Option<u64>,
    pub time: Option<u64>,
    pub key: String,
}

/// A `ScrobbleReq` as a mathematical value.
pub struct ScrobbleReqView {
    pub artist: Option<Seq<char>>,
    pub artists: Option<Seq<Seq<char>>>,
    pub title: Seq<char>,
    pub album: Option<Seq<char>>,
    pub albumartists: Option<Seq<Seq<char>>>,
    pub duration: Option<u64>,
    pub length: Option<u64>,
    pub time: Option<u64>,
    pub key: Seq<char>,
}

impl View for ScrobbleReq {
    type V = ScrobbleReqView;

    open spec fn view(&self) -> ScrobbleReqView {
        ScrobbleReqView {
            artist: self.artist.deep_view(),
            artists: self.artists.deep_view(),
            title: self.title@,
            album: self.album.deep_view(),
            albumartists: self.albumartists.deep_view(),
            duration: self.duration,
            length: self.length,
            time: self.time,
            key: self.key@,
        }
    }
}

/// The query of a listing or of a count. The field `_in` goes out under the
/// key `in`.
#[derive(Clone, Debug)]
pub struct ScrobblesReq {
    pub from: Option<i64>,
    pub until: Option<i64>,
    pub _in: Option<String>,
    pub artist: Option<String>,
    pub page: Option<u64>,
    pub perpage: Option<u64>,
}

/// A `ScrobblesReq` as a mathematical value.
pub struct ScrobblesReqView {
    pub from: Option<i64>,
    pub until: Option<i64>,
    pub _in: Option<Seq<char>>,
    pub artist: Option<Seq<char>>,
    pub page: Option<u64>,
    pub perpage: Option<u64>,
}

impl View for ScrobblesReq {
    type V = ScrobblesReqView;

    open spec fn view(&self) -> ScrobblesReqView {
        ScrobblesReqView {
            from: self.from,
            until: self.until,
            _in: self._in.deep_view(),
            artist: self.artist.deep_view(),
            page: self.page,
            perpage: self.perpage,
        }
    }
}

/// The acknowledgment of a submission.
#[derive(Clone, Debug)]
pub struct ScrobbleRes {
    pub status: String,
    pub error: Option<MalojaError>,
}

/// A `ScrobbleRes` as a mathematical value.
pub struct ScrobbleResView {
    pub status: Seq<char>,
    pub error: Option<MalojaErrorView>,
}

impl View for ScrobbleRes {
    type V = ScrobbleResView;

    open spec fn view(&self) -> ScrobbleResView {
        ScrobbleResView { status: self.status@, error: error_view(self.error) }
    }
}

/// The answer to a listing query.
#[derive(Clone, Debug)]
pub struct ScrobblesRes {
    pub status: String,
    pub error: Option<MalojaError>,
    pub list: Option<Vec<ScrobblesResEntry>>,
}

/// A `ScrobblesRes` as a mathematical value.
pub struct ScrobblesResView {
    pub status: Seq<char>,
    pub error: Option<MalojaErrorView>,
    pub list: Option<Seq<ScrobblesResEntryView>>,
}

impl View for ScrobblesRes {
    type V = ScrobblesResView;

    open spec fn view(&self) -> ScrobblesResView {
        ScrobblesResView {
            status: self.status@,
            error: error_view(self.error),
            list: match self.list {
                Some(list) => Some(entries_view(list@)),
                None => None,
            },
        }
    }
}

/// The answer to a count query.
#[derive(Clone, Debug)]
pub struct NumscrobblesRes {
    pub status: String,
    pub error: Option<MalojaError>,
    pub amount: Option<u64>,
}

/// A `NumscrobblesRes` as a mathematical value.
pub struct NumscrobblesResView {
    pub status: Seq<char>,
    pub error: Option<MalojaErrorView>,
    pub amount: Option<u64>,
}

impl View for NumscrobblesRes {
    type V = NumscrobblesResView;

    open spec fn view(&self) -> NumscrobblesResView {
        NumscrobblesResView {
            status: self.status@,
            error: error_view(self.error),
            amount: self.amount,
        }
    }
}

/// Extracts the descriptor of an optional error field.
fn error_of(error: &Option<MalojaError>) -> (copy: Option<MalojaError>)
    ensures
        error_view(copy) == error_view(*error),
{
    match error {
        Some(e) => Some(e.duplicate()),
        None => None,
    }
}

impl MalojaResponse for ScrobbleRes {
    open spec fn error_descriptor(&self) -> Option<MalojaErrorView> {
        self@.error
    }

    fn get_error(&self) -> (error: Option<MalojaError>) {
        error_of(&self.error)
    }
}

impl MalojaResponse for ScrobblesRes {
    open spec fn error_descriptor(&self) -> Option<MalojaErrorView> {
        self@.error
    }

    fn get_error(&self) -> (error: Option<MalojaError>) {
        error_of(&self.error)
    }
}

impl MalojaResponse for NumscrobblesRes {
    open spec fn error_descriptor(&self) -> Option<MalojaErrorView> {
        self@.error
    }

    fn get_error(&self) -> (error: Option<MalojaError>) {
        error_of(&self.error)
    }
}

} // verus!
