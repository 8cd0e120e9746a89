//! The domain objects callers receive.

use crate::json::{TrackRes, TrackResView};
use vstd::prelude::*;

verus! {

/// A track: who made it, what it is called, and what else is known of it.
/// Two tracks with the same fields are the same track.
#[derive(Clone, Debug)]
pub struct Track {
    /// The artists, in the order given.
    pub artists: Vec<String>,
    pub title: String,
    pub album: Option<String>,
    pub album_artists: Option<Vec<String>>,
    /// The length in seconds.
    pub length: Option<u64>,
}

/// A `Track` as a mathematical value.
pub struct TrackView {
    pub artists: Seq<Seq<char>>,
    pub title: Seq<char>,
    pub album: Option<Seq<char>>,
    pub album_artists: Option<Seq<Seq<char>>>,
    pub length: Option<u64>,
}

impl View for Track {
    type V = TrackView;

    open spec fn view(&self) -> TrackView {
        TrackView {
            artists: self.artists.deep_view(),
            title: self.title@,
            album: self.album.deep_view(),
            album_artists: self.album_artists.deep_view(),
            length: self.length,
        }
    }
}

/// The artists of a mapped track. An artist named by the caller stands
/// alone, before anything the record says. Without one the record's artists
/// stand, and a record that names none leaves the track without artists.
pub open spec fn mapped_artists(
    wire: Option<Seq<Seq<char>>>,
    artist: Option<Seq<char>>,
) -> Seq<Seq<char>> {
    match artist {
        Some(name) => seq![name],
        None => match wire {
            Some(names) => names,
            None => Seq::empty(),
        },
    }
}

/// The track a wire record maps to, under an optional artist of the
/// caller's.
pub open spec fn mapped_track(track: TrackResView, artist: Option<Seq<char>>) -> TrackView {
    TrackView {
        artists: mapped_artists(track.artists, artist),
        title: track.title,
        album: track.album,
        album_artists: track.albumartists,
        length: track.length,
    }
}

impl Track {
    /// Maps a wire record to a track. `artist`, where given, takes the place
    /// of the record's own artists.
    pub fn from_trackres(track: TrackRes, artist: Option<String>) -> (mapped: Track)
        ensures
            mapped@ == mapped_track(track@, artist.deep_view()),
    {
        let artists = match artist {
            Some(name) => {
                let mut single: Vec<String> = Vec::new();
                single.push(name);
                assert(single.deep_view() =~= seq![name@]);
                single
            },
            None => match track.artists {
                Some(names) => names,
                None => {
                    let none: Vec<String> = Vec::new();
                    assert(none.deep_view() =~= Seq::<Seq<char>>::empty());
                    none
                },
            },
        };
        Track {
            artists,
            title: track.title,
            album: track.album,
            album_artists: track.albumartists,
            length: track.length,
        }
    }
}

/// An artist of the caller's is the one artist of the mapped track, whatever
/// the record names.
pub proof fn lemma_given_artist_wins(track: TrackResView, artist: Seq<char>)
    ensures
        mapped_track(track, Some(artist)).artists == seq![artist],
{
}

/// Without an artist of the caller's, everything the record holds is copied.
pub proof fn lemma_record_is_copied(track: TrackResView)
    requires
        track.artists is Some,
    ensures
        mapped_track(track, None).artists == track.artists->0,
        mapped_track(track, None).title == track.title,
        mapped_track(track, None).album == track.album,
        mapped_track(track, None).album_artists == track.albumartists,
        mapped_track(track, None).length == track.length,
{
}

} // verus!
