//! The values exchanged with the listen-tracking service: the listen that is
//! submitted, and the identifiers that its lookup returns.
//!
//! Each type has a view, a mathematical copy in which a `String` is a
//! `Seq<char>` and a `Vec` is a `Seq`. Contracts speak of the views.
use vstd::prelude::*;

verus! {

/// Whether a listen reports a finished play or one that is under way.
#[derive(Clone, Copy, Debug, PartialEq, Eq)]
pub enum ListenType {
    /// A completed listen: the authoritative record of one play.
    Single,
    /// A notification that the track is being played right now.
    PlayingNow,
}

/// A submission: the kind of listen and the listens themselves.
#[derive(Clone, Debug, PartialEq)]
pub struct Scrobble {
    pub listen_type: ListenType,
    pub payload: Vec<Payload>,
}

/// One listen: when it was heard, where that is reported, and what was heard.
#[derive(Clone, Debug, PartialEq)]
pub struct Payload {
    /// Seconds since the Unix epoch; absent on a now-playing notification.
    pub listened_at: Option<i64>,
    pub track_metadata: TrackMetadata,
}

/// The names by which a listen is shown, and the details behind them.
#[derive(Clone, Debug, PartialEq)]
pub struct TrackMetadata {
    pub additional_info: AdditionalInfo,
    pub artist_name: String,
    pub track_name: String,
    pub release_name: String,
}

/// What the player told about the track, and the catalogue identifiers where
/// the lookup found them.
#[derive(Clone, Debug, PartialEq)]
pub struct AdditionalInfo {
    pub release_mbid: Option<String>,
    pub artist_mbids: Option<Vec<String>>,
    pub recording_mbid: Option<String>,
    pub artist_names: Vec<String>,
    pub discnumber: i32,
    pub duration_ms: i64,
    pub isrc: String,
    pub music_service: String,
    pub origin_url: String,
    pub release_artist_names: Vec<String>,
    pub spotify_album_artist_ids: Vec<String>,
    pub spotify_album_id: String,
    pub spotify_artist_ids: Vec<String>,
    pub spotify_id: String,
    pub submission_client: String,
    pub tracknumber: u32,
}

/// The answer of the identifier lookup for one track.
#[derive(Clone, Debug, PartialEq)]
pub struct ListenBrainzMBIDLookup {
    pub artist_credit_name: String,
    pub artist_mbids: Vec<String>,
    pub recording_mbid: String,
    pub recording_name: String,
    pub release_mbid: String,
    pub release_name: String,
}

/// The view of [`Scrobble`].
#[verifier::ext_equal]
pub struct ScrobbleView {
    pub listen_type: ListenType,
    pub payload: Seq<PayloadView>,
}

/// The view of [`Payload`].
#[verifier::ext_equal]
pub struct PayloadView {
    pub listened_at: Option<int>,
    pub track_metadata: TrackMetadataView,
}

/// The view of [`TrackMetadata`].
#[verifier::ext_equal]
pub struct TrackMetadataView {
    pub additional_info: AdditionalInfoView,
    pub artist_name: Seq<char>,
    pub track_name: Seq<char>,
    pub release_name: Seq<char>,
}

/// The view of [`AdditionalInfo`].
#[verifier::ext_equal]
pub struct AdditionalInfoView {
    pub release_mbid: Option<Seq<char>>,
    pub artist_mbids: Option<Seq<Seq<char>>>,
    pub recording_mbid: Option<Seq<char>>,
    pub artist_names: Seq<Seq<char>>,
    pub discnumber: int,
    pub duration_ms: int,
    pub isrc: Seq<char>,
    pub music_service: Seq<char>,
    pub origin_url: Seq<char>,
    pub release_artist_names: Seq<Seq<char>>,
    pub spotify_album_artist_ids: Seq<Seq<char>>,
    pub spotify_album_id: Seq<char>,
    pub spotify_artist_ids: Seq<Seq<char>>,
    pub spotify_id: Seq<char>,
    pub submission_client: Seq<char>,
    pub tracknumber: int,
}

/// The view of [`ListenBrainzMBIDLookup`].
#[verifier::ext_equal]
pub struct LookupView {
    pub artist_credit_name: Seq<char>,
    pub artist_mbids: Seq<Seq<char>>,
    pub recording_mbid: Seq<char>,
    pub recording_name: Seq<char>,
    pub release_mbid: Seq<char>,
    pub release_name: Seq<char>,
}

impl View for Scrobble {
    type V = ScrobbleView;

    open spec fn view(&self) -> ScrobbleView {
        ScrobbleView { listen_type: self.listen_type, payload: self.payload.deep_view() }
    }
}

impl DeepView for Scrobble {
    type V = ScrobbleView;

    open spec fn deep_view(&self) -> ScrobbleView {
        self.view()
    }
}

impl View for Payload {
    type V = PayloadView;

    open spec fn view(&self) -> PayloadView {
        PayloadView {
            listened_at: match self.listened_at {
                Some(at) => Some(at as int),
                None => None,
            },
            track_metadata: self.track_metadata@,
        }
    }
}

impl DeepView for Payload {
    type V = PayloadView;

    open spec fn deep_view(&self) -> PayloadView {
        self.view()
    }
}

impl View for TrackMetadata {
    type V = TrackMetadataView;

    open spec fn view(&self) -> TrackMetadataView {
        TrackMetadataView {
            additional_info: self.additional_info@,
            artist_name: self.artist_name@,
            track_name: self.track_name@,
            release_name: self.release_name@,
        }
    }
}

impl View for AdditionalInfo {
    type V = AdditionalInfoView;

    open spec fn view(&self) -> AdditionalInfoView {
        AdditionalInfoView {
            release_mbid: self.release_mbid.deep_view(),
            artist_mbids: self.artist_mbids.deep_view(),
            recording_mbid: self.recording_mbid.deep_view(),
            artist_names: self.artist_names.deep_view(),
            discnumber: self.discnumber as int,
            duration_ms: self.duration_ms as int,
            isrc: self.isrc@,
            music_service: self.music_service@,
            origin_url: self.origin_url@,
            release_artist_names: self.release_artist_names.deep_view(),
            spotify_album_artist_ids: self.spotify_album_artist_ids.deep_view(),
            spotify_album_id: self.spotify_album_id@,
            spotify_artist_ids: self.spotify_artist_ids.deep_view(),
            spotify_id: self.spotify_id@,
            submission_client: self.submission_client@,
            tracknumber: self.tracknumber as int,
        }
    }
}

impl View for ListenBrainzMBIDLookup {
    type V = LookupView;

    open spec fn view(&self) -> LookupView {
        LookupView {
            artist_credit_name: self.artist_credit_name@,
            artist_mbids: self.artist_mbids.deep_view(),
            recording_mbid: self.recording_mbid@,
            recording_name: self.recording_name@,
            release_mbid: self.release_mbid@,
            release_name: self.release_name@,
        }
    }
}

impl DeepView for ListenBrainzMBIDLookup {
    type V = LookupView;

    open spec fn deep_view(&self) -> LookupView {
        self.view()
    }
}

} // verus!
