//! What is sent to the listen-tracking service: the listen assembled from the
//! player's data, the identifiers merged into it, the address of the
//! identifier lookup, and the reading of the service's answer.
use crate::clock::Clock;
use crate::error::{CycleError, CycleErrorView, Field};
use crate::listenbrainz_models::{
    AdditionalInfo, AdditionalInfoView, ListenBrainzMBIDLookup, ListenType, LookupView, Payload,
    PayloadView, Scrobble, ScrobbleView, TrackMetadata, TrackMetadataView,
};
use crate::playback::{entry, entry_of, Artist, ArtistView, Track, TrackView};
use vstd::prelude::*;
use vstd::string::*;

verus! {

/// The names of the artists, in their order.
pub open spec fn names_of(artists: Seq<ArtistView>) -> Seq<Seq<char>> {
    artists.map_values(|artist: ArtistView| artist.name)
}

/// The key under which a track's recording code stands among its codes.
pub const ISRC_KEY: &'static str = "isrc";

/// The key under which the music service's page stands among the pages of a
/// track, an album or an artist.
pub const SPOTIFY_KEY: &'static str = "spotify";

/// The recording code among a track's codes.
pub open spec fn isrc_in(external_ids: Seq<(Seq<char>, Seq<char>)>) -> Option<Seq<char>> {
    entry_of(external_ids, ISRC_KEY@)
}

/// The music service's page among the pages of a track, an album or an artist.
pub open spec fn link_in(external_urls: Seq<(Seq<char>, Seq<char>)>) -> Option<Seq<char>> {
    entry_of(external_urls, SPOTIFY_KEY@)
}

/// Every artist has a link.
pub open spec fn all_linked(artists: Seq<ArtistView>) -> bool {
    forall|i: int| 0 <= i < artists.len() ==> link_in((#[trigger] artists[i]).external_urls) is Some
}

/// The links of the artists, in their order.
pub open spec fn links_of(artists: Seq<ArtistView>) -> Seq<Seq<char>> {
    artists.map_values(|artist: ArtistView| link_in(artist.external_urls)->0)
}

/// The first required field that the track lacks, in the order in which a
/// listen takes them up.
pub open spec fn missing_field(track: TrackView) -> Option<Field> {
    if isrc_in(track.external_ids) is None {
        Some(Field::Isrc)
    } else if !all_linked(track.artists) {
        Some(Field::ArtistUrl)
    } else if !all_linked(track.album.artists) {
        Some(Field::AlbumArtistUrl)
    } else if link_in(track.album.external_urls) is None {
        Some(Field::AlbumUrl)
    } else if link_in(track.external_urls) is None {
        Some(Field::TrackUrl)
    } else {
        None
    }
}

/// The listen that reports `track`: a now-playing notification without a
/// time, or a completed listen heard at `at`. Names and numbers are the
/// track's own; no catalogue identifier is set.
pub open spec fn listen_of(track: TrackView, now_playing: bool, at: int) -> ScrobbleView {
    ScrobbleView {
        listen_type: if now_playing {
            ListenType::PlayingNow
        } else {
            ListenType::Single
        },
        payload: seq![
            PayloadView {
                listened_at: if now_playing {
                    None
                } else {
                    Some(at)
                },
                track_metadata: TrackMetadataView {
                    additional_info: AdditionalInfoView {
                        release_mbid: None,
                        artist_mbids: None,
                        recording_mbid: None,
                        artist_names: names_of(track.artists),
                        discnumber: track.disc_number,
                        duration_ms: track.duration_ms,
                        isrc: isrc_in(track.external_ids)->0,
                        music_service: "spotify.com"@,
                        origin_url: link_in(track.external_urls)->0,
                        release_artist_names: names_of(track.album.artists),
                        spotify_album_artist_ids: links_of(track.album.artists),
                        spotify_album_id: link_in(track.album.external_urls)->0,
                        spotify_artist_ids: links_of(track.artists),
                        spotify_id: link_in(track.external_urls)->0,
                        submission_client: "github.com/thrzl/spotbrainz"@,
                        tracknumber: track.track_number,
                    },
                    artist_name: if track.artists.len() > 0 {
                        track.artists[0].name
                    } else {
                        Seq::empty()
                    },
                    track_name: track.name,
                    release_name: track.album.name,
                },
            },
        ],
    }
}

/// The names of the artists, in their order.
pub fn artist_names(artists: &Vec<Artist>) -> (names: Vec<String>)
    ensures
        names.deep_view() == names_of(artists.deep_view()),
{
    let mut names: Vec<String> = Vec::new();
    let mut i: usize = 0;
    while i < artists.len()
        invariant
            i <= artists.len(),
            names.len() == i,
            forall|k: int| 0 <= k < i ==> (#[trigger] names[k])@ == artists[k].name@,
        decreases artists.len() - i,
    {
        names.push(artists[i].name.clone());
        i += 1;
    }
    assert(names.deep_view() =~= names_of(artists.deep_view()));
    names
}

/// The links of the artists, in their order, if each of them has one.
pub fn artist_links(artists: &Vec<Artist>) -> (links: Option<Vec<String>>)
    ensures
        links is Some <==> all_linked(artists.deep_view()),
        links matches Some(found) ==> found.deep_view() == links_of(artists.deep_view()),
{
    let mut found: Vec<String> = Vec::new();
    let mut i: usize = 0;
    while i < artists.len()
        invariant
            i <= artists.len(),
            found.len() == i,
            forall|k: int| 0 <= k < i ==> link_in((#[trigger] artists[k])@.external_urls) is Some,
            forall|k: int|
                0 <= k < i ==> (#[trigger] found[k])@ == link_in(artists[k]@.external_urls)->0,
        decreases artists.len() - i,
    {
        match entry(&artists[i].external_urls, SPOTIFY_KEY) {
            Some(link) => {
                found.push(link);
            },
            None => {
                assert(link_in(artists.deep_view()[i as int].external_urls) is None);
                return None;
            },
        }
        i += 1;
    }
    assert(found.deep_view() =~= links_of(artists.deep_view()));
    Some(found)
}

/// The address of the service's endpoint for submissions.
pub const SUBMIT_URL: &'static str = "https://api.listenbrainz.org/1/submit-listens";

/// The artist credit of a track: the names of its artists, one after the
/// other with nothing between them.
pub open spec fn credit_of(artists: Seq<ArtistView>) -> Seq<char> {
    names_of(artists).flatten()
}

/// The address at which the identifiers of a recording are looked up. The
/// three names go into the query as they are.
pub open spec fn lookup_url_of(
    track_name: Seq<char>,
    artist_credit_name: Seq<char>,
    release_name: Seq<char>,
) -> Seq<char> {
    "https://api.listenbrainz.org/1/metadata/lookup/?artist_name="@ + artist_credit_name
        + "&recording_name="@ + track_name + "&release_name="@ + release_name
}

/// The address of the lookup for a track.
pub open spec fn lookup_of(track: TrackView) -> Seq<char> {
    lookup_url_of(track.name, credit_of(track.artists), track.album.name)
}

/// The listen with the identifiers of a lookup merged into its first entry.
/// Without a lookup, or without an entry, the listen is as it was.
pub open spec fn enriched(listen: ScrobbleView, mapping: Option<LookupView>) -> ScrobbleView {
    match mapping {
        Some(found) if listen.payload.len() > 0 => {
            let first = listen.payload[0];
            let info = first.track_metadata.additional_info;
            ScrobbleView {
                payload: listen.payload.update(
                    0,
                    PayloadView {
                        track_metadata: TrackMetadataView {
                            additional_info: AdditionalInfoView {
                                artist_mbids: Some(found.artist_mbids),
                                release_mbid: Some(found.release_mbid),
                                recording_mbid: Some(found.recording_mbid),
                                ..info
                            },
                            ..first.track_metadata
                        },
                        ..first
                    },
                ),
                ..listen
            }
        },
        _ => listen,
    }
}

/// A status in the range of success, 200 to 299.
pub open spec fn is_success(status: int) -> bool {
    200 <= status < 300
}

/// What a response to a submission amounts to: nothing to report on success,
/// else the status together with the body, or with a placeholder where the
/// body could not be read.
pub open spec fn response_outcome(status: int, body: Option<Seq<char>>) -> Result<
    (),
    CycleErrorView,
> {
    if is_success(status) {
        Ok(())
    } else {
        Err(
            CycleErrorView::Rejected {
                status,
                body: match body {
                    Some(text) => text,
                    None => "no response at all"@,
                },
            },
        )
    }
}

/// The artist credit of a track.
pub fn artist_credit(artists: &Vec<Artist>) -> (credit: String)
    ensures
        credit@ == credit_of(artists.deep_view()),
{
    let mut credit = String::new();
    let mut i: usize = 0;
    let ghost names = names_of(artists.deep_view());
    while i < artists.len()
        invariant
            i <= artists.len(),
            names == names_of(artists.deep_view()),
            credit@ == names.take(i as int).flatten(),
        decreases artists.len() - i,
    {
        proof {
            assert(names.take(i + 1) =~= names.take(i as int).push(artists[i as int].name@));
            names.take(i as int).lemma_flatten_push(artists[i as int].name@);
        }
        credit.append(artists[i].name.as_str());
        i += 1;
    }
    assert(names.take(i as int) =~= names);
    credit
}

/// The address at which the identifiers of a recording are looked up.
pub fn lookup_url(track_name: &str, artist_credit_name: &str, release_name: &str) -> (url: String)
    ensures
        url@ == lookup_url_of(track_name@, artist_credit_name@, release_name@),
{
    let mut url = String::from_str("https://api.listenbrainz.org/1/metadata/lookup/?artist_name=");
    url.append(artist_credit_name);
    url.append("&recording_name=");
    url.append(track_name);
    url.append("&release_name=");
    url.append(release_name);
    url
}

/// Assembles the listen that reports `track`, heard at `at` where it is a
/// completed one, or names the first required field that the track lacks.
pub fn build_listen(track: &Track, now_playing: bool, at: i64) -> (built: Result<
    Scrobble,
    CycleError,
>)
    ensures
        match built {
            Ok(listen) => missing_field(track@) is None && listen@ == listen_of(
                track@,
                now_playing,
                at as int,
            ),
            Err(e) => missing_field(track@) matches Some(field) && e@
                == CycleErrorView::MissingField(field),
        },
{
    let listened_at = if now_playing {
        None
    } else {
        Some(at)
    };
    let artist_name = if track.artists.len() > 0 {
        track.artists[0].name.clone()
    } else {
        String::new()
    };
    let isrc = match entry(&track.external_ids, ISRC_KEY) {
        Some(code) => code,
        None => { return Err(CycleError::MissingField(Field::Isrc)); },
    };
    let spotify_artist_ids = match artist_links(&track.artists) {
        Some(links) => links,
        None => { return Err(CycleError::MissingField(Field::ArtistUrl)); },
    };
    let spotify_album_artist_ids = match artist_links(&track.album.artists) {
        Some(links) => links,
        None => { return Err(CycleError::MissingField(Field::AlbumArtistUrl)); },
    };
    let spotify_album_id = match entry(&track.album.external_urls, SPOTIFY_KEY) {
        Some(link) => link,
        None => { return Err(CycleError::MissingField(Field::AlbumUrl)); },
    };
    let spotify_id = match entry(&track.external_urls, SPOTIFY_KEY) {
        Some(link) => link,
        None => { return Err(CycleError::MissingField(Field::TrackUrl)); },
    };
    let entry = Payload {
        listened_at,
        track_metadata: TrackMetadata {
            artist_name,
            track_name: track.name.clone(),
            release_name: track.album.name.clone(),
            additional_info: AdditionalInfo {
                music_service: String::from_str("spotify.com"),
                submission_client: String::from_str("github.com/thrzl/spotbrainz"),
                isrc,
                duration_ms: track.duration_ms,
                artist_names: artist_names(&track.artists),
                spotify_artist_ids,
                release_artist_names: artist_names(&track.album.artists),
                spotify_album_artist_ids,
                spotify_album_id,
                discnumber: track.disc_number,
                origin_url: spotify_id.clone(),
                spotify_id,
                tracknumber: track.track_number,
                artist_mbids: None,
                release_mbid: None,
                recording_mbid: None,
            },
        },
    };
    let mut payload: Vec<Payload> = Vec::new();
    payload.push(entry);
    let listen = Scrobble {
        listen_type: if now_playing {
            ListenType::PlayingNow
        } else {
            ListenType::Single
        },
        payload,
    };
    assert(listen@.payload =~= listen_of(track@, now_playing, at as int).payload);
    Ok(listen)
}

/// Assembles the listen that reports `track`, a completed one heard at the
/// time the system clock shows, or names the first required field that the
/// track lacks.
pub fn prepare_listen(track: &Track, now_playing: bool) -> (built: Result<Scrobble, CycleError>)
    ensures
        match built {
            Ok(listen) => missing_field(track@) is None && exists|at: i64|
                listen@ == #[trigger] listen_of(track@, now_playing, at as int),
            Err(e) => missing_field(track@) matches Some(field) && e@
                == CycleErrorView::MissingField(field),
        },
{
    let at = Clock::System.time_of_listen(!now_playing);
    build_listen(track, now_playing, at)
}

/// Merges the identifiers of a lookup into a listen. Without a lookup the
/// listen goes on as it is.
pub fn with_mbids(listen: Scrobble, mapping: Option<ListenBrainzMBIDLookup>) -> (merged: Scrobble)
    ensures
        merged@ == enriched(listen@, mapping.deep_view()),
{
    let found = match mapping {
        Some(found) => found,
        None => { return listen; },
    };
    let mut payload = listen.payload;
    if payload.len() == 0 {
        return Scrobble { listen_type: listen.listen_type, payload };
    }
    let ghost before = payload.deep_view();
    let first = payload.remove(0);
    let metadata = first.track_metadata;
    let info = metadata.additional_info;
    let entry = Payload {
        listened_at: first.listened_at,
        track_metadata: TrackMetadata {
            additional_info: AdditionalInfo {
                artist_mbids: Some(found.artist_mbids),
                release_mbid: Some(found.release_mbid),
                recording_mbid: Some(found.recording_mbid),
                artist_names: info.artist_names,
                discnumber: info.discnumber,
                duration_ms: info.duration_ms,
                isrc: info.isrc,
                music_service: info.music_service,
                origin_url: info.origin_url,
                release_artist_names: info.release_artist_names,
                spotify_album_artist_ids: info.spotify_album_artist_ids,
                spotify_album_id: info.spotify_album_id,
                spotify_artist_ids: info.spotify_artist_ids,
                spotify_id: info.spotify_id,
                submission_client: info.submission_client,
                tracknumber: info.tracknumber,
            },
            artist_name: metadata.artist_name,
            track_name: metadata.track_name,
            release_name: metadata.release_name,
        },
    };
    let ghost merged_entry = entry@;
    payload.insert(0, entry);
    assert(payload.deep_view() =~= before.update(0, merged_entry));
    Scrobble { listen_type: listen.listen_type, payload }
}

/// Reads the service's answer to a submission: accepted on a status of
/// success, refused on any other.
pub fn check_response(status: u16, body: Option<String>) -> (outcome: Result<(), CycleError>)
    ensures
        match outcome {
            Ok(()) => response_outcome(status as int, body.deep_view()) is Ok,
            Err(e) => response_outcome(status as int, body.deep_view()) == Err::<
                (),
                CycleErrorView,
            >(e@),
        },
{
    if 200 <= status && status < 300 {
        Ok(())
    } else {
        let body = match body {
            Some(text) => text,
            None => String::from_str("no response at all"),
        };
        Err(CycleError::Rejected { status, body })
    }
}

} // verus!
