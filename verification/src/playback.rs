//! What one poll of the player reports, as plain values, and the snapshot that
//! the decision is taken on.
use crate::error::{CycleError, CycleErrorView, Field};
use vstd::prelude::*;

verus! {

/// The kind of thing a playback session is playing.
#[derive(Clone, Copy, Debug, PartialEq, Eq)]
pub enum PlayingKind {
    Track,
    Episode,
    Advertisement,
    Unknown,
}

/// The player's repeat mode.
#[derive(Clone, Copy, Debug, PartialEq, Eq)]
pub enum RepeatState {
    Off,
    Track,
    Context,
}

/// An artist as the player names it.
#[derive(Clone, Debug, PartialEq, Eq)]
pub struct Artist {
    pub name: String,
    /// The artist's pages, each under the name of the site that holds it.
    pub external_urls: Vec<(String, String)>,
}

/// The album a track belongs to.
#[derive(Clone, Debug, PartialEq, Eq)]
pub struct Album {
    pub name: String,
    pub artists: Vec<Artist>,
    /// The album's pages, each under the name of the site that holds it.
    pub external_urls: Vec<(String, String)>,
}

/// A track with everything a report is made of.
#[derive(Clone, Debug, PartialEq, Eq)]
pub struct Track {
    /// Absent on a local file.
    pub id: Option<String>,
    pub name: String,
    pub duration_ms: i64,
    pub artists: Vec<Artist>,
    pub album: Album,
    /// The track's codes in outside catalogues, each under the catalogue's
    /// name.
    pub external_ids: Vec<(String, String)>,
    /// The track's pages, each under the name of the site that holds it.
    pub external_urls: Vec<(String, String)>,
    pub disc_number: i32,
    pub track_number: u32,
}

/// The item of a session. Only a track is looked into.
#[derive(Clone, Debug, PartialEq, Eq)]
pub enum PlayableItem {
    Track(Track),
    Episode,
    Unknown,
}

/// One answer of the player: a playback session.
#[derive(Clone, Debug, PartialEq, Eq)]
pub struct Playback {
    pub currently_playing_type: PlayingKind,
    pub item: Option<PlayableItem>,
    /// The position in the item, where the player gave one.
    pub progress_ms: Option<i64>,
    pub repeat_state: RepeatState,
}

/// What the decision reads of a session that plays a track.
#[derive(Clone, Debug, PartialEq, Eq)]
pub struct Snapshot {
    pub id: String,
    pub progress_ms: i64,
    pub duration_ms: i64,
    pub is_looping: bool,
}

/// The view of [`Artist`].
#[verifier::ext_equal]
pub struct ArtistView {
    pub name: Seq<char>,
    pub external_urls: Seq<(Seq<char>, Seq<char>)>,
}

/// The view of [`Album`].
#[verifier::ext_equal]
pub struct AlbumView {
    pub name: Seq<char>,
    pub artists: Seq<ArtistView>,
    pub external_urls: Seq<(Seq<char>, Seq<char>)>,
}

/// The view of [`Track`].
#[verifier::ext_equal]
pub struct TrackView {
    pub id: Option<Seq<char>>,
    pub name: Seq<char>,
    pub duration_ms: int,
    pub artists: Seq<ArtistView>,
    pub album: AlbumView,
    pub external_ids: Seq<(Seq<char>, Seq<char>)>,
    pub external_urls: Seq<(Seq<char>, Seq<char>)>,
    pub disc_number: int,
    pub track_number: int,
}

/// The view of [`PlayableItem`].
#[verifier::ext_equal]
pub enum PlayableItemView {
    Track(TrackView),
    Episode,
    Unknown,
}

/// The view of [`Playback`].
#[verifier::ext_equal]
pub struct PlaybackView {
    pub currently_playing_type: PlayingKind,
    pub item: Option<PlayableItemView>,
    pub progress_ms: Option<int>,
    pub repeat_state: RepeatState,
}

/// The view of [`Snapshot`].
#[verifier::ext_equal]
pub struct SnapshotView {
    pub id: Seq<char>,
    pub progress_ms: int,
    pub duration_ms: int,
    pub is_looping: bool,
}

impl View for Artist {
    type V = ArtistView;

    open spec fn view(&self) -> ArtistView {
        ArtistView { name: self.name@, external_urls: self.external_urls.deep_view() }
    }
}

impl DeepView for Artist {
    type V = ArtistView;

    open spec fn deep_view(&self) -> ArtistView {
        self.view()
    }
}

impl View for Album {
    type V = AlbumView;

    open spec fn view(&self) -> AlbumView {
        AlbumView {
            name: self.name@,
            artists: self.artists.deep_view(),
            external_urls: self.external_urls.deep_view(),
        }
    }
}

impl View for Track {
    type V = TrackView;

    open spec fn view(&self) -> TrackView {
        TrackView {
            id: self.id.deep_view(),
            name: self.name@,
            duration_ms: self.duration_ms as int,
            artists: self.artists.deep_view(),
            album: self.album@,
            external_ids: self.external_ids.deep_view(),
            external_urls: self.external_urls.deep_view(),
            disc_number: self.disc_number as int,
            track_number: self.track_number as int,
        }
    }
}

impl View for PlayableItem {
    type V = PlayableItemView;

    open spec fn view(&self) -> PlayableItemView {
        match self {
            PlayableItem::Track(track) => PlayableItemView::Track(track@),
            PlayableItem::Episode => PlayableItemView::Episode,
            PlayableItem::Unknown => PlayableItemView::Unknown,
        }
    }
}

impl DeepView for PlayableItem {
    type V = PlayableItemView;

    open spec fn deep_view(&self) -> PlayableItemView {
        self.view()
    }
}

impl View for Playback {
    type V = PlaybackView;

    open spec fn view(&self) -> PlaybackView {
        PlaybackView {
            currently_playing_type: self.currently_playing_type,
            item: self.item.deep_view(),
            progress_ms: match self.progress_ms {
                Some(p) => Some(p as int),
                None => None,
            },
            repeat_state: self.repeat_state,
        }
    }
}

impl DeepView for Playback {
    type V = PlaybackView;

    open spec fn deep_view(&self) -> PlaybackView {
        self.view()
    }
}

impl View for Snapshot {
    type V = SnapshotView;

    open spec fn view(&self) -> SnapshotView {
        SnapshotView {
            id: self.id@,
            progress_ms: self.progress_ms as int,
            duration_ms: self.duration_ms as int,
            is_looping: self.is_looping,
        }
    }
}

/// The value that stands under `key`: that of the first entry with this key.
pub open spec fn entry_of(entries: Seq<(Seq<char>, Seq<char>)>, key: Seq<char>) -> Option<
    Seq<char>,
>
    decreases entries.len(),
{
    if entries.len() == 0 {
        None
    } else if entries[0].0 == key {
        Some(entries[0].1)
    } else {
        entry_of(entries.drop_first(), key)
    }
}

/// Looks up the value that stands under `key`.
pub fn entry(entries: &Vec<(String, String)>, key: &str) -> (found: Option<String>)
    ensures
        found.deep_view() == entry_of(entries.deep_view(), key@),
{
    let wanted = key.to_owned();
    let ghost all = entries.deep_view();
    let mut i: usize = 0;
    assert(all.skip(0) =~= all);
    while i < entries.len()
        invariant
            i <= entries.len(),
            all == entries.deep_view(),
            wanted@ == key@,
            entry_of(all, key@) == entry_of(all.skip(i as int), key@),
        decreases entries.len() - i,
    {
        proof {
            assert(all.skip(i as int).drop_first() =~= all.skip(i + 1));
        }
        if entries[i].0 == wanted {
            return Some(entries[i].1.clone());
        }
        i += 1;
    }
    None
}

/// The session that is worth a look: the one that plays a track. No session,
/// or one that plays something else, is nothing of interest.
pub open spec fn track_session_of(session: Option<PlaybackView>) -> Option<PlaybackView> {
    match session {
        Some(playback) => if playback.currently_playing_type == PlayingKind::Track {
            Some(playback)
        } else {
            None
        },
        None => None,
    }
}

/// The track that a session carries, or why it cannot be used: no item at all,
/// or an item that is no track.
pub open spec fn track_in(playback: PlaybackView) -> Result<TrackView, CycleErrorView> {
    match playback.item {
        None => Err(CycleErrorView::MissingField(Field::Item)),
        Some(PlayableItemView::Track(track)) => Ok(track),
        Some(_) => Err(CycleErrorView::UnexpectedContent),
    }
}

/// The snapshot of a session: the track's identifier and length, the position
/// (zero where the player gave none), and whether any repeat mode is on.
pub open spec fn snapshot_in(playback: PlaybackView) -> Result<SnapshotView, CycleErrorView> {
    match track_in(playback) {
        Err(e) => Err(e),
        Ok(track) => match track.id {
            None => Err(CycleErrorView::MissingField(Field::TrackId)),
            Some(id) => Ok(
                SnapshotView {
                    id,
                    progress_ms: match playback.progress_ms {
                        Some(p) => p,
                        None => 0,
                    },
                    duration_ms: track.duration_ms,
                    is_looping: playback.repeat_state != RepeatState::Off,
                },
            ),
        },
    }
}

/// Keeps the player's answer only where a session exists and plays a track.
pub fn track_session(session: Option<Playback>) -> (kept: Option<Playback>)
    ensures
        kept.deep_view() == track_session_of(session.deep_view()),
        kept matches Some(playback) ==> session == Some(playback),
{
    match session {
        Some(playback) => match playback.currently_playing_type {
            PlayingKind::Track => Some(playback),
            _ => None,
        },
        None => None,
    }
}

impl Playback {
    /// The track of this session.
    pub fn track(&self) -> (found: Result<&Track, CycleError>)
        ensures
            match found {
                Ok(track) => track_in(self@) == Ok::<TrackView, CycleErrorView>(track@)
                    && self.item == Some(PlayableItem::Track(*track)),
                Err(e) => track_in(self@) == Err::<TrackView, CycleErrorView>(e@),
            },
    {
        match &self.item {
            None => Err(CycleError::MissingField(Field::Item)),
            Some(PlayableItem::Track(track)) => Ok(track),
            Some(_) => Err(CycleError::UnexpectedContent),
        }
    }

    /// The snapshot of this session.
    pub fn snapshot(&self) -> (taken: Result<Snapshot, CycleError>)
        ensures
            match taken {
                Ok(snapshot) => snapshot_in(self@) == Ok::<SnapshotView, CycleErrorView>(
                    snapshot@,
                ),
                Err(e) => snapshot_in(self@) == Err::<SnapshotView, CycleErrorView>(e@),
            },
    {
        let track = match self.track() {
            Ok(track) => track,
            Err(e) => { return Err(e); },
        };
        let id = match &track.id {
            Some(id) => id.clone(),
            None => { return Err(CycleError::MissingField(Field::TrackId)); },
        };
        let progress_ms = match self.progress_ms {
            Some(p) => p,
            None => 0,
        };
        let is_looping = match self.repeat_state {
            RepeatState::Off => false,
            _ => true,
        };
        Ok(Snapshot { id, progress_ms, duration_ms: track.duration_ms, is_looping })
    }
}

} // verus!
