use spotbrainz::error::{CycleError, Field};
use spotbrainz::playback::{
    entry, track_session, Album, Artist, PlayableItem, Playback, PlayingKind, RepeatState,
    Snapshot, Track,
};

fn pair(key: &str, value: &str) -> (String, String) {
    (key.to_string(), value.to_string())
}

fn some_track(id: Option<&str>) -> Track {
    Track {
        id: id.map(|s| s.to_string()),
        name: "Song".to_string(),
        duration_ms: 200000,
        artists: vec![Artist {
            name: "Band".to_string(),
            external_urls: vec![pair("spotify", "a-url")],
        }],
        album: Album {
            name: "Record".to_string(),
            artists: vec![],
            external_urls: vec![pair("spotify", "r-url")],
        },
        external_ids: vec![pair("isrc", "CODE")],
        external_urls: vec![pair("spotify", "t-url")],
        disc_number: 1,
        track_number: 2,
    }
}

fn session(kind: PlayingKind, item: Option<PlayableItem>) -> Playback {
    Playback {
        currently_playing_type: kind,
        item,
        progress_ms: Some(1234),
        repeat_state: RepeatState::Off,
    }
}

#[test]
fn no_session_is_nothing_of_interest() {
    assert_eq!(track_session(None), None);
}

#[test]
fn session_that_plays_a_track_is_kept() {
    let playing = session(PlayingKind::Track, Some(PlayableItem::Track(some_track(Some("T1")))));
    assert_eq!(track_session(Some(playing.clone())), Some(playing));
}

#[test]
fn session_that_plays_something_else_is_dropped() {
    for kind in [PlayingKind::Episode, PlayingKind::Advertisement, PlayingKind::Unknown] {
        let playing = session(kind, Some(PlayableItem::Track(some_track(Some("T1")))));
        assert_eq!(track_session(Some(playing)), None);
        assert_eq!(track_session(Some(session(kind, None))), None);
    }
}

#[test]
fn snapshot_holds_id_position_length_and_loop_mode() {
    let playing = session(PlayingKind::Track, Some(PlayableItem::Track(some_track(Some("T1")))));
    assert_eq!(
        playing.snapshot(),
        Ok(Snapshot {
            id: "T1".to_string(),
            progress_ms: 1234,
            duration_ms: 200000,
            is_looping: false
        })
    );
}

#[test]
fn missing_position_counts_as_zero() {
    let mut playing =
        session(PlayingKind::Track, Some(PlayableItem::Track(some_track(Some("T1")))));
    playing.progress_ms = None;
    assert_eq!(playing.snapshot().map(|s| s.progress_ms), Ok(0));
}

#[test]
fn any_repeat_mode_but_off_is_looping() {
    let mut playing =
        session(PlayingKind::Track, Some(PlayableItem::Track(some_track(Some("T1")))));
    playing.repeat_state = RepeatState::Track;
    assert_eq!(playing.snapshot().map(|s| s.is_looping), Ok(true));
    playing.repeat_state = RepeatState::Context;
    assert_eq!(playing.snapshot().map(|s| s.is_looping), Ok(true));
    playing.repeat_state = RepeatState::Off;
    assert_eq!(playing.snapshot().map(|s| s.is_looping), Ok(false));
}

#[test]
fn session_without_item_lacks_a_required_field() {
    let playing = session(PlayingKind::Track, None);
    assert_eq!(playing.snapshot(), Err(CycleError::MissingField(Field::Item)));
    assert_eq!(playing.track(), Err(CycleError::MissingField(Field::Item)));
}

#[test]
fn item_that_is_no_track_is_unexpected_content() {
    let episode = session(PlayingKind::Track, Some(PlayableItem::Episode));
    assert_eq!(episode.snapshot(), Err(CycleError::UnexpectedContent));
    assert_eq!(episode.track(), Err(CycleError::UnexpectedContent));
    let unknown = session(PlayingKind::Track, Some(PlayableItem::Unknown));
    assert_eq!(unknown.snapshot(), Err(CycleError::UnexpectedContent));
}

#[test]
fn track_without_id_lacks_a_required_field() {
    let playing = session(PlayingKind::Track, Some(PlayableItem::Track(some_track(None))));
    assert_eq!(playing.snapshot(), Err(CycleError::MissingField(Field::TrackId)));
    assert_eq!(playing.track(), Ok(&some_track(None)));
}

#[test]
fn entry_is_found_by_its_key() {
    let entries = vec![pair("ean", "1"), pair("isrc", "2"), pair("upc", "3")];
    assert_eq!(entry(&entries, "isrc"), Some("2".to_string()));
    assert_eq!(entry(&entries, "ean"), Some("1".to_string()));
    assert_eq!(entry(&entries, "upc"), Some("3".to_string()));
}

#[test]
fn entry_under_another_key_is_not_found() {
    let entries = vec![pair("ean", "1"), pair("upc", "3")];
    assert_eq!(entry(&entries, "isrc"), None);
    assert_eq!(entry(&entries, "ISRC"), None);
    assert_eq!(entry(&entries, ""), None);
    assert_eq!(entry(&vec![], "isrc"), None);
}

#[test]
fn first_entry_with_the_key_counts() {
    let entries = vec![pair("spotify", "first"), pair("spotify", "second")];
    assert_eq!(entry(&entries, "spotify"), Some("first".to_string()));
}
