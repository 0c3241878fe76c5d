use spotbrainz::decision::TrackState;
use spotbrainz::error::{CycleError, Field};
use spotbrainz::listenbrainz_models::{ListenBrainzMBIDLookup, ListenType, Scrobble};
use spotbrainz::playback::{Album, Artist, PlayableItem, Playback, PlayingKind, RepeatState, Track};
use spotbrainz::service::{Action, Event, Phase, Service, POLL_INTERVAL_SECS};
use spotbrainz::submission::build_listen;

fn spotify(url: &str) -> Vec<(String, String)> {
    vec![("spotify".to_string(), url.to_string())]
}

fn track(id: &str, duration_ms: i64) -> Track {
    Track {
        id: Some(id.to_string()),
        name: format!("Song {id}"),
        duration_ms,
        artists: vec![
            Artist { name: "First".to_string(), external_urls: spotify("a1") },
            Artist { name: "Second".to_string(), external_urls: spotify("a2") },
        ],
        album: Album {
            name: "Record".to_string(),
            artists: vec![Artist { name: "First".to_string(), external_urls: spotify("a1") }],
            external_urls: spotify("r"),
        },
        external_ids: vec![("isrc".to_string(), "CODE".to_string())],
        external_urls: spotify(&format!("t/{id}")),
        disc_number: 1,
        track_number: 3,
    }
}

fn playing(track: Track, progress_ms: i64, repeat_state: RepeatState) -> Option<Playback> {
    Some(Playback {
        currently_playing_type: PlayingKind::Track,
        item: Some(PlayableItem::Track(track)),
        progress_ms: Some(progress_ms),
        repeat_state,
    })
}

fn stored(id: &str, progress_ms: i64, scrobbled: bool, duration: i64) -> Option<TrackState> {
    Some(TrackState { id: id.to_string(), progress_ms, scrobbled, duration })
}

fn polling(last_track_state: Option<TrackState>) -> Service {
    Service { last_track_state, phase: Phase::Polling }
}

fn idle(last_track_state: Option<TrackState>) -> Service {
    Service { last_track_state, phase: Phase::Idle }
}

fn sleep() -> Action {
    Action::Sleep { seconds: 5 }
}

/// Runs one cycle on `session` in which the lookup finds nothing and the
/// submission is accepted; gives the listen that was submitted, if any.
fn accepted_cycle(service: Service, session: Option<Playback>, at: i64) -> (Service, Option<Scrobble>) {
    let (service, action) = service.step_at(Event::Woke, at);
    assert_eq!(action, Action::Poll);
    let (service, action) = service.step_at(Event::Polled(session), at);
    match action {
        Action::Sleep { seconds } => {
            assert_eq!(seconds, 5);
            (service, None)
        }
        Action::Resolve { .. } => {
            let (service, action) = service.step_at(Event::Resolved(None), at);
            let listen = match action {
                Action::Submit { listen } => listen,
                other => panic!("expected a submission, got {other:?}"),
            };
            let (service, action) =
                service.step_at(Event::Responded { status: 200, body: Some("ok".to_string()) }, at);
            assert_eq!(action, sleep());
            (service, Some(listen))
        }
        other => panic!("unexpected action {other:?}"),
    }
}

#[test]
fn cycles_are_five_seconds_apart() {
    assert_eq!(POLL_INTERVAL_SECS, 5);
}

#[test]
fn new_service_has_reported_nothing() {
    assert_eq!(Service::new(), idle(None));
}

#[test]
fn waking_starts_a_poll() {
    let (service, action) = Service::new().step_at(Event::Woke, 0);
    assert_eq!(action, Action::Poll);
    assert_eq!(service, polling(None));
}

#[test]
fn end_to_end_scenario() {
    let service = Service::new();

    let (service, listen) =
        accepted_cycle(service, playing(track("T1", 200000), 0, RepeatState::Off), 1000);
    assert_eq!(listen, Some(build_listen(&track("T1", 200000), true, 0).unwrap()));
    assert_eq!(listen.unwrap().listen_type, ListenType::PlayingNow);
    assert_eq!(service, idle(stored("T1", 0, false, 200000)));

    let (service, listen) =
        accepted_cycle(service, playing(track("T1", 200000), 101000, RepeatState::Off), 2000);
    let listen = listen.unwrap();
    assert_eq!(listen, build_listen(&track("T1", 200000), false, 2000).unwrap());
    assert_eq!(listen.listen_type, ListenType::Single);
    assert_eq!(listen.payload[0].listened_at, Some(2000));
    assert_eq!(service, idle(stored("T1", 101000, true, 200000)));

    let (service, listen) =
        accepted_cycle(service, playing(track("T1", 200000), 150000, RepeatState::Off), 3000);
    assert_eq!(listen, None);
    assert_eq!(service, idle(stored("T1", 101000, true, 200000)));

    let (service, listen) =
        accepted_cycle(service, playing(track("T2", 180000), 0, RepeatState::Off), 4000);
    let listen = listen.unwrap();
    assert_eq!(listen, build_listen(&track("T2", 180000), true, 0).unwrap());
    assert_eq!(listen.listen_type, ListenType::PlayingNow);
    assert_eq!(listen.payload[0].track_metadata.track_name, "Song T2");
    assert_eq!(service, idle(stored("T2", 0, false, 180000)));
}

#[test]
fn report_asks_for_the_lookup_first() {
    let (service, action) =
        polling(None).step_at(Event::Polled(playing(track("T1", 200000), 0, RepeatState::Off)), 9);
    assert_eq!(
        action,
        Action::Resolve {
            url: "https://api.listenbrainz.org/1/metadata/lookup/?artist_name=FirstSecond&recording_name=Song T1&release_name=Record".to_string()
        }
    );
    assert_eq!(
        service,
        Service {
            last_track_state: None,
            phase: Phase::Resolving {
                listen: build_listen(&track("T1", 200000), true, 9).unwrap(),
                state: TrackState {
                    id: "T1".to_string(),
                    progress_ms: 0,
                    scrobbled: false,
                    duration: 200000
                },
            },
        }
    );
}

#[test]
fn no_session_leaves_the_state_and_rests() {
    let (service, action) = polling(stored("T1", 5, false, 10)).step_at(Event::Polled(None), 0);
    assert_eq!(action, sleep());
    assert_eq!(service, idle(stored("T1", 5, false, 10)));
}

#[test]
fn session_that_plays_no_track_leaves_the_state_and_rests() {
    let mut session = playing(track("T2", 200000), 0, RepeatState::Off).unwrap();
    session.currently_playing_type = PlayingKind::Episode;
    let (service, action) =
        polling(stored("T1", 5, false, 10)).step_at(Event::Polled(Some(session)), 0);
    assert_eq!(action, sleep());
    assert_eq!(service, idle(stored("T1", 5, false, 10)));
}

#[test]
fn snapshot_not_worth_a_report_leaves_the_state_and_rests() {
    let before = stored("T1", 0, false, 200000);
    let (service, action) = polling(before.clone())
        .step_at(Event::Polled(playing(track("T1", 200000), 60000, RepeatState::Off)), 0);
    assert_eq!(action, sleep());
    assert_eq!(service, idle(before));
}

#[test]
fn episode_in_a_track_session_fails_the_cycle() {
    let session = Playback {
        currently_playing_type: PlayingKind::Track,
        item: Some(PlayableItem::Episode),
        progress_ms: Some(0),
        repeat_state: RepeatState::Off,
    };
    let (service, action) =
        polling(stored("T1", 5, true, 10)).step_at(Event::Polled(Some(session)), 0);
    assert_eq!(action, Action::Fail(CycleError::UnexpectedContent));
    assert_eq!(service, idle(stored("T1", 5, true, 10)));
}

#[test]
fn track_session_without_item_fails_the_cycle() {
    let session = Playback {
        currently_playing_type: PlayingKind::Track,
        item: None,
        progress_ms: Some(0),
        repeat_state: RepeatState::Off,
    };
    let (service, action) = polling(None).step_at(Event::Polled(Some(session)), 0);
    assert_eq!(action, Action::Fail(CycleError::MissingField(Field::Item)));
    assert_eq!(service, idle(None));
}

#[test]
fn track_without_id_fails_the_cycle() {
    let mut local = track("T1", 200000);
    local.id = None;
    let (service, action) =
        polling(None).step_at(Event::Polled(playing(local, 0, RepeatState::Off)), 0);
    assert_eq!(action, Action::Fail(CycleError::MissingField(Field::TrackId)));
    assert_eq!(service, idle(None));
}

#[test]
fn missing_required_field_fails_the_cycle_before_anything_is_sent() {
    let mut bare = track("T1", 200000);
    bare.external_ids = vec![];
    let (service, action) =
        polling(None).step_at(Event::Polled(playing(bare, 0, RepeatState::Off)), 0);
    assert_eq!(action, Action::Fail(CycleError::MissingField(Field::Isrc)));
    assert_eq!(service, idle(None));
}

#[test]
fn missing_required_field_does_not_matter_when_nothing_is_reported() {
    let mut bare = track("T1", 200000);
    bare.external_ids = vec![];
    let before = stored("T1", 0, false, 200000);
    let (service, action) =
        polling(before.clone()).step_at(Event::Polled(playing(bare, 500, RepeatState::Off)), 0);
    assert_eq!(action, sleep());
    assert_eq!(service, idle(before));
}

#[test]
fn failed_poll_fails_the_cycle() {
    let (service, action) = polling(stored("T1", 5, true, 10)).step_at(Event::PollFailed, 0);
    assert_eq!(action, Action::Fail(CycleError::PollFailed));
    assert_eq!(service, idle(stored("T1", 5, true, 10)));
}

#[test]
fn lookup_result_goes_into_the_submission() {
    let found = ListenBrainzMBIDLookup {
        artist_credit_name: "First & Second".to_string(),
        artist_mbids: vec!["m1".to_string(), "m2".to_string()],
        recording_mbid: "rec".to_string(),
        recording_name: "Song T1".to_string(),
        release_mbid: "rel".to_string(),
        release_name: "Record".to_string(),
    };
    let (service, _) = polling(None)
        .step_at(Event::Polled(playing(track("T1", 200000), 150000, RepeatState::Off)), 77);
    let (service, action) = service.step_at(Event::Resolved(Some(found)), 78);
    let mut expected = build_listen(&track("T1", 200000), false, 77).unwrap();
    let info = &mut expected.payload[0].track_metadata.additional_info;
    info.artist_mbids = Some(vec!["m1".to_string(), "m2".to_string()]);
    info.recording_mbid = Some("rec".to_string());
    info.release_mbid = Some("rel".to_string());
    assert_eq!(action, Action::Submit { listen: expected });
    assert_eq!(
        service,
        Service {
            last_track_state: None,
            phase: Phase::Submitting {
                state: TrackState {
                    id: "T1".to_string(),
                    progress_ms: 150000,
                    scrobbled: true,
                    duration: 200000
                }
            }
        }
    );
}

#[test]
fn failed_lookup_does_not_hold_the_submission_up() {
    let (service, _) = polling(None)
        .step_at(Event::Polled(playing(track("T1", 200000), 150000, RepeatState::Off)), 77);
    let (service, action) = service.step_at(Event::Resolved(None), 78);
    let listen = match action {
        Action::Submit { listen } => listen,
        other => panic!("expected a submission, got {other:?}"),
    };
    assert_eq!(listen, build_listen(&track("T1", 200000), false, 77).unwrap());
    let info = &listen.payload[0].track_metadata.additional_info;
    assert_eq!(info.artist_mbids, None);
    assert_eq!(info.recording_mbid, None);
    assert_eq!(info.release_mbid, None);
    let (service, action) = service.step_at(Event::Responded { status: 200, body: None }, 79);
    assert_eq!(action, sleep());
    assert_eq!(service, idle(stored("T1", 150000, true, 200000)));
}

#[test]
fn refused_submission_leaves_the_state_and_is_tried_again() {
    let before = stored("T1", 0, false, 200000);
    let session = playing(track("T1", 200000), 120000, RepeatState::Off);
    let (service, first_plan) =
        polling(before.clone()).step_at(Event::Polled(session.clone()), 50);
    let (service, _) = service.step_at(Event::Resolved(None), 50);
    let (service, action) = service
        .step_at(Event::Responded { status: 500, body: Some("down".to_string()) }, 50);
    assert_eq!(
        action,
        Action::Fail(CycleError::Rejected { status: 500, body: "down".to_string() })
    );
    assert_eq!(service, idle(before));

    let (service, action) = service.step_at(Event::Woke, 50);
    assert_eq!(action, Action::Poll);
    let (_, second_plan) = service.step_at(Event::Polled(session), 50);
    assert_eq!(second_plan, first_plan);
}

#[test]
fn refused_submission_without_body_carries_the_placeholder() {
    let service = Service {
        last_track_state: None,
        phase: Phase::Submitting {
            state: TrackState { id: "T1".to_string(), progress_ms: 0, scrobbled: false, duration: 1 },
        },
    };
    let (service, action) = service.step_at(Event::Responded { status: 404, body: None }, 0);
    assert_eq!(
        action,
        Action::Fail(CycleError::Rejected { status: 404, body: "no response at all".to_string() })
    );
    assert_eq!(service, idle(None));
}

#[test]
fn unsent_submission_leaves_the_state() {
    let before = stored("T0", 1, true, 2);
    let service = Service {
        last_track_state: before.clone(),
        phase: Phase::Submitting {
            state: TrackState { id: "T1".to_string(), progress_ms: 0, scrobbled: false, duration: 1 },
        },
    };
    let (service, action) = service.step_at(Event::SendFailed, 0);
    assert_eq!(action, Action::Fail(CycleError::SendFailed));
    assert_eq!(service, idle(before));
}

#[test]
fn event_out_of_turn_fails_the_cycle_and_keeps_the_state() {
    let before = stored("T1", 5, true, 10);
    let events = [
        Event::Polled(None),
        Event::PollFailed,
        Event::Resolved(None),
        Event::Responded { status: 200, body: None },
        Event::SendFailed,
    ];
    for event in events {
        let (service, action) = idle(before.clone()).step_at(event, 0);
        assert_eq!(action, Action::Fail(CycleError::OutOfTurn));
        assert_eq!(service, idle(before.clone()));
    }
    let (service, action) = polling(before.clone()).step_at(Event::Woke, 0);
    assert_eq!(action, Action::Fail(CycleError::OutOfTurn));
    assert_eq!(service, idle(before.clone()));
    let (service, action) =
        polling(before.clone()).step_at(Event::Responded { status: 200, body: None }, 0);
    assert_eq!(action, Action::Fail(CycleError::OutOfTurn));
    assert_eq!(service, idle(before));
}

#[test]
fn looping_track_is_reported_again_after_its_restart() {
    let service = idle(stored("T1", 150000, true, 200000));
    let (service, listen) =
        accepted_cycle(service, playing(track("T1", 200000), 3000, RepeatState::Track), 10);
    assert_eq!(listen.map(|l| l.listen_type), Some(ListenType::PlayingNow));
    assert_eq!(service, idle(stored("T1", 3000, false, 200000)));
    let (service, listen) =
        accepted_cycle(service, playing(track("T1", 200000), 8000, RepeatState::Track), 15);
    assert_eq!(listen, None);
    let (service, listen) =
        accepted_cycle(service, playing(track("T1", 200000), 103000, RepeatState::Track), 110);
    assert_eq!(listen.map(|l| l.listen_type), Some(ListenType::Single));
    assert_eq!(service, idle(stored("T1", 103000, true, 200000)));
}

#[test]
fn step_reads_the_system_clock_for_a_completed_listen() {
    let (service, action) = polling(None)
        .step(Event::Polled(playing(track("T1", 200000), 150000, RepeatState::Off)));
    assert!(matches!(action, Action::Resolve { .. }));
    let (_, action) = service.step(Event::Resolved(None));
    let listen = match action {
        Action::Submit { listen } => listen,
        other => panic!("expected a submission, got {other:?}"),
    };
    let at = listen.payload[0].listened_at.unwrap();
    assert!(at > 1_600_000_000);
    assert_eq!(listen, build_listen(&track("T1", 200000), false, at).unwrap());
}

#[test]
fn step_gives_a_now_playing_listen_no_time() {
    let (service, _) =
        polling(None).step(Event::Polled(playing(track("T1", 200000), 10, RepeatState::Off)));
    let (_, action) = service.step(Event::Resolved(None));
    assert_eq!(
        action,
        Action::Submit { listen: build_listen(&track("T1", 200000), true, 0).unwrap() }
    );
}
