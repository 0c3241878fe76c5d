//! The polling service as a machine. It holds what was last reported and what
//! it is waiting for; each outcome of outside work is handed to it as an
//! [`Event`], and it answers with the next [`Action`] to carry out.
//!
//! One cycle runs: wake, poll the player, decide, look the identifiers up,
//! submit, rest. The stored track state changes only when a submission is
//! accepted.
use crate::clock::Clock;
use crate::decision::{
    decide, fires, kind_of, should_emit, stored_after, EmitDecision, EmitDecisionView, TrackState,
    TrackStateView,
};
use crate::error::{CycleError, CycleErrorView};
use crate::listenbrainz_models::{
    ListenBrainzMBIDLookup, ListenType, LookupView, Scrobble, ScrobbleView,
};
use crate::playback::{
    snapshot_in, track_in, track_session, track_session_of, Playback, PlaybackView, PlayingKind,
};
use crate::submission::{
    artist_credit, build_listen, check_response, enriched, listen_of, lookup_of, lookup_url,
    is_success, missing_field, response_outcome, with_mbids,
};
use vstd::prelude::*;

verus! {

/// The rest between two cycles, in seconds.
pub const POLL_INTERVAL_SECS: u64 = 5;

/// What the service is waiting for.
#[derive(Clone, Debug, PartialEq)]
pub enum Phase {
    /// For the next cycle to begin.
    Idle,
    /// For the player's answer.
    Polling,
    /// For the identifiers of the track whose listen stands ready.
    Resolving { listen: Scrobble, state: TrackState },
    /// For the answer to the submission that `state` stands for.
    Submitting { state: TrackState },
}

/// The service: the last reported track state and the phase of the cycle.
#[derive(Clone, Debug, PartialEq)]
pub struct Service {
    pub last_track_state: Option<TrackState>,
    pub phase: Phase,
}

/// The outcome of the outside work that an [`Action`] asked for.
#[derive(Clone, Debug, PartialEq)]
pub enum Event {
    /// The rest is over, or the service has just been started.
    Woke,
    /// The player answered: with a session, or with none.
    Polled(Option<Playback>),
    /// The player could not be reached.
    PollFailed,
    /// The lookup is over: with identifiers, or without a usable answer.
    Resolved(Option<ListenBrainzMBIDLookup>),
    /// The listen-tracking service answered the submission; the body is
    /// absent where it could not be read.
    Responded { status: u16, body: Option<String> },
    /// The submission could not be sent.
    SendFailed,
}

/// The outside work to carry out next.
#[derive(Clone, Debug, PartialEq)]
pub enum Action {
    /// Ask the player what it plays; answer with `Polled` or `PollFailed`.
    Poll,
    /// Fetch this address and read identifiers from it; answer with `Resolved`.
    Resolve { url: String },
    /// Post this listen; answer with `Responded` or `SendFailed`.
    Submit { listen: Scrobble },
    /// Rest for so many seconds; answer with `Woke`.
    Sleep { seconds: u64 },
    /// The cycle has failed and is over; answer with `Woke` to begin the next.
    Fail(CycleError),
}

/// The view of [`Phase`].
#[verifier::ext_equal]
pub enum PhaseView {
    Idle,
    Polling,
    Resolving { listen: ScrobbleView, state: TrackStateView },
    Submitting { state: TrackStateView },
}

/// The view of [`Service`].
#[verifier::ext_equal]
pub struct ServiceView {
    pub last_track_state: Option<TrackStateView>,
    pub phase: PhaseView,
}

/// The view of [`Event`].
#[verifier::ext_equal]
pub enum EventView {
    Woke,
    Polled(Option<PlaybackView>),
    PollFailed,
    Resolved(Option<LookupView>),
    Responded { status: int, body: Option<Seq<char>> },
    SendFailed,
}

/// The view of [`Action`].
#[verifier::ext_equal]
pub enum ActionView {
    Poll,
    Resolve { url: Seq<char> },
    Submit { listen: ScrobbleView },
    Sleep { seconds: int },
    Fail(CycleErrorView),
}

impl View for Phase {
    type V = PhaseView;

    open spec fn view(&self) -> PhaseView {
        match self {
            Phase::Idle => PhaseView::Idle,
            Phase::Polling => PhaseView::Polling,
            Phase::Resolving { listen, state } => PhaseView::Resolving {
                listen: listen@,
                state: state@,
            },
            Phase::Submitting { state } => PhaseView::Submitting { state: state@ },
        }
    }
}

impl View for Service {
    type V = ServiceView;

    open spec fn view(&self) -> ServiceView {
        ServiceView {
            last_track_state: self.last_track_state.deep_view(),
            phase: self.phase@,
        }
    }
}

impl View for Event {
    type V = EventView;

    open spec fn view(&self) -> EventView {
        match self {
            Event::Woke => EventView::Woke,
            Event::Polled(session) => EventView::Polled(session.deep_view()),
            Event::PollFailed => EventView::PollFailed,
            Event::Resolved(mapping) => EventView::Resolved(mapping.deep_view()),
            Event::Responded { status, body } => EventView::Responded {
                status: *status as int,
                body: body.deep_view(),
            },
            Event::SendFailed => EventView::SendFailed,
        }
    }
}

impl View for Action {
    type V = ActionView;

    open spec fn view(&self) -> ActionView {
        match self {
            Action::Poll => ActionView::Poll,
            Action::Resolve { url } => ActionView::Resolve { url: url@ },
            Action::Submit { listen } => ActionView::Submit { listen: listen@ },
            Action::Sleep { seconds } => ActionView::Sleep { seconds: *seconds as int },
            Action::Fail(error) => ActionView::Fail(error@),
        }
    }
}

/// The end of a cycle in which nothing was to be done.
pub open spec fn rest() -> (PhaseView, ActionView) {
    (PhaseView::Idle, ActionView::Sleep { seconds: POLL_INTERVAL_SECS as int })
}

/// The end of a cycle that failed.
pub open spec fn failure(error: CycleErrorView) -> (PhaseView, ActionView) {
    (PhaseView::Idle, ActionView::Fail(error))
}

/// What follows the player's answer. No session, a session that plays no
/// track, and a snapshot that is not worth a report end the cycle in a rest. A
/// session without a usable track, and a track that lacks a required field,
/// end it in a failure. Else the listen stands ready, with `at` as its time
/// where it is a completed one, and the lookup is asked for.
pub open spec fn cycle_plan(
    last: Option<TrackStateView>,
    session: Option<PlaybackView>,
    at: int,
) -> (PhaseView, ActionView) {
    match track_session_of(session) {
        None => rest(),
        Some(playback) => match snapshot_in(playback) {
            Err(error) => failure(error),
            Ok(snapshot) => match decide(last, snapshot) {
                EmitDecisionView::Skip => rest(),
                EmitDecisionView::Emit { kind, state } => {
                    let track = track_in(playback)->Ok_0;
                    match missing_field(track) {
                        Some(field) => failure(CycleErrorView::MissingField(field)),
                        None => (
                            PhaseView::Resolving {
                                listen: listen_of(track, kind == ListenType::PlayingNow, at),
                                state,
                            },
                            ActionView::Resolve { url: lookup_of(track) },
                        ),
                    }
                },
            },
        },
    }
}

/// One step of the service: the state and the action that follow `event`.
/// `at` is the time that a completed listen assembled in this step carries.
pub open spec fn step_spec(service: ServiceView, event: EventView, at: int) -> (
    ServiceView,
    ActionView,
) {
    let last = service.last_track_state;
    match (service.phase, event) {
        (PhaseView::Idle, EventView::Woke) => (
            ServiceView { last_track_state: last, phase: PhaseView::Polling },
            ActionView::Poll,
        ),
        (PhaseView::Polling, EventView::Polled(session)) => {
            let (phase, action) = cycle_plan(last, session, at);
            (ServiceView { last_track_state: last, phase }, action)
        },
        (PhaseView::Polling, EventView::PollFailed) => (
            ServiceView { last_track_state: last, phase: PhaseView::Idle },
            ActionView::Fail(CycleErrorView::PollFailed),
        ),
        (PhaseView::Resolving { listen, state }, EventView::Resolved(mapping)) => (
            ServiceView { last_track_state: last, phase: PhaseView::Submitting { state } },
            ActionView::Submit { listen: enriched(listen, mapping) },
        ),
        (PhaseView::Submitting { state }, EventView::Responded { status, body }) => {
            match response_outcome(status, body) {
                Ok(_) => (
                    ServiceView { last_track_state: Some(state), phase: PhaseView::Idle },
                    ActionView::Sleep { seconds: POLL_INTERVAL_SECS as int },
                ),
                Err(error) => (
                    ServiceView { last_track_state: last, phase: PhaseView::Idle },
                    ActionView::Fail(error),
                ),
            }
        },
        (PhaseView::Submitting { .. }, EventView::SendFailed) => (
            ServiceView { last_track_state: last, phase: PhaseView::Idle },
            ActionView::Fail(CycleErrorView::SendFailed),
        ),
        _ => (
            ServiceView { last_track_state: last, phase: PhaseView::Idle },
            ActionView::Fail(CycleErrorView::OutOfTurn),
        ),
    }
}

/// Plans the cycle after the player's answer, and tells the time that the plan
/// was made with.
fn plan_cycle(last: &Option<TrackState>, session: Option<Playback>, clock: &Clock) -> (planned: (
    Phase,
    Action,
    Ghost<i64>,
))
    ensures
        clock matches Clock::Fixed(given) ==> planned.2@ == given,
        (planned.0@, planned.1@) == cycle_plan(
            last.deep_view(),
            session.deep_view(),
            planned.2@ as int,
        ),
{
    let ghost unread = clock.unread();
    let playback = match track_session(session) {
        Some(playback) => playback,
        None => {
            return (Phase::Idle, Action::Sleep { seconds: POLL_INTERVAL_SECS }, Ghost(unread));
        },
    };
    let snapshot = match playback.snapshot() {
        Ok(snapshot) => snapshot,
        Err(error) => {
            return (Phase::Idle, Action::Fail(error), Ghost(unread));
        },
    };
    let (kind, state) = match should_emit(last, &snapshot) {
        EmitDecision::Emit { kind, state } => (kind, state),
        EmitDecision::Skip => {
            return (Phase::Idle, Action::Sleep { seconds: POLL_INTERVAL_SECS }, Ghost(unread));
        },
    };
    let track = match playback.track() {
        Ok(track) => track,
        Err(error) => {
            return (Phase::Idle, Action::Fail(error), Ghost(unread));
        },
    };
    let now_playing = match kind {
        ListenType::PlayingNow => true,
        ListenType::Single => false,
    };
    let at = clock.time_of_listen(!now_playing);
    match build_listen(track, now_playing, at) {
        Err(error) => (Phase::Idle, Action::Fail(error), Ghost(at)),
        Ok(listen) => {
            let credit = artist_credit(&track.artists);
            let url = lookup_url(track.name.as_str(), credit.as_str(), track.album.name.as_str());
            (Phase::Resolving { listen, state }, Action::Resolve { url }, Ghost(at))
        },
    }
}

impl Service {
    /// A service that has reported nothing yet and waits to be woken.
    pub fn new() -> (service: Service)
        ensures
            service@ == (ServiceView { last_track_state: None, phase: PhaseView::Idle }),
    {
        Service { last_track_state: None, phase: Phase::Idle }
    }

    /// Takes one step with the time of `clock`, and tells the time that the
    /// step was taken with.
    fn advance(self, event: Event, clock: &Clock) -> (next: (Service, Action, Ghost<i64>))
        ensures
            clock matches Clock::Fixed(given) ==> next.2@ == given,
            (next.0@, next.1@) == step_spec(self@, event@, next.2@ as int),
    {
        let ghost unread = clock.unread();
        let last = self.last_track_state;
        match (self.phase, event) {
            (Phase::Idle, Event::Woke) => (
                Service { last_track_state: last, phase: Phase::Polling },
                Action::Poll,
                Ghost(unread),
            ),
            (Phase::Polling, Event::Polled(session)) => {
                let (phase, action, at) = plan_cycle(&last, session, clock);
                (Service { last_track_state: last, phase }, action, at)
            },
            (Phase::Polling, Event::PollFailed) => (
                Service { last_track_state: last, phase: Phase::Idle },
                Action::Fail(CycleError::PollFailed),
                Ghost(unread),
            ),
            (Phase::Resolving { listen, state }, Event::Resolved(mapping)) => (
                Service { last_track_state: last, phase: Phase::Submitting { state } },
                Action::Submit { listen: with_mbids(listen, mapping) },
                Ghost(unread),
            ),
            (Phase::Submitting { state }, Event::Responded { status, body }) => {
                match check_response(status, body) {
                    Ok(()) => (
                        Service { last_track_state: Some(state), phase: Phase::Idle },
                        Action::Sleep { seconds: POLL_INTERVAL_SECS },
                        Ghost(unread),
                    ),
                    Err(error) => (
                        Service { last_track_state: last, phase: Phase::Idle },
                        Action::Fail(error),
                        Ghost(unread),
                    ),
                }
            },
            (Phase::Submitting { .. }, Event::SendFailed) => (
                Service { last_track_state: last, phase: Phase::Idle },
                Action::Fail(CycleError::SendFailed),
                Ghost(unread),
            ),
            _ => (
                Service { last_track_state: last, phase: Phase::Idle },
                Action::Fail(CycleError::OutOfTurn),
                Ghost(unread),
            ),
        }
    }

    /// Takes one step. A completed listen assembled in it is heard at `at`.
    pub fn step_at(self, event: Event, at: i64) -> (next: (Service, Action))
        ensures
            (next.0@, next.1@) == step_spec(self@, event@, at as int),
    {
        let (service, action, _) = self.advance(event, &Clock::Fixed(at));
        (service, action)
    }

    /// Takes one step. A completed listen assembled in it is heard at the
    /// time the system clock shows.
    pub fn step(self, event: Event) -> (next: (Service, Action))
        ensures
            exists|at: i64| (next.0@, next.1@) == #[trigger] step_spec(self@, event@, at as int),
    {
        let (service, action, _) = self.advance(event, &Clock::System);
        (service, action)
    }
}

/// The stored track state changes in one way only: when the service answers
/// a submission with a status of success, it becomes the state that the
/// submission stood for. Every other step leaves it as it was.
pub proof fn law_state_follows_accepted_submissions(service: ServiceView, event: EventView, at: int)
    ensures
        step_spec(service, event, at).0.last_track_state == (match (service.phase, event) {
            (PhaseView::Submitting { state }, EventView::Responded { status, .. }) => if is_success(
                status,
            ) {
                Some(state)
            } else {
                service.last_track_state
            },
            _ => service.last_track_state,
        }),
{
}

/// A cycle that fails leaves the service idle with the stored track state
/// untouched, so the next cycle decides on the same state once more.
pub proof fn law_failed_cycle_is_decided_again(service: ServiceView, event: EventView, at: int)
    requires
        step_spec(service, event, at).1 is Fail,
    ensures
        step_spec(service, event, at).0 == (ServiceView {
            last_track_state: service.last_track_state,
            phase: PhaseView::Idle,
        }),
{
}

/// A cycle whose submission is accepted follows the decision on the snapshot:
/// where a report is due, its kind is submitted and the reported state is
/// stored, whatever the lookup found; where none is due, the service rests
/// with the stored state as it was.
pub proof fn law_accepted_cycle_follows_the_decision(
    last: Option<TrackStateView>,
    playback: PlaybackView,
    mapping: Option<LookupView>,
    at: int,
    status: int,
    body: Option<Seq<char>>,
)
    requires
        playback.currently_playing_type == PlayingKind::Track,
        snapshot_in(playback) is Ok,
        missing_field(track_in(playback)->Ok_0) is None,
        is_success(status),
    ensures
        ({
            let snapshot = snapshot_in(playback)->Ok_0;
            let polling = ServiceView { last_track_state: last, phase: PhaseView::Polling };
            let (planned, first) = step_spec(polling, EventView::Polled(Some(playback)), at);
            let (submitting, second) = step_spec(planned, EventView::Resolved(mapping), at);
            let (done, third) = step_spec(submitting, EventView::Responded { status, body }, at);
            let rest = ActionView::Sleep { seconds: POLL_INTERVAL_SECS as int };
            if fires(last, snapshot) {
                &&& first is Resolve
                &&& second matches ActionView::Submit { listen }
                &&& listen.listen_type == kind_of(snapshot)
                &&& third == rest
                &&& done == ServiceView {
                    last_track_state: stored_after(last, snapshot),
                    phase: PhaseView::Idle,
                }
            } else {
                &&& first == rest
                &&& planned == ServiceView { last_track_state: last, phase: PhaseView::Idle }
            }
        }),
{
}

/// A lookup without a usable answer holds nothing up. Where a report is due,
/// the listen that was assembled is submitted as it is, with no catalogue
/// identifier set, and once it is accepted the state it stands for is stored
/// and the service rests.
pub proof fn law_lookup_failure_does_not_block(
    last: Option<TrackStateView>,
    session: Option<PlaybackView>,
    at: int,
    status: int,
    body: Option<Seq<char>>,
)
    requires
        cycle_plan(last, session, at).1 is Resolve,
        is_success(status),
    ensures
        ({
            let polling = ServiceView { last_track_state: last, phase: PhaseView::Polling };
            let (resolving, _) = step_spec(polling, EventView::Polled(session), at);
            let (submitting, submit) = step_spec(resolving, EventView::Resolved(None), at);
            let (done, rest) = step_spec(submitting, EventView::Responded { status, body }, at);
            &&& resolving.phase matches PhaseView::Resolving { listen, state }
            &&& submit == ActionView::Submit { listen }
            &&& listen.payload.len() == 1
            &&& listen.payload[0].track_metadata.additional_info.release_mbid is None
            &&& listen.payload[0].track_metadata.additional_info.artist_mbids is None
            &&& listen.payload[0].track_metadata.additional_info.recording_mbid is None
            &&& rest == ActionView::Sleep { seconds: POLL_INTERVAL_SECS as int }
            &&& done == ServiceView { last_track_state: Some(state), phase: PhaseView::Idle }
        }),
{
}

} // verus!
