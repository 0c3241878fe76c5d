//! When a play is reported: the rule that turns repeated snapshots of one
//! player into reports without gaps or doubles.
//!
//! A play of a track from start to end is an occurrence. Each occurrence is
//! reported when it is first seen and once more, as a completed listen, when it
//! has passed the middle of the track. The stored [`TrackState`] is what was
//! last reported, not what was last seen.
use crate::listenbrainz_models::ListenType;
use crate::playback::{Snapshot, SnapshotView};
use vstd::prelude::*;

verus! {

/// A looping track found at or before this position, in milliseconds, has just
/// started again.
pub const LOOP_RESTART_WINDOW_MS: i64 = 5500;

/// What was last reported of the player.
#[derive(Clone, Debug, PartialEq, Eq)]
pub struct TrackState {
    pub id: String,
    pub progress_ms: i64,
    /// Whether this occurrence of the track has had its completed listen.
    pub scrobbled: bool,
    pub duration: i64,
}

/// The view of [`TrackState`].
#[verifier::ext_equal]
pub struct TrackStateView {
    pub id: Seq<char>,
    pub progress_ms: int,
    pub scrobbled: bool,
    pub duration: int,
}

impl View for TrackState {
    type V = TrackStateView;

    open spec fn view(&self) -> TrackStateView {
        TrackStateView {
            id: self.id@,
            progress_ms: self.progress_ms as int,
            scrobbled: self.scrobbled,
            duration: self.duration as int,
        }
    }
}

impl DeepView for TrackState {
    type V = TrackStateView;

    open spec fn deep_view(&self) -> TrackStateView {
        self.view()
    }
}

/// What to do with one snapshot.
#[derive(Clone, Debug, PartialEq, Eq)]
pub enum EmitDecision {
    /// Nothing new: report nothing and keep the stored state.
    Skip,
    /// Report a listen of this kind; once it is accepted, store this state.
    Emit { kind: ListenType, state: TrackState },
}

/// The view of [`EmitDecision`].
#[verifier::ext_equal]
pub enum EmitDecisionView {
    Skip,
    Emit { kind: ListenType, state: TrackStateView },
}

impl View for EmitDecision {
    type V = EmitDecisionView;

    open spec fn view(&self) -> EmitDecisionView {
        match self {
            EmitDecision::Skip => EmitDecisionView::Skip,
            EmitDecision::Emit { kind, state } => EmitDecisionView::Emit {
                kind: *kind,
                state: state@,
            },
        }
    }
}

/// Half of a duration, rounded towards zero.
pub open spec fn half(duration: int) -> int {
    if duration >= 0 {
        duration / 2
    } else {
        -((-duration) / 2)
    }
}

/// The position is at or past the middle. Of a track without length every
/// position is.
pub open spec fn reached_half(progress: int, duration: int) -> bool {
    duration == 0 || progress >= half(duration)
}

/// The position is past the middle.
pub open spec fn over_half(progress: int, duration: int) -> bool {
    progress > half(duration)
}

/// A looping track is back at its start.
pub open spec fn restarted(progress: int, is_looping: bool) -> bool {
    is_looping && progress <= LOOP_RESTART_WINDOW_MS
}

/// Whether `track`, seen after `last` was reported, is worth a report: another
/// track always is; the same track is when it has started again after its
/// completed listen, or has reached the middle before it.
pub open spec fn should_scrobble_spec(
    last: TrackStateView,
    track: TrackStateView,
    is_looping: bool,
) -> bool {
    if track.id == last.id {
        (last.scrobbled && restarted(track.progress_ms, is_looping)) || (!last.scrobbled
            && reached_half(track.progress_ms, track.duration))
    } else {
        true
    }
}

/// The snapshot as a track state that inherits `scrobbled` from what was last
/// reported.
pub open spec fn observed(previous: Option<TrackStateView>, current: SnapshotView) -> TrackStateView {
    TrackStateView {
        id: current.id,
        progress_ms: current.progress_ms,
        scrobbled: match previous {
            Some(last) => last.scrobbled,
            None => false,
        },
        duration: current.duration_ms,
    }
}

/// Whether the snapshot is reported: always when nothing was reported before.
pub open spec fn fires(previous: Option<TrackStateView>, current: SnapshotView) -> bool {
    match previous {
        None => true,
        Some(last) => should_scrobble_spec(last, observed(previous, current), current.is_looping),
    }
}

/// The kind of a report: a completed listen past the middle, a now-playing
/// notification up to it.
pub open spec fn kind_of(current: SnapshotView) -> ListenType {
    if over_half(current.progress_ms, current.duration_ms) {
        ListenType::Single
    } else {
        ListenType::PlayingNow
    }
}

/// The state that stands for a reported snapshot. It is scrobbled exactly when
/// the report was a completed listen.
pub open spec fn reported(current: SnapshotView) -> TrackStateView {
    TrackStateView {
        id: current.id,
        progress_ms: current.progress_ms,
        scrobbled: over_half(current.progress_ms, current.duration_ms),
        duration: current.duration_ms,
    }
}

/// The decision on one snapshot.
pub open spec fn decide(previous: Option<TrackStateView>, current: SnapshotView) -> EmitDecisionView {
    if fires(previous, current) {
        EmitDecisionView::Emit { kind: kind_of(current), state: reported(current) }
    } else {
        EmitDecisionView::Skip
    }
}

/// The stored state after a cycle in which every report was accepted.
pub open spec fn stored_after(previous: Option<TrackStateView>, current: SnapshotView) -> Option<
    TrackStateView,
> {
    if fires(previous, current) {
        Some(reported(current))
    } else {
        previous
    }
}

/// The reports that a run of snapshots gives rise to, in order, where every
/// report is accepted.
pub open spec fn emissions(previous: Option<TrackStateView>, polls: Seq<SnapshotView>) -> Seq<
    ListenType,
>
    decreases polls.len(),
{
    if polls.len() == 0 {
        Seq::empty()
    } else {
        let rest = emissions(stored_after(previous, polls[0]), polls.drop_first());
        if fires(previous, polls[0]) {
            seq![kind_of(polls[0])] + rest
        } else {
            rest
        }
    }
}

impl TrackState {
    /// Whether `track`, seen now, is reported, given that `self` was reported
    /// last. Of `track` only the identifier, the position and the duration
    /// count.
    pub fn should_scrobble(&self, track: TrackState, is_looping: bool) -> (emit: bool)
        ensures
            emit == should_scrobble_spec(self@, track@, is_looping),
    {
        let looped = track.progress_ms <= LOOP_RESTART_WINDOW_MS && is_looping;
        if track.id == self.id {
            (self.scrobbled && looped) || (!self.scrobbled && (track.duration == 0
                || track.progress_ms >= track.duration / 2))
        } else {
            true
        }
    }
}

/// Decides on one snapshot, given what was last reported.
pub fn should_emit(previous: &Option<TrackState>, current: &Snapshot) -> (decision: EmitDecision)
    ensures
        decision@ == decide(previous.deep_view(), current@),
{
    let emit = match previous {
        None => true,
        Some(last) => {
            let seen = TrackState {
                id: current.id.clone(),
                progress_ms: current.progress_ms,
                scrobbled: last.scrobbled,
                duration: current.duration_ms,
            };
            last.should_scrobble(seen, current.is_looping)
        },
    };
    if emit {
        let is_over_half_played = current.progress_ms > current.duration_ms / 2;
        EmitDecision::Emit {
            kind: if is_over_half_played {
                ListenType::Single
            } else {
                ListenType::PlayingNow
            },
            state: TrackState {
                id: current.id.clone(),
                progress_ms: current.progress_ms,
                scrobbled: is_over_half_played,
                duration: current.duration_ms,
            },
        }
    } else {
        EmitDecision::Skip
    }
}

/// The first snapshot ever seen is reported, whatever its position: as a
/// now-playing notification before the middle of the track, as a completed
/// listen past it. (Exactly at the middle it is a now-playing notification
/// still.)
pub proof fn law_first_snapshot_is_reported(current: SnapshotView)
    requires
        current.progress_ms != half(current.duration_ms),
    ensures
        fires(None, current),
        decide(None, current) == (EmitDecisionView::Emit {
            kind: if current.progress_ms < half(current.duration_ms) {
                ListenType::PlayingNow
            } else {
                ListenType::Single
            },
            state: reported(current),
        }),
{
}

/// Another track is reported wherever it stands, also after a completed
/// listen of the track before it; what is stored then is the new track's own
/// state, with nothing kept of the old one.
pub proof fn law_track_change_is_reported(last: TrackStateView, current: SnapshotView)
    requires
        current.id != last.id,
    ensures
        fires(Some(last), current),
        stored_after(Some(last), current) == Some(reported(current)),
{
}

/// A looping track seen back at its start after its completed listen is
/// reported again; seen anywhere later it is not.
pub proof fn law_loop_restart(last: TrackStateView, current: SnapshotView)
    requires
        last.scrobbled,
        current.id == last.id,
        current.is_looping,
    ensures
        fires(Some(last), current) <==> current.progress_ms <= 5500,
{
}

/// The decision depends on nothing but what was last reported and the
/// snapshot: taken twice on the same values, it is the same.
pub proof fn law_decision_is_repeatable(
    previous: Option<TrackState>,
    current: Snapshot,
    previous_again: Option<TrackState>,
    current_again: Snapshot,
)
    requires
        previous.deep_view() == previous_again.deep_view(),
        current@ == current_again@,
    ensures
        decide(previous.deep_view(), current@) == decide(
            previous_again.deep_view(),
            current_again@,
        ),
{
}

/// After the completed listen of an occurrence nothing more is reported of
/// it, as long as the track stays the same and does not start again.
pub proof fn law_nothing_after_completed_listen(last: TrackStateView, polls: Seq<SnapshotView>)
    requires
        last.scrobbled,
        forall|i: int| 0 <= i < polls.len() ==> (#[trigger] polls[i]).id == last.id,
        forall|i: int|
            0 <= i < polls.len() ==> !restarted(
                (#[trigger] polls[i]).progress_ms,
                polls[i].is_looping,
            ),
    ensures
        emissions(Some(last), polls) == Seq::<ListenType>::empty(),
    decreases polls.len(),
{
    if polls.len() > 0 {
        law_nothing_after_completed_listen(last, polls.drop_first());
    }
}

/// One occurrence has one completed listen. Snapshots of one track whose
/// position never goes back are not reported before the middle of the track;
/// the first one past the middle is reported as a completed listen; none after
/// it is reported, as long as the track does not start again.
pub proof fn law_one_completed_listen_per_occurrence(
    last: TrackStateView,
    duration: int,
    polls: Seq<SnapshotView>,
)
    requires
        !last.scrobbled,
        0 <= duration,
        forall|i: int| 0 <= i < polls.len() ==> (#[trigger] polls[i]).id == last.id,
        forall|i: int| 0 <= i < polls.len() ==> (#[trigger] polls[i]).duration_ms == duration,
        forall|i: int| 0 <= i < polls.len() ==> 0 <= (#[trigger] polls[i]).progress_ms,
        forall|i: int, j: int|
            0 <= i <= j < polls.len() ==> (#[trigger] polls[i]).progress_ms <= (
            #[trigger] polls[j]).progress_ms,
        forall|i: int| 0 <= i < polls.len() ==> (#[trigger] polls[i]).progress_ms != half(duration),
        forall|i: int|
            0 <= i < polls.len() && over_half((#[trigger] polls[i]).progress_ms, duration)
                ==> !restarted(polls[i].progress_ms, polls[i].is_looping),
    ensures
        emissions(Some(last), polls) == (if exists|i: int|
            0 <= i < polls.len() && over_half((#[trigger] polls[i]).progress_ms, duration) {
            seq![ListenType::Single]
        } else {
            Seq::<ListenType>::empty()
        }),
    decreases polls.len(),
{
    if polls.len() > 0 {
        let first = polls[0];
        let rest = polls.drop_first();
        if over_half(first.progress_ms, duration) {
            // Reported as a completed listen; all that follows is past the
            // middle too, and so is never a restart.
            law_nothing_after_completed_listen(reported(first), rest);
            assert(emissions(Some(last), polls) == seq![ListenType::Single] + Seq::<
                ListenType,
            >::empty());
        } else {
            // Not reported; a snapshot past the middle, if there is one, is
            // found in the rest.
            law_one_completed_listen_per_occurrence(last, duration, rest);
            if exists|i: int|
                0 <= i < polls.len() && over_half((#[trigger] polls[i]).progress_ms, duration) {
                let i = choose|i: int|
                    0 <= i < polls.len() && over_half((#[trigger] polls[i]).progress_ms, duration);
                assert(rest[i - 1] == polls[i]);
            }
        }
    }
}

} // verus!
