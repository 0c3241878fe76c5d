//! Why a polling cycle ended without a report.
use vstd::prelude::*;

verus! {

/// A piece of the player's data that a report cannot do without.
#[derive(Clone, Copy, Debug, PartialEq, Eq)]
pub enum Field {
    /// The session names a track but carries no item.
    Item,
    /// The track has no identifier of its own.
    TrackId,
    /// The track's recording code.
    Isrc,
    /// The link of one of the track's artists.
    ArtistUrl,
    /// The link of one of the album's artists.
    AlbumArtistUrl,
    /// The link of the album.
    AlbumUrl,
    /// The link of the track.
    TrackUrl,
}

/// The failure of one cycle. None of them changes the stored track state.
#[derive(Clone, Debug, PartialEq, Eq)]
pub enum CycleError {
    /// The session plays a track, yet its item is something else.
    UnexpectedContent,
    /// The player's data lack a required field.
    MissingField(Field),
    /// The player could not be asked.
    PollFailed,
    /// The listen could not be sent.
    SendFailed,
    /// The listen was sent and refused.
    Rejected { status: u16, body: String },
    /// An event arrived that the service was not waiting for.
    OutOfTurn,
}

/// The view of [`CycleError`].
#[verifier::ext_equal]
pub enum CycleErrorView {
    UnexpectedContent,
    MissingField(Field),
    PollFailed,
    SendFailed,
    Rejected { status: int, body: Seq<char> },
    OutOfTurn,
}

impl View for CycleError {
    type V = CycleErrorView;

    open spec fn view(&self) -> CycleErrorView {
        match self {
            CycleError::UnexpectedContent => CycleErrorView::UnexpectedContent,
            CycleError::MissingField(field) => CycleErrorView::MissingField(*field),
            CycleError::PollFailed => CycleErrorView::PollFailed,
            CycleError::SendFailed => CycleErrorView::SendFailed,
            CycleError::Rejected { status, body } => CycleErrorView::Rejected {
                status: *status as int,
                body: body@,
            },
            CycleError::OutOfTurn => CycleErrorView::OutOfTurn,
        }
    }
}

} // verus!
