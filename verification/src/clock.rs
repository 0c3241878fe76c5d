//! Where the time of a listen comes from.
use vstd::prelude::*;

verus! {

/// The source of a listen's time: the system clock, or a time that is given.
pub(crate) enum Clock {
    System,
    Fixed(i64),
}

impl Clock {
    /// The time that stands for this clock where it is not read: the given
    /// time of a fixed clock.
    pub(crate) open spec fn unread(&self) -> i64 {
        match self {
            Clock::Fixed(given) => *given,
            Clock::System => 0,
        }
    }

    /// The time for a listen, in seconds since the Unix epoch. A fixed clock
    /// gives its own time. The system clock is read for a completed listen
    /// only, and of what it shows nothing is known beforehand.
    pub(crate) fn time_of_listen(&self, completed: bool) -> (at: i64)
        ensures
            self matches Clock::Fixed(given) ==> at == given,
    {
        match self {
            Clock::Fixed(given) => *given,
            Clock::System => if completed {
                epoch_seconds()
            } else {
                0
            },
        }
    }
}

/// Calls `chrono::Utc::now()` and `DateTime::timestamp()` on what it returns:
/// the system clock in whole seconds since 1970-01-01 00:00:00 UTC. The value
/// depends on when the call is made, so nothing is claimed of it. `now` does
/// not return on a machine whose clock stands before 1970.
#[verifier::external_body]
fn epoch_seconds() -> i64 {
    chrono::Utc::now().timestamp()
}

} // verus!
