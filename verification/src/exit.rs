//! The exit status of the program.

use vstd::prelude::*;

verus! {

/// What can keep the program from starting.
#[derive(Clone, Copy, PartialEq, Eq, Structural, Debug)]
pub enum Failure {
    /// The graphics library could not be set up.
    Init,
    /// The working directory could not be listed.
    WorkingDirectory,
    /// No window or display could be had.
    Display,
    /// The font could not be set up or loaded.
    Font,
    /// No source of input events could be had.
    EventSource,
}

/// The exit status of a run that ended in good order.
pub const EXIT_CODE_OK: u8 = 0;

/// The exit status that tells of a failure.
pub open spec fn exit_status(failure: Failure) -> u8 {
    match failure {
        Failure::Init => 1,
        Failure::WorkingDirectory => 2,
        Failure::Display => 3,
        Failure::Font => 4,
        Failure::EventSource => 5,
    }
}

/// See [`exit_status`].
pub fn exit_code(failure: Failure) -> (code: u8)
    ensures
        code == exit_status(failure),
{
    match failure {
        Failure::Init => 1,
        Failure::WorkingDirectory => 2,
        Failure::Display => 3,
        Failure::Font => 4,
        Failure::EventSource => 5,
    }
}

/// Every failure has an exit status of its own, and none that of a run
/// that ended in good order.
pub proof fn lemma_exit_statuses_differ(one: Failure, other: Failure)
    ensures
        exit_status(one) != EXIT_CODE_OK,
        exit_status(one) == exit_status(other) ==> one == other,
{
}

} // verus!
