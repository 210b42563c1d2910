//! The per-request lifecycle.
//!
//! One request moves through: created, files written, launched, then either
//! output captured or launch failed, and finally cleaned. Both outcomes lead
//! unconditionally to cleanup; cleanup is permitted from every phase and the
//! cleaned phase is terminal and safe to re-enter.

use vstd::prelude::*;

verus! {

/// Where one request stands.
#[derive(Clone, Copy, PartialEq, Eq, Structural, Debug)]
pub enum Phase {
    Created,
    FilesWritten,
    Launched,
    OutputCaptured,
    LaunchFailed,
    Cleaned,
}

/// What just happened to the request.
#[derive(Clone, Copy, PartialEq, Eq, Structural, Debug)]
pub enum Event {
    WriteFinished,
    LaunchStarted,
    OutputReturned,
    LaunchRefused,
    Cleanup,
}

/// The transition relation of the request lifecycle. `None` means the event
/// is not admitted in that phase. Cleanup is admitted everywhere.
pub open spec fn spec_step(p: Phase, e: Event) -> Option<Phase> {
    match (p, e) {
        (_, Event::Cleanup) => Some(Phase::Cleaned),
        (Phase::Created, Event::WriteFinished) => Some(Phase::FilesWritten),
        (Phase::FilesWritten, Event::LaunchStarted) => Some(Phase::Launched),
        (Phase::Launched, Event::OutputReturned) => Some(Phase::OutputCaptured),
        (Phase::Launched, Event::LaunchRefused) => Some(Phase::LaunchFailed),
        _ => None,
    }
}

/// Advances one request by one event.
pub fn step(p: Phase, e: Event) -> (r: Option<Phase>)
    ensures
        r == spec_step(p, e),
{
    match (p, e) {
        (_, Event::Cleanup) => Some(Phase::Cleaned),
        (Phase::Created, Event::WriteFinished) => Some(Phase::FilesWritten),
        (Phase::FilesWritten, Event::LaunchStarted) => Some(Phase::Launched),
        (Phase::Launched, Event::OutputReturned) => Some(Phase::OutputCaptured),
        (Phase::Launched, Event::LaunchRefused) => Some(Phase::LaunchFailed),
        _ => None,
    }
}

/// Cleanup is never refused: from every phase — success, failure, or a phase
/// already cleaned — the cleanup event is admitted and lands in the terminal
/// phase, so re-entering cleanup is harmless.
pub proof fn lemma_cleanup_always_admitted(p: Phase)
    ensures
        spec_step(p, Event::Cleanup) == Some(Phase::Cleaned),
{
}

/// Both outcomes of a launch, and the cleaned phase itself, admit nothing but
/// cleanup: captured output and failed launches transition unconditionally to
/// the terminal phase.
pub proof fn lemma_outcomes_lead_only_to_cleanup(p: Phase, e: Event)
    requires
        p is OutputCaptured || p is LaunchFailed || p is Cleaned,
        spec_step(p, e) is Some,
    ensures
        e == Event::Cleanup,
        spec_step(p, e) == Some(Phase::Cleaned),
{
}

} // verus!
