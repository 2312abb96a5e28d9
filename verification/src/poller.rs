//! What the poller makes of the host's answer to one poll.

use crate::snapshot::{empty_snapshot, snapshot_of, MusicInfo, MusicInfoView, SessionDetails};
use vstd::prelude::*;

verus! {

/// The pause between two poll cycles, in milliseconds.
pub const POLL_INTERVAL_MS: u64 = 200;

/// What the host's media interface answered to one poll.
#[derive(Debug, Clone, PartialEq, Eq)]
pub enum PollOutcome {
    /// No media session exists.
    NoSession,
    /// The properties of the active session.
    Session(SessionDetails),
    /// The session could not be read this time.
    Fault,
    /// The interface itself is gone; polling again is pointless.
    Fatal,
}

/// What the poller does after one poll.
#[derive(Debug, Clone, PartialEq, Eq)]
pub enum PollStep {
    /// Offer this snapshot to the outbound queue.
    Enqueue(MusicInfo),
    /// Report the failure and end.
    Fail,
}

/// The snapshot that one poll yields. Having no session, or failing to read
/// one, yields the empty snapshot; only a fatal answer yields none.
pub open spec fn polled_snapshot(outcome: PollOutcome) -> Option<MusicInfoView> {
    match outcome {
        PollOutcome::NoSession => Some(empty_snapshot()),
        PollOutcome::Session(details) => Some(snapshot_of(details@)),
        PollOutcome::Fault => Some(empty_snapshot()),
        PollOutcome::Fatal => None,
    }
}

/// Decides what the poller does with the host's answer.
pub fn poll_step(outcome: PollOutcome) -> (r: PollStep)
    ensures
        match r {
            PollStep::Enqueue(snapshot) => polled_snapshot(outcome) == Some(snapshot@),
            PollStep::Fail => polled_snapshot(outcome) is None,
        },
{
    match outcome {
        PollOutcome::NoSession => PollStep::Enqueue(MusicInfo::none()),
        PollOutcome::Session(details) => PollStep::Enqueue(MusicInfo::from_details(details)),
        PollOutcome::Fault => PollStep::Enqueue(MusicInfo::none()),
        PollOutcome::Fatal => PollStep::Fail,
    }
}

} // verus!
