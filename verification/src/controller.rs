//! The controller's decisions: whether to pump the platform's event loop once
//! more, and how a discovery ended.
//!
//! The controller itself is a loop around the event pump, which only the
//! caller can run. A pump blocks for one slice of time while the platform
//! delivers callbacks, and cannot be told to stop early: so the caller asks
//! after every pump what to do next.

use crate::gatt::CentralDelegate;
use vstd::prelude::*;

verus! {

/// How long a discovery may take, in milliseconds.
pub const GATT_DISCOVERY_TIMEOUT_MS: u64 = 2000;

/// How long one pump of the event loop takes, in milliseconds.
pub const RUN_LOOP_INTERVAL_MS: u64 = 100;

/// What the controller does next.
#[derive(Debug, Clone, Copy, PartialEq, Eq, Structural)]
pub enum NextStep {
    /// Pump the event loop for one more slice.
    Pump,
    /// Stop and take the readings.
    Finish,
}

/// How a discovery ended.
#[derive(Debug, Clone, Copy, PartialEq, Eq, Structural)]
pub enum Ending {
    /// The coordinator reported that it was done.
    Completed,
    /// Time ran out first, after so many milliseconds. No failure: the
    /// readings gathered until then count.
    TimedOut { elapsed_ms: u64 },
}

/// What a discovery gave.
#[derive(Debug)]
pub struct Outcome {
    /// The readings: name and raw battery byte, in the order in which they
    /// came.
    pub readings: Vec<(String, u8)>,
    /// How the discovery ended.
    pub ending: Ending,
}

/// Whether the controller goes on: it pumps as long as the discovery is not
/// done and the time is not up.
pub open spec fn keeps_pumping(done: bool, elapsed_ms: u64) -> bool {
    !done && elapsed_ms < GATT_DISCOVERY_TIMEOUT_MS
}

/// How a discovery ended that stopped in this state after so much time.
pub open spec fn ending_of(done: bool, elapsed_ms: u64) -> Ending {
    if done {
        Ending::Completed
    } else {
        Ending::TimedOut { elapsed_ms }
    }
}

/// Decides what the controller does next, `elapsed_ms` milliseconds after the
/// discovery began.
pub fn next_step(delegate: &CentralDelegate, elapsed_ms: u64) -> (step: NextStep)
    ensures
        step == if keeps_pumping(delegate@.done, elapsed_ms) {
            NextStep::Pump
        } else {
            NextStep::Finish
        },
{
    if !delegate.is_done() && elapsed_ms < GATT_DISCOVERY_TIMEOUT_MS {
        NextStep::Pump
    } else {
        NextStep::Finish
    }
}

/// Ends the discovery: takes the readings out of the coordinator and says
/// whether it was done or time ran out. Requests still out are left alone.
pub fn conclude(delegate: &mut CentralDelegate, elapsed_ms: u64) -> (outcome: Outcome)
    ensures
        outcome.readings.deep_view() == old(delegate)@.results,
        outcome.ending == ending_of(old(delegate)@.done, elapsed_ms),
        final(delegate)@ == old(delegate)@.without_results(),
        old(delegate)@.consistent() ==> final(delegate)@.consistent(),
{
    let ending = if delegate.is_done() {
        Ending::Completed
    } else {
        Ending::TimedOut { elapsed_ms }
    };
    let readings = delegate.take_results();
    Outcome { readings, ending }
}

} // verus!
