//! The ways in which `start` and `wait` fail.

use crate::exit::Exit;
use vstd::prelude::*;

verus! {

/// Why `start` or `wait` could not give its caller what it asked for.
///
/// Every failure is reported once, to the immediate caller, and nothing is
/// tried again.
#[derive(Debug)]
pub enum MonitorError {
    /// The system could not launch the process. The system's own error is
    /// kept as it came.
    SpawnFailure(std::io::Error),
    /// The process was launched, but the system gave no identifier for it.
    IdentifierUnavailable,
    /// The system failed while the process was waited for or its output
    /// collected. The system's own error is kept as it came.
    CollectFailure(std::io::Error),
    /// The process ended without a numeric code, as one killed by a signal
    /// does, so no record of its end can be made.
    MissingStatusCode,
    /// The process has ended and its output was collected, but the receiving
    /// end of the channel was already gone. Holds the record that nobody took.
    DeliveryRefused(Exit),
    /// The sending end of the channel was dropped with nothing sent.
    AbandonedChannel,
}

} // verus!
