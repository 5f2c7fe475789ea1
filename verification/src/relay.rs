//! The decisions of the loop that relays MQTT publications to a receiver.
use vstd::prelude::*;

verus! {

/// What one poll of the MQTT event loop gave.
#[derive(Debug, Clone, Copy, PartialEq, Eq, Structural)]
pub enum PollOutcome {
    /// An incoming publication.
    Publish,
    /// Any other event (acknowledgements, pings, outgoing packets).
    OtherEvent,
    /// The connection failed; the event loop reconnects on the next poll.
    ConnectionError,
}

/// What the relay does next.
#[derive(Debug, Clone, Copy, PartialEq, Eq, Structural)]
pub enum RelayStep {
    /// Hand the publication to the receiver.
    Forward,
    /// Poll again.
    Skip,
    /// Log a warning, then poll again.
    WarnAndRetry,
    /// Log a warning and end the relay.
    Stop,
}

/// The step after a poll: publications are forwarded, other events skipped, and
/// connection errors logged while the relay goes on polling.
pub fn step_after_poll(outcome: PollOutcome) -> (step: RelayStep)
    ensures
        step == (match outcome {
            PollOutcome::Publish => RelayStep::Forward,
            PollOutcome::OtherEvent => RelayStep::Skip,
            PollOutcome::ConnectionError => RelayStep::WarnAndRetry,
        }),
        step != RelayStep::Stop,
{
    match outcome {
        PollOutcome::Publish => RelayStep::Forward,
        PollOutcome::OtherEvent => RelayStep::Skip,
        PollOutcome::ConnectionError => RelayStep::WarnAndRetry,
    }
}

/// The step after forwarding a publication: the relay ends exactly when the receiver
/// is gone.
pub fn step_after_forward(delivered: bool) -> (step: RelayStep)
    ensures
        step == (if delivered {
            RelayStep::Skip
        } else {
            RelayStep::Stop
        }),
{
    if delivered {
        RelayStep::Skip
    } else {
        RelayStep::Stop
    }
}

} // verus!
