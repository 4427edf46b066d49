//! How producers hand messages to the reducer: never waiting on it.
use vstd::prelude::*;

verus! {

/// What became of one attempt to queue a message.
#[derive(Debug, Clone, Copy, PartialEq, Eq, Structural)]
pub enum SendOutcome {
    /// Queued.
    Delivered,
    /// The queue was full; the message is dropped.
    Full,
    /// The receiving end is gone.
    Closed,
}

/// What a producer does after a send.
#[derive(Debug, Clone, Copy, PartialEq, Eq, Structural)]
pub enum ProducerStep {
    /// Carry on with the next suspension point.
    Continue,
    /// End the task.
    Stop,
}

/// A full queue sheds the message and the producer carries on; a closed
/// one ends the producer at once.
pub fn after_send(outcome: SendOutcome) -> (r: ProducerStep)
    ensures
        r == ProducerStep::Stop <==> outcome == SendOutcome::Closed,
{
    match outcome {
        SendOutcome::Closed => ProducerStep::Stop,
        _ => ProducerStep::Continue,
    }
}

} // verus!
