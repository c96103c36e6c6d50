//! The read loop of a serial session: when it stops, and what it reports for
//! each outcome of a read.

use vstd::prelude::*;
use crate::event::{read_failed_text, SerialAssistantEvent};
use crate::text::lossy_utf8;

verus! {

/// Size, in bytes, of the buffer that one read fills.
pub const READ_BUFFER_SIZE: usize = 4096;

/// Time, in milliseconds, after which a read without data gives up.
pub const READ_TIMEOUT_MS: u64 = 100;

/// What a look at a stop or cancel channel found, without waiting.
#[derive(Clone, Copy, Debug, PartialEq, Eq, Structural)]
pub enum StopPoll {
    /// A stop request was waiting.
    Signalled,
    /// The sending side is gone.
    Abandoned,
    /// Nothing has been sent.
    Quiet,
}

/// What one read of the port gave.
#[derive(Clone, Debug, PartialEq, Eq)]
pub enum ReadOutcome {
    /// The bytes that were read; none where the timeout passed without data.
    Received(Vec<u8>),
    /// The transport reported a timeout.
    TimedOut,
    /// The transport reported another error, with this text.
    Failed(String),
}

/// What the read loop does after one read.
#[derive(Clone, Debug, PartialEq, Eq)]
pub struct ReadStep {
    /// The event to publish, if any.
    pub event: Option<SerialAssistantEvent>,
    /// Whether the loop goes on.
    pub proceed: bool,
}

/// Whether a look at the channel ends the loop: a request does, and so does a
/// channel whose sender is gone.
pub open spec fn ends_loop(poll: StopPoll) -> bool {
    poll != StopPoll::Quiet
}

/// Decides at the top of each round whether the loop ends.
pub fn should_stop(poll: StopPoll) -> (r: bool)
    ensures
        r == ends_loop(poll),
{
    match poll {
        StopPoll::Signalled => true,
        StopPoll::Abandoned => true,
        StopPoll::Quiet => false,
    }
}

/// Whether `step` is what follows `outcome` of a read on `port`: received
/// bytes are published as data; an empty read and a timeout pass in silence;
/// any other error is published and ends the loop.
pub open spec fn follows_read(outcome: ReadOutcome, port: Seq<char>, step: ReadStep) -> bool {
    match outcome {
        ReadOutcome::Received(bytes) => step.proceed && if bytes@.len() > 0 {
            step.event matches Some(e) && e.is_data(lossy_utf8(bytes@), bytes@)
        } else {
            step.event is None
        },
        ReadOutcome::TimedOut => step.proceed && step.event is None,
        ReadOutcome::Failed(detail) => !step.proceed && (step.event matches Some(e) && e.is_error(
            read_failed_text(port, detail@),
        )),
    }
}

/// Decides what the read loop does with the outcome of one read on `port`.
pub fn on_read(outcome: ReadOutcome, port: &str) -> (r: ReadStep)
    ensures
        follows_read(outcome, port@, r),
{
    match outcome {
        ReadOutcome::Received(bytes) => {
            if bytes.len() > 0 {
                ReadStep { event: Some(SerialAssistantEvent::data(bytes.as_slice())), proceed: true }
            } else {
                ReadStep { event: None, proceed: true }
            }
        },
        ReadOutcome::TimedOut => ReadStep { event: None, proceed: true },
        ReadOutcome::Failed(detail) => ReadStep {
            event: Some(SerialAssistantEvent::read_failed(port, detail.as_str())),
            proceed: false,
        },
    }
}

} // verus!
