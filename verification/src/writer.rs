//! The write/control loop of a serial session: what it does with each command
//! it takes from the queue, and how long a write waits for the output to drain.

use vstd::prelude::*;
use crate::error::{IoStage, SessionError};

verus! {

/// Number of commands the queue of a session holds.
pub const COMMAND_QUEUE_CAPACITY: usize = 1;

/// Longest time, in milliseconds, that a write waits for the output to drain.
pub const DRAIN_LIMIT_MS: u64 = 300;

/// Time, in milliseconds, between two looks at the output buffer.
pub const DRAIN_POLL_MS: u64 = 2;

/// A command for the write/control loop.
#[derive(Clone, Debug, PartialEq, Eq)]
pub enum SerialCommand {
    /// Write these bytes and report how many were written.
    Send(Vec<u8>),
    /// Set the request-to-send line, then the data-terminal-ready line.
    SetSignals { rts: bool, dtr: bool },
    /// Leave the loop. No reply is produced.
    Shutdown,
}

/// What a request to send begins with.
#[derive(Debug, PartialEq, Eq)]
pub enum SendRequest {
    /// Nothing is queued; the answer is this number of bytes.
    Answered(usize),
    /// The command is to be queued for the session.
    Queue(SerialCommand),
}

/// What a request to send `data` begins with: empty data is answered with 0
/// and no command is issued; other data becomes a command to write it.
pub open spec fn send_request(data: Vec<u8>) -> SendRequest {
    if data@.len() == 0 {
        SendRequest::Answered(0)
    } else {
        SendRequest::Queue(SerialCommand::Send(data))
    }
}

/// Begins a request to send `data`, before any session is looked up.
pub fn request_send(data: Vec<u8>) -> (r: SendRequest)
    ensures
        r == send_request(data),
{
    if data.len() == 0 {
        SendRequest::Answered(0)
    } else {
        SendRequest::Queue(SerialCommand::Send(data))
    }
}

/// One look at a session while a write waits for the output to drain.
#[derive(Clone, Copy, Debug, PartialEq, Eq, Structural)]
pub struct Look {
    /// Whether the closing flag of the session is set.
    pub closing: bool,
    /// The number of bytes in the output buffer; `None` where the transport
    /// cannot tell.
    pub pending: Option<u32>,
    /// The time since the bytes were written, in milliseconds.
    pub elapsed_ms: u64,
}

/// A write that has been taken from the queue and not yet answered.
#[derive(Debug)]
pub struct PendingSend {
    data: Vec<u8>,
}

/// A write whose bytes are with the transport and may not have left it yet.
#[derive(Debug)]
pub struct DrainWait {
    written: usize,
}

/// A change of the control lines that has been taken from the queue and not
/// yet answered.
#[derive(Debug)]
pub struct PendingSignals {
    rts: bool,
    dtr: bool,
}

/// A change of the control lines of which the request-to-send line is done.
#[derive(Debug)]
pub struct PendingDtr {
    dtr: bool,
}

/// What the loop does next with what it took from the queue.
#[derive(Debug)]
pub enum WriterTask {
    Transmit(PendingSend),
    Signal(PendingSignals),
    /// Leave the loop.
    Exit,
}

/// Where a write stands after the bytes were handed to the transport.
#[derive(Debug)]
pub enum SendProgress {
    /// The write is answered.
    Reply(Result<usize, SessionError>),
    /// The output buffer is to be watched until it is empty.
    Drain(DrainWait),
}

/// Where a write stands after a look at the output buffer.
#[derive(Debug)]
pub enum DrainStep {
    /// The write is answered.
    Reply(Result<usize, SessionError>),
    /// Sleep for `DRAIN_POLL_MS` and look again.
    Sleep(DrainWait),
}

/// Where a change of the control lines stands after the first line.
#[derive(Debug)]
pub enum SignalProgress {
    /// The change is answered; the second line is left alone.
    Reply(Result<(), SessionError>),
    /// The data-terminal-ready line is to be set.
    Next(PendingDtr),
}

/// What one look means for a waiting write.
#[derive(Clone, Copy, Debug, PartialEq, Eq, Structural)]
pub enum DrainVerdict {
    /// The session is closing: the write fails.
    Aborted,
    /// The wait is over: the write succeeds.
    Drained,
    /// Bytes are still queued and time is left.
    Waiting,
}

/// The verdict of one look. The closing flag is checked first; then an empty
/// buffer, or one that cannot be queried, ends the wait; then the time limit.
pub open spec fn drain_verdict(look: Look) -> DrainVerdict {
    if look.closing {
        DrainVerdict::Aborted
    } else if look.pending is None || look.pending == Some(0u32) {
        DrainVerdict::Drained
    } else if look.elapsed_ms >= DRAIN_LIMIT_MS {
        DrainVerdict::Drained
    } else {
        DrainVerdict::Waiting
    }
}

/// Whether the loop goes on after taking `received` from the queue; `None`
/// stands for a queue that every sender has left.
pub open spec fn keeps_running(received: Option<SerialCommand>) -> bool {
    received is Some && !(received->0 is Shutdown)
}

/// What the loop does with what came out of the queue: a command is taken
/// up; a shutdown and a queue that every sender has left end the loop.
pub open spec fn task_for(received: Option<SerialCommand>) -> WriterTask {
    match received {
        Some(SerialCommand::Send(data)) => WriterTask::Transmit(PendingSend::of(data)),
        Some(SerialCommand::SetSignals { rts, dtr }) => WriterTask::Signal(
            PendingSignals::of(rts, dtr),
        ),
        Some(SerialCommand::Shutdown) => WriterTask::Exit,
        None => WriterTask::Exit,
    }
}

/// Decides what to do with what came out of the queue.
pub fn next_task(received: Option<SerialCommand>) -> (r: WriterTask)
    ensures
        r == task_for(received),
        r is Exit <==> !keeps_running(received),
        r matches WriterTask::Transmit(send) ==> received matches Some(SerialCommand::Send(data))
            && send.bytes() == data@,
        r matches WriterTask::Signal(signals) ==> received matches Some(
            SerialCommand::SetSignals { rts, dtr },
        ) && signals.rts_level() == rts && signals.dtr_level() == dtr,
{
    match received {
        Some(SerialCommand::Send(data)) => WriterTask::Transmit(PendingSend { data }),
        Some(SerialCommand::SetSignals { rts, dtr }) => WriterTask::Signal(
            PendingSignals { rts, dtr },
        ),
        Some(SerialCommand::Shutdown) => WriterTask::Exit,
        None => WriterTask::Exit,
    }
}

impl PendingSend {
    /// The write that a command to send `data` becomes.
    pub closed spec fn of(data: Vec<u8>) -> PendingSend {
        PendingSend { data }
    }

    /// The bytes to write.
    pub closed spec fn bytes(self) -> Seq<u8> {
        self.data@
    }

    /// The wait that follows once the bytes are written.
    pub closed spec fn wait(self) -> DrainWait {
        DrainWait { written: self.data.len() }
    }

    /// Where the write stands after `outcome` of writing all the bytes, in
    /// which `Err` holds the transport's text.
    pub open spec fn after_write(self, outcome: Result<(), String>) -> SendProgress {
        match outcome {
            Ok(_) => SendProgress::Drain(self.wait()),
            Err(detail) => SendProgress::Reply(Err(SessionError::Io(IoStage::Write, detail))),
        }
    }

    /// The bytes to hand to the transport.
    pub fn data(&self) -> (r: &Vec<u8>)
        ensures
            r@ == self.bytes(),
    {
        &self.data
    }

    /// Takes the outcome of writing all the bytes. A failed write is answered
    /// at once; nothing is retried.
    pub fn written(self, outcome: Result<(), String>) -> (r: SendProgress)
        ensures
            r == self.after_write(outcome),
            r matches SendProgress::Drain(wait) ==> wait.count() == self.bytes().len(),
    {
        match outcome {
            Ok(_) => SendProgress::Drain(DrainWait { written: self.data.len() }),
            Err(detail) => SendProgress::Reply(Err(SessionError::Io(IoStage::Write, detail))),
        }
    }
}

impl DrainWait {
    /// The number of bytes that were written.
    pub closed spec fn count(self) -> usize {
        self.written
    }

    /// Where the write stands after one look.
    pub open spec fn after_look(self, look: Look) -> DrainStep {
        match drain_verdict(look) {
            DrainVerdict::Aborted => DrainStep::Reply(Err(SessionError::Closing)),
            DrainVerdict::Drained => DrainStep::Reply(Ok(self.count())),
            DrainVerdict::Waiting => DrainStep::Sleep(self),
        }
    }

    /// Takes one look at the session.
    pub fn observe(self, look: Look) -> (r: DrainStep)
        ensures
            r == self.after_look(look),
    {
        if look.closing {
            return DrainStep::Reply(Err(SessionError::Closing));
        }
        match look.pending {
            Some(0) => DrainStep::Reply(Ok(self.written)),
            None => DrainStep::Reply(Ok(self.written)),
            Some(_) => {
                if look.elapsed_ms >= DRAIN_LIMIT_MS {
                    DrainStep::Reply(Ok(self.written))
                } else {
                    DrainStep::Sleep(self)
                }
            },
        }
    }
}

/// The answer to a write after a series of looks, each taken while the one
/// before left the write waiting; `None` while it still waits.
pub open spec fn answer_after(progress: SendProgress, looks: Seq<Look>) -> Option<
    Result<usize, SessionError>,
>
    decreases looks.len(),
{
    match progress {
        SendProgress::Reply(answer) => Some(answer),
        SendProgress::Drain(wait) => if looks.len() == 0 {
            None
        } else {
            match wait.after_look(looks[0]) {
                DrainStep::Reply(answer) => Some(answer),
                DrainStep::Sleep(still) => answer_after(
                    SendProgress::Drain(still),
                    looks.drop_first(),
                ),
            }
        },
    }
}

/// Sending nothing is answered with 0 and issues no command. Any other data
/// becomes one command, and the write that the loop makes of it is answered
/// with success only if its bytes were written, and then with the number of
/// bytes of the data; every other answer is the failure of the write or the
/// closing of the session.
pub proof fn law_send_reports_length(data: Vec<u8>, outcome: Result<(), String>, looks: Seq<Look>)
    ensures
        data@.len() == 0 ==> send_request(data) == SendRequest::Answered(0),
        data@.len() > 0 ==> send_request(data) == SendRequest::Queue(SerialCommand::Send(data)),
        task_for(Some(SerialCommand::Send(data))) == WriterTask::Transmit(PendingSend::of(data)),
        match answer_after(PendingSend::of(data).after_write(outcome), looks) {
            Some(Ok(n)) => outcome is Ok && n == data@.len(),
            Some(Err(e)) => match outcome {
                Ok(_) => e == SessionError::Closing,
                Err(detail) => e == SessionError::Io(IoStage::Write, detail),
            },
            None => outcome is Ok,
        },
{
    match outcome {
        Ok(_) => {
            lemma_wait_answers(PendingSend::of(data).wait(), looks);
        },
        Err(_) => {},
    }
}

/// A waiting write is answered with its own count or with the closing of the
/// session.
proof fn lemma_wait_answers(wait: DrainWait, looks: Seq<Look>)
    ensures
        match answer_after(SendProgress::Drain(wait), looks) {
            Some(Ok(n)) => n == wait.count(),
            Some(Err(e)) => e == SessionError::Closing,
            None => true,
        },
    decreases looks.len(),
{
    if looks.len() > 0 {
        match wait.after_look(looks[0]) {
            DrainStep::Reply(_) => {},
            DrainStep::Sleep(still) => {
                lemma_wait_answers(still, looks.drop_first());
            },
        }
    }
}

/// A write never waits past the time limit: a look taken at or after
/// `DRAIN_LIMIT_MS` answers it, whatever the looks before it found.
pub proof fn law_drain_is_bounded(wait: DrainWait, looks: Seq<Look>, late: int)
    requires
        0 <= late < looks.len(),
        looks[late].elapsed_ms >= DRAIN_LIMIT_MS,
    ensures
        answer_after(SendProgress::Drain(wait), looks) is Some,
    decreases looks.len(),
{
    match wait.after_look(looks[0]) {
        DrainStep::Reply(_) => {},
        DrainStep::Sleep(still) => {
            assert(late > 0);
            assert(looks.drop_first()[late - 1] == looks[late]);
            law_drain_is_bounded(still, looks.drop_first(), late - 1);
        },
    }
}

impl PendingSignals {
    /// The change that a command to set the lines to `rts` and `dtr` becomes.
    pub closed spec fn of(rts: bool, dtr: bool) -> PendingSignals {
        PendingSignals { rts, dtr }
    }

    /// The level asked of the request-to-send line.
    pub closed spec fn rts_level(self) -> bool {
        self.rts
    }

    /// The level asked of the data-terminal-ready line.
    pub closed spec fn dtr_level(self) -> bool {
        self.dtr
    }

    /// The second half of the change.
    pub closed spec fn rest(self) -> PendingDtr {
        PendingDtr { dtr: self.dtr }
    }

    /// Where the change stands after `outcome` of setting the
    /// request-to-send line.
    pub open spec fn after_rts(self, outcome: Result<(), String>) -> SignalProgress {
        match outcome {
            Ok(_) => SignalProgress::Next(self.rest()),
            Err(detail) => SignalProgress::Reply(
                Err(SessionError::Io(IoStage::RequestToSend, detail)),
            ),
        }
    }

    /// The level to set the request-to-send line to.
    pub fn rts(&self) -> (r: bool)
        ensures
            r == self.rts_level(),
    {
        self.rts
    }

    /// Takes the outcome of setting the request-to-send line. A failure is
    /// answered at once, and the other line is not touched.
    pub fn rts_set(self, outcome: Result<(), String>) -> (r: SignalProgress)
        ensures
            r == self.after_rts(outcome),
            r matches SignalProgress::Next(rest) ==> rest.level() == self.dtr_level(),
    {
        match outcome {
            Ok(_) => SignalProgress::Next(PendingDtr { dtr: self.dtr }),
            Err(detail) => SignalProgress::Reply(
                Err(SessionError::Io(IoStage::RequestToSend, detail)),
            ),
        }
    }
}

/// The answer to a change of the control lines, given the outcome of setting
/// the data-terminal-ready line.
pub open spec fn after_dtr(outcome: Result<(), String>) -> Result<(), SessionError> {
    match outcome {
        Ok(_) => Ok(()),
        Err(detail) => Err(SessionError::Io(IoStage::DataTerminalReady, detail)),
    }
}

impl PendingDtr {
    /// The level asked of the data-terminal-ready line.
    pub closed spec fn level(self) -> bool {
        self.dtr
    }

    /// The level to set the data-terminal-ready line to.
    pub fn dtr(&self) -> (r: bool)
        ensures
            r == self.level(),
    {
        self.dtr
    }

    /// Takes the outcome of setting the data-terminal-ready line, and gives
    /// the answer to the change as a whole.
    pub fn dtr_set(self, outcome: Result<(), String>) -> (r: Result<(), SessionError>)
        ensures
            r == after_dtr(outcome),
    {
        match outcome {
            Ok(_) => Ok(()),
            Err(detail) => Err(SessionError::Io(IoStage::DataTerminalReady, detail)),
        }
    }
}

} // verus!
