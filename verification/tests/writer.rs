use device_link::error::{IoStage, SessionError};
use device_link::writer::{
    next_task, DrainStep, DrainWait, Look, PendingSend, SendProgress, SerialCommand,
    SignalProgress, WriterTask, COMMAND_QUEUE_CAPACITY, DRAIN_LIMIT_MS, DRAIN_POLL_MS,
};

fn pending_send(data: Vec<u8>) -> PendingSend {
    match next_task(Some(SerialCommand::Send(data))) {
        WriterTask::Transmit(send) => send,
        other => panic!("unexpected task: {:?}", other),
    }
}

fn waiting(len: usize) -> DrainWait {
    match pending_send(vec![0; len]).written(Ok(())) {
        SendProgress::Drain(wait) => wait,
        other => panic!("unexpected progress: {:?}", other),
    }
}

fn look(closing: bool, pending: Option<u32>, elapsed_ms: u64) -> Look {
    Look { closing, pending, elapsed_ms }
}

fn reply_of(step: DrainStep) -> Result<usize, SessionError> {
    match step {
        DrainStep::Reply(reply) => reply,
        other => panic!("unexpected step: {:?}", other),
    }
}

#[test]
fn limits_of_the_write_loop() {
    assert_eq!(COMMAND_QUEUE_CAPACITY, 1);
    assert_eq!(DRAIN_LIMIT_MS, 300);
    assert_eq!(DRAIN_POLL_MS, 2);
}

#[test]
fn shutdown_and_a_closed_queue_end_the_loop() {
    assert!(matches!(next_task(Some(SerialCommand::Shutdown)), WriterTask::Exit));
    assert!(matches!(next_task(None), WriterTask::Exit));
}

#[test]
fn a_send_command_becomes_a_write_of_its_bytes() {
    let send = pending_send(vec![1, 2, 3]);
    assert_eq!(send.data(), &vec![1, 2, 3]);
}

#[test]
fn a_failed_write_is_answered_at_once() {
    match pending_send(vec![1, 2, 3]).written(Err("port gone".to_string())) {
        SendProgress::Reply(reply) => {
            let err = reply.unwrap_err();
            assert_eq!(err, SessionError::Io(IoStage::Write, "port gone".to_string()));
            assert_eq!(err.message(), "failed to write serial data: port gone");
        }
        other => panic!("unexpected progress: {:?}", other),
    }
}

#[test]
fn an_empty_buffer_ends_the_wait_with_the_byte_count() {
    assert_eq!(reply_of(waiting(5).observe(look(false, Some(0), 0))), Ok(5));
    assert_eq!(reply_of(waiting(4096).observe(look(false, Some(0), 250))), Ok(4096));
}

#[test]
fn a_buffer_that_cannot_be_queried_counts_as_drained() {
    assert_eq!(reply_of(waiting(5).observe(look(false, None, 0))), Ok(5));
}

#[test]
fn a_closing_session_aborts_the_wait() {
    for pending in [None, Some(0), Some(17)] {
        for elapsed in [0, 299, 300, 10_000] {
            let reply = reply_of(waiting(5).observe(look(true, pending, elapsed)));
            assert_eq!(reply, Err(SessionError::Closing));
        }
    }
    assert_eq!(SessionError::Closing.message(), "serial is closing");
}

#[test]
fn the_wait_goes_on_while_bytes_are_queued_and_time_is_left() {
    for elapsed in [0, 1, 150, 299] {
        assert!(matches!(waiting(5).observe(look(false, Some(1), elapsed)), DrainStep::Sleep(_)));
    }
}

#[test]
fn the_wait_ends_at_the_time_limit() {
    assert_eq!(reply_of(waiting(5).observe(look(false, Some(1), 300))), Ok(5));
    assert_eq!(reply_of(waiting(5).observe(look(false, Some(u32::MAX), u64::MAX))), Ok(5));
}

#[test]
fn a_wait_over_several_looks_reports_the_length_of_the_command() {
    let mut wait = waiting(7);
    let mut elapsed = 0;
    let reply = loop {
        match wait.observe(look(false, Some(3), elapsed)) {
            DrainStep::Reply(reply) => break reply,
            DrainStep::Sleep(still) => {
                wait = still;
                elapsed += DRAIN_POLL_MS;
            }
        }
    };
    assert_eq!(reply, Ok(7));
    assert_eq!(elapsed, DRAIN_LIMIT_MS);
}

#[test]
fn both_lines_are_set_in_order() {
    let signals = match next_task(Some(SerialCommand::SetSignals { rts: true, dtr: false })) {
        WriterTask::Signal(signals) => signals,
        other => panic!("unexpected task: {:?}", other),
    };
    assert!(signals.rts());
    let rest = match signals.rts_set(Ok(())) {
        SignalProgress::Next(rest) => rest,
        other => panic!("unexpected progress: {:?}", other),
    };
    assert!(!rest.dtr());
    assert_eq!(rest.dtr_set(Ok(())), Ok(()));
}

#[test]
fn a_failure_of_the_first_line_leaves_the_second_alone() {
    let signals = match next_task(Some(SerialCommand::SetSignals { rts: false, dtr: true })) {
        WriterTask::Signal(signals) => signals,
        other => panic!("unexpected task: {:?}", other),
    };
    assert!(!signals.rts());
    match signals.rts_set(Err("not supported".to_string())) {
        SignalProgress::Reply(reply) => {
            let err = reply.unwrap_err();
            assert_eq!(err, SessionError::Io(IoStage::RequestToSend, "not supported".to_string()));
            assert_eq!(err.message(), "failed to set RTS: not supported");
        }
        other => panic!("unexpected progress: {:?}", other),
    }
}

#[test]
fn a_failure_of_the_second_line_is_reported() {
    let signals = match next_task(Some(SerialCommand::SetSignals { rts: true, dtr: true })) {
        WriterTask::Signal(signals) => signals,
        other => panic!("unexpected task: {:?}", other),
    };
    let rest = match signals.rts_set(Ok(())) {
        SignalProgress::Next(rest) => rest,
        other => panic!("unexpected progress: {:?}", other),
    };
    assert!(rest.dtr());
    let err = rest.dtr_set(Err("line stuck".to_string())).unwrap_err();
    assert_eq!(err, SessionError::Io(IoStage::DataTerminalReady, "line stuck".to_string()));
    assert_eq!(err.message(), "failed to set DTR: line stuck");
}
