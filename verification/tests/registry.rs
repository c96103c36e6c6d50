use device_link::adapter::{DataBits, FlowControl, OpenRequest, Parity, StopBits};
use device_link::error::{ConfigField, SessionError};
use device_link::event::SerialAssistantEvent;
use device_link::registry::{conclude, Delivery, SessionRegistry};
use device_link::teardown::Teardown;
use device_link::writer::{
    next_task, request_send, DrainStep, Look, SendProgress, SendRequest, SerialCommand,
    WriterTask,
};

/// Stands for the live resources of a session.
#[derive(Debug, PartialEq, Eq)]
struct Handle(u32);

fn request(port: &str, baud_rate: u32, data_bits: u8, stop_bits: u8, parity: &str, flow: &str) -> OpenRequest {
    OpenRequest::new(
        port.to_string(),
        baud_rate,
        data_bits,
        stop_bits,
        parity.to_string(),
        flow.to_string(),
    )
    .unwrap()
}

fn registry_with(entries: &[(&str, u32)]) -> SessionRegistry<Handle> {
    let mut registry = SessionRegistry::new();
    for (key, id) in entries {
        assert_eq!(registry.register(key, Handle(*id)), None);
    }
    registry
}

#[test]
fn a_new_registry_has_no_sessions() {
    let registry: SessionRegistry<Handle> = SessionRegistry::new();
    assert!(!registry.is_open("main"));
    assert!(!registry.is_open(""));
    assert_eq!(registry.session("main"), Err(SessionError::NotConnected));
    let by_default: SessionRegistry<Handle> = SessionRegistry::default();
    assert!(!by_default.is_open("main"));
}

#[test]
fn a_registered_session_is_open_under_its_key_only() {
    let registry = registry_with(&[("main", 1)]);
    assert!(registry.is_open("main"));
    assert!(!registry.is_open("Main"));
    assert!(!registry.is_open("main "));
    assert_eq!(registry.session("main"), Ok(&Handle(1)));
}

#[test]
fn registering_again_hands_back_the_old_session() {
    let mut registry = registry_with(&[("main", 1), ("aux", 2)]);
    assert_eq!(registry.register("main", Handle(3)), Some(Handle(1)));
    assert_eq!(registry.session("main"), Ok(&Handle(3)));
    assert_eq!(registry.session("aux"), Ok(&Handle(2)));
}

#[test]
fn taking_removes_the_session() {
    let mut registry = registry_with(&[("main", 1), ("aux", 2), ("third", 3)]);
    assert_eq!(registry.take("aux"), Some(Handle(2)));
    assert!(!registry.is_open("aux"));
    assert_eq!(registry.take("aux"), None);
    assert_eq!(registry.session("main"), Ok(&Handle(1)));
    assert_eq!(registry.session("third"), Ok(&Handle(3)));
}

#[test]
fn closing_an_absent_session_is_a_no_op() {
    let mut registry = registry_with(&[("main", 1)]);
    assert_eq!(registry.close("other"), None);
    assert!(registry.is_open("main"));
    assert_eq!(registry.close("main"), Some(Teardown { session: Handle(1), wait_for_completion: false }));
    assert_eq!(registry.close("main"), None);
}

#[test]
fn after_close_the_key_is_not_connected() {
    let mut registry = registry_with(&[("main", 1)]);
    assert!(registry.close("main").is_some());
    assert!(!registry.is_open("main"));
    assert_eq!(request_send(vec![1]), SendRequest::Queue(SerialCommand::Send(vec![1])));
    assert_eq!(registry.session("main"), Err(SessionError::NotConnected));
    assert_eq!(SessionError::NotConnected.message(), "serial is not connected");
}

#[test]
fn closing_one_key_leaves_the_other_alone() {
    let mut registry = registry_with(&[("left", 1), ("right", 2)]);
    // A write for the right session is under way while the left one closes.
    let in_flight = match next_task(Some(SerialCommand::Send(vec![7, 7, 7]))) {
        WriterTask::Transmit(send) => match send.written(Ok(())) {
            SendProgress::Drain(wait) => wait,
            other => panic!("unexpected progress: {:?}", other),
        },
        other => panic!("unexpected task: {:?}", other),
    };
    assert!(registry.close("left").is_some());
    assert!(!registry.is_open("left"));
    assert!(registry.is_open("right"));
    match in_flight.observe(Look { closing: false, pending: Some(0), elapsed_ms: 4 }) {
        DrainStep::Reply(reply) => assert_eq!(reply, Ok(3)),
        other => panic!("unexpected step: {:?}", other),
    }
    assert_eq!(registry.session("right"), Ok(&Handle(2)));
    assert_eq!(registry.session("left"), Err(SessionError::NotConnected));
}

#[test]
fn reopening_displaces_the_old_session_before_the_new_one_is_registered() {
    let mut registry = registry_with(&[("main", 1), ("aux", 2)]);
    let plan = registry.begin_open("main", request("COM4", 9600, 8, 1, "none", "none"));
    assert_eq!(plan.displaced, Some(Teardown { session: Handle(1), wait_for_completion: true }));
    assert!(plan.outcome.is_ok());
    assert!(!registry.is_open("main"));
    assert!(registry.is_open("aux"));
    assert_eq!(registry.register("main", Handle(7)), None);
    assert_eq!(registry.session("main"), Ok(&Handle(7)));
}

#[test]
fn a_request_without_a_port_is_rejected_before_any_session_is_touched() {
    let registry = registry_with(&[("main", 1)]);
    let err = OpenRequest::new(
        String::new(),
        9600,
        9,
        3,
        "mark".to_string(),
        "xon".to_string(),
    )
    .unwrap_err();
    assert_eq!(err, SessionError::InvalidArgument(ConfigField::Port));
    assert_eq!(err.message(), "port is required");
    assert_eq!(registry.session("main"), Ok(&Handle(1)));
}

#[test]
fn a_request_validates_like_the_settings_alone() {
    assert_eq!(
        request("COM4", 9600, 8, 3, "odd", "none").validate(),
        Err(SessionError::InvalidArgument(ConfigField::StopBits))
    );
    assert_eq!(
        request("COM4", 9600, 8, 2, "odd", "rts").validate(),
        Err(SessionError::InvalidArgument(ConfigField::FlowControl))
    );
    let config = request("COM4", 19200, 7, 2, "EVEN", "Hardware").validate().unwrap();
    assert_eq!(config.port, "COM4");
    assert_eq!(config.baud_rate, 19200);
    assert_eq!(config.data_bits, DataBits::Seven);
    assert_eq!(config.stop_bits, StopBits::Two);
    assert_eq!(config.parity, Parity::Even);
    assert_eq!(config.flow_control, FlowControl::Hardware);
}

#[test]
fn opening_with_an_invalid_setting_still_vacates_the_key() {
    let mut registry = registry_with(&[("main", 1)]);
    let plan = registry.begin_open("main", request("COM4", 9600, 8, 1, "mark", "none"));
    assert_eq!(plan.displaced, Some(Teardown { session: Handle(1), wait_for_completion: true }));
    assert_eq!(plan.outcome, Err(SessionError::InvalidArgument(ConfigField::Parity)));
    assert!(!registry.is_open("main"));
}

#[test]
fn open_with_nine_data_bits_registers_nothing() {
    let mut registry: SessionRegistry<Handle> = SessionRegistry::new();
    let plan = registry.begin_open("main", request("COM_TEST", 115200, 9, 1, "none", "none"));
    assert_eq!(plan.displaced, None);
    let err = plan.outcome.unwrap_err();
    assert_eq!(err, SessionError::InvalidArgument(ConfigField::DataBits));
    assert!(err.message().contains("5, 6, 7, 8"));
    assert!(!registry.is_open("main"));
}

#[test]
fn open_send_close_scenario() {
    let mut registry: SessionRegistry<Handle> = SessionRegistry::new();

    let plan = registry.begin_open("main", request("COM_TEST", 115200, 8, 1, "none", "none"));
    assert_eq!(plan.displaced, None);
    let config = plan.outcome.unwrap();
    assert_eq!(config.port, "COM_TEST");
    assert_eq!(config.baud_rate, 115200);
    assert_eq!(config.data_bits, DataBits::Eight);
    assert_eq!(config.stop_bits, StopBits::One);
    assert_eq!(config.parity, Parity::Off);
    assert_eq!(config.flow_control, FlowControl::Off);
    assert_eq!(registry.register("main", Handle(1)), None);
    let status = SerialAssistantEvent::connected(&config.port, config.baud_rate);
    assert_eq!(status.kind, "status");
    assert!(status.text.contains("115200"));
    assert!(registry.is_open("main"));

    let command = match request_send(vec![0x41, 0x42]) {
        SendRequest::Queue(command) => command,
        other => panic!("unexpected request: {:?}", other),
    };
    assert_eq!(registry.session("main"), Ok(&Handle(1)));
    let send = match next_task(Some(command)) {
        WriterTask::Transmit(send) => send,
        other => panic!("unexpected task: {:?}", other),
    };
    assert_eq!(send.data(), &vec![0x41, 0x42]);
    let wait = match send.written(Ok(())) {
        SendProgress::Drain(wait) => wait,
        other => panic!("unexpected progress: {:?}", other),
    };
    let reply = match wait.observe(Look { closing: false, pending: Some(0), elapsed_ms: 0 }) {
        DrainStep::Reply(reply) => reply,
        other => panic!("unexpected step: {:?}", other),
    };
    assert_eq!(conclude(Delivery::Replied(reply)), Ok(2));

    let teardown = registry.close("main").unwrap();
    assert_eq!(teardown, Teardown { session: Handle(1), wait_for_completion: false });
    assert!(!registry.is_open("main"));
    assert_eq!(SerialAssistantEvent::disconnected().text, "serial disconnected");
}

#[test]
fn sending_nothing_answers_zero_and_queues_nothing() {
    assert_eq!(request_send(Vec::new()), SendRequest::Answered(0));
}

#[test]
fn sending_something_queues_one_command() {
    assert_eq!(request_send(vec![0]), SendRequest::Queue(SerialCommand::Send(vec![0])));
    assert_eq!(
        request_send(vec![1, 2, 3]),
        SendRequest::Queue(SerialCommand::Send(vec![1, 2, 3]))
    );
}

#[test]
fn a_closed_queue_and_a_lost_reply_are_failures_of_their_own() {
    assert_eq!(conclude::<usize>(Delivery::QueueClosed), Err(SessionError::WriterUnavailable));
    assert_eq!(conclude::<usize>(Delivery::ReplyLost), Err(SessionError::NoResponse));
    assert_eq!(conclude(Delivery::Replied(Ok(5usize))), Ok(5));
    assert_eq!(conclude::<()>(Delivery::Replied(Err(SessionError::Closing))), Err(SessionError::Closing));
}

#[test]
fn keys_are_compared_exactly() {
    let mut registry = registry_with(&[("", 1), ("a", 2), ("ab", 3), ("\u{e9}", 4)]);
    assert_eq!(registry.session(""), Ok(&Handle(1)));
    assert_eq!(registry.session("a"), Ok(&Handle(2)));
    assert_eq!(registry.session("ab"), Ok(&Handle(3)));
    assert_eq!(registry.session("\u{e9}"), Ok(&Handle(4)));
    assert_eq!(registry.session("e"), Err(SessionError::NotConnected));
    assert_eq!(registry.take(""), Some(Handle(1)));
    assert_eq!(registry.session("ab"), Ok(&Handle(3)));
}
