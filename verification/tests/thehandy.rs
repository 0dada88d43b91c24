use buttplug::device::{
    ButtplugDeviceMessageType, DeviceMessageAttributes, DeviceReadCmd, DeviceWriteCmd, Endpoint,
};
use buttplug::errors::{ButtplugDeviceError, ButtplugError};
use buttplug::messages::device_commands::{
    ButtplugDeviceCommandMessageUnion, LinearCmd, StopDeviceCmd, VectorSubcommand,
};
use buttplug::messages::status::OkReply;
use buttplug::messages::ButtplugServerMessage;
use buttplug::protocol::thehandy::handyplug;
use buttplug::protocol::thehandy::protocomm::{
    S0SessionCmd, Sec0Body, Sec0MsgType, Sec0Payload, SecSchemeVersion, SessionData, SessionProto,
};
use buttplug::protocol::thehandy::{
    complete_linear_cmd, initialize, DeviceEvent, HandshakeAction, NegotiationStep, ProtocolState,
    TheHandy,
};
use prost::encoding::{decode_key, decode_varint, WireType};

fn adapter() -> TheHandy<()> {
    TheHandy::new_protocol("The Handy", vec![], (), vec![])
}

fn linear(vectors: Vec<VectorSubcommand>) -> LinearCmd {
    LinearCmd::new(0, vectors)
}

fn count_mismatch(expected: u32, actual: u32) -> ButtplugError {
    ButtplugError::ButtplugDeviceError(ButtplugDeviceError::DeviceFeatureCountMismatch(
        expected, actual,
    ))
}

fn io_error(text: &str) -> ButtplugError {
    ButtplugError::ButtplugDeviceError(ButtplugDeviceError::DeviceCommunicationError(
        text.to_owned(),
    ))
}

fn session_request() -> SessionData {
    SessionData {
        sec_ver: SecSchemeVersion::SecScheme0,
        proto: Some(SessionProto::Sec0(Sec0Payload {
            msg: Sec0MsgType::S0SessionCommand,
            payload: Some(Sec0Body::Sc(S0SessionCmd {})),
        })),
    }
}

const SESSION_REQUEST_BYTES: [u8; 5] = [0x52, 0x03, 0xA2, 0x01, 0x00];

const LINEAR_500_075_BYTES: [u8; 21] = [
    0x0A, 0x13, 0x9A, 0x19, 0x10, 0x08, 0x02, 0x1A, 0x0C, 0x10, 0xF4, 0x03, 0x19, 0x00, 0x00,
    0x00, 0x00, 0x00, 0x00, 0xE8, 0x3F,
];

#[test]
fn handshake_writes_the_session_request_first() {
    let (state, action) = initialize(ProtocolState::Uninitialized, DeviceEvent::Discovered);
    assert_eq!(state, ProtocolState::Negotiating(NegotiationStep::AwaitingWrite));
    assert_eq!(
        action,
        HandshakeAction::Write(DeviceWriteCmd::new(
            Endpoint::Firmware,
            SESSION_REQUEST_BYTES.to_vec(),
            false
        ))
    );
}

#[test]
fn handshake_reads_once_after_the_write() {
    let (state, action) = initialize(
        ProtocolState::Negotiating(NegotiationStep::AwaitingWrite),
        DeviceEvent::WriteCompleted(Ok(())),
    );
    assert_eq!(state, ProtocolState::Negotiating(NegotiationStep::AwaitingRead));
    assert_eq!(action, HandshakeAction::Read(DeviceReadCmd::new(Endpoint::Firmware, 100, 500)));
}

#[test]
fn handshake_ends_ready_whatever_was_read() {
    let contents: Vec<Vec<u8>> = vec![vec![], vec![0x52, 0x02, 0xAA, 0x01], vec![0xFF; 100]];
    for content in contents {
        let (state, action) = initialize(
            ProtocolState::Negotiating(NegotiationStep::AwaitingRead),
            DeviceEvent::ReadCompleted(Ok(content)),
        );
        assert_eq!(state, ProtocolState::Ready);
        assert_eq!(action, HandshakeAction::Done(Ok(None)));
    }
}

#[test]
fn handshake_runs_one_write_then_one_read() {
    let mut writes: Vec<DeviceWriteCmd> = Vec::new();
    let mut reads: Vec<DeviceReadCmd> = Vec::new();
    let mut order: Vec<&str> = Vec::new();
    let mut state = ProtocolState::Uninitialized;
    let mut event = DeviceEvent::Discovered;
    let outcome;
    loop {
        let (next, action) = initialize(state, event);
        state = next;
        match action {
            HandshakeAction::Write(command) => {
                writes.push(command);
                order.push("write");
                event = DeviceEvent::WriteCompleted(Ok(()));
            }
            HandshakeAction::Read(command) => {
                reads.push(command);
                order.push("read");
                event = DeviceEvent::ReadCompleted(Ok(vec![1, 2, 3]));
            }
            HandshakeAction::Done(result) => {
                outcome = result;
                break;
            }
            HandshakeAction::Nothing => panic!("the handshake stalled"),
        }
    }
    assert_eq!(order, vec!["write", "read"]);
    assert_eq!(writes.len(), 1);
    assert_eq!(writes[0].endpoint, Endpoint::Firmware);
    assert_eq!(reads, vec![DeviceReadCmd::new(Endpoint::Firmware, 100, 500)]);
    assert_eq!(outcome, Ok(None));
    assert_eq!(state, ProtocolState::Ready);
}

#[test]
fn failed_write_ends_the_handshake_without_a_read() {
    let (state, action) = initialize(
        ProtocolState::Negotiating(NegotiationStep::AwaitingWrite),
        DeviceEvent::WriteCompleted(Err(io_error("write refused"))),
    );
    assert_eq!(state, ProtocolState::Failed);
    assert_eq!(action, HandshakeAction::Done(Err(io_error("write refused"))));
}

#[test]
fn failed_read_ends_the_handshake() {
    let (state, action) = initialize(
        ProtocolState::Negotiating(NegotiationStep::AwaitingRead),
        DeviceEvent::ReadCompleted(Err(io_error("timed out"))),
    );
    assert_eq!(state, ProtocolState::Failed);
    assert_eq!(action, HandshakeAction::Done(Err(io_error("timed out"))));
}

#[test]
fn finished_handshake_asks_for_nothing_more() {
    for state in [ProtocolState::Ready, ProtocolState::Failed] {
        let events = vec![
            DeviceEvent::Discovered,
            DeviceEvent::WriteCompleted(Ok(())),
            DeviceEvent::WriteCompleted(Err(io_error("late"))),
            DeviceEvent::ReadCompleted(Ok(vec![0])),
            DeviceEvent::ReadCompleted(Err(io_error("late"))),
        ];
        for event in events {
            assert_eq!(initialize(state, event), (state, HandshakeAction::Nothing));
        }
    }
}

#[test]
fn event_out_of_turn_changes_nothing() {
    assert_eq!(
        initialize(ProtocolState::Uninitialized, DeviceEvent::WriteCompleted(Ok(()))),
        (ProtocolState::Uninitialized, HandshakeAction::Nothing)
    );
    assert_eq!(
        initialize(ProtocolState::Uninitialized, DeviceEvent::ReadCompleted(Ok(vec![]))),
        (ProtocolState::Uninitialized, HandshakeAction::Nothing)
    );
    let awaiting_write = ProtocolState::Negotiating(NegotiationStep::AwaitingWrite);
    assert_eq!(
        initialize(awaiting_write, DeviceEvent::ReadCompleted(Ok(vec![]))),
        (awaiting_write, HandshakeAction::Nothing)
    );
    assert_eq!(
        initialize(awaiting_write, DeviceEvent::Discovered),
        (awaiting_write, HandshakeAction::Nothing)
    );
    let awaiting_read = ProtocolState::Negotiating(NegotiationStep::AwaitingRead);
    assert_eq!(
        initialize(awaiting_read, DeviceEvent::WriteCompleted(Ok(()))),
        (awaiting_read, HandshakeAction::Nothing)
    );
}

#[test]
fn session_request_encodes_to_five_bytes() {
    assert_eq!(session_request().encode(), SESSION_REQUEST_BYTES.to_vec());
}

#[test]
fn session_fields_at_their_defaults_are_left_out() {
    let empty = SessionData { sec_ver: SecSchemeVersion::SecScheme0, proto: None };
    assert_eq!(empty.encode(), Vec::<u8>::new());
    let bare = Sec0Payload { msg: Sec0MsgType::S0SessionCommand, payload: None };
    assert_eq!(bare.encode(), Vec::<u8>::new());
    assert_eq!(S0SessionCmd {}.encode(), Vec::<u8>::new());
}

#[test]
fn session_enumerations_are_written_as_varints() {
    let scheme1 = SessionData { sec_ver: SecSchemeVersion::SecScheme1, proto: None };
    assert_eq!(scheme1.encode(), vec![0x10, 0x01]);
    let response = Sec0Payload { msg: Sec0MsgType::S0SessionResponse, payload: None };
    assert_eq!(response.encode(), vec![0x08, 0x01]);
    let both = SessionData {
        sec_ver: SecSchemeVersion::SecScheme1,
        proto: Some(SessionProto::Sec0(Sec0Payload {
            msg: Sec0MsgType::S0SessionResponse,
            payload: Some(Sec0Body::Sc(S0SessionCmd {})),
        })),
    };
    assert_eq!(both.encode(), vec![0x10, 0x01, 0x52, 0x05, 0x08, 0x01, 0xA2, 0x01, 0x00]);
    assert_eq!(SecSchemeVersion::SecScheme0.to_number(), 0);
    assert_eq!(SecSchemeVersion::SecScheme1.to_number(), 1);
    assert_eq!(Sec0MsgType::S0SessionCommand.to_number(), 0);
    assert_eq!(Sec0MsgType::S0SessionResponse.to_number(), 1);
}

#[test]
fn linear_command_becomes_one_acknowledged_write() {
    let command = linear(vec![VectorSubcommand::new(0, 500, 0.75f64.to_bits())]);
    let write = adapter().handle_linear_cmd(command);
    assert_eq!(
        write,
        Ok(DeviceWriteCmd::new(Endpoint::Tx, LINEAR_500_075_BYTES.to_vec(), true))
    );
}

#[test]
fn linear_write_decodes_to_axis_zero_duration_and_position() {
    let command = linear(vec![VectorSubcommand::new(0, 500, 0.75f64.to_bits())]);
    let write = adapter().handle_linear_cmd(command).unwrap();
    let mut payload: &[u8] = &write.data;

    assert_eq!(decode_key(&mut payload).unwrap(), (1, WireType::LengthDelimited));
    assert_eq!(decode_varint(&mut payload).unwrap() as usize, payload.len());
    assert_eq!(decode_key(&mut payload).unwrap(), (403, WireType::LengthDelimited));
    assert_eq!(decode_varint(&mut payload).unwrap() as usize, payload.len());
    assert_eq!(decode_key(&mut payload).unwrap(), (1, WireType::Varint));
    assert_eq!(decode_varint(&mut payload).unwrap(), 2);
    assert_eq!(decode_key(&mut payload).unwrap(), (3, WireType::LengthDelimited));
    assert_eq!(decode_varint(&mut payload).unwrap() as usize, payload.len());
    assert_eq!(decode_key(&mut payload).unwrap(), (2, WireType::Varint));
    assert_eq!(decode_varint(&mut payload).unwrap(), 500);
    assert_eq!(decode_key(&mut payload).unwrap(), (3, WireType::SixtyFourBit));
    assert_eq!(payload.len(), 8);
    let mut bits = [0u8; 8];
    bits.copy_from_slice(payload);
    assert_eq!(f64::from_le_bytes(bits), 0.75);
}

#[test]
fn linear_command_ignores_index_and_device_of_the_request() {
    let mut command = LinearCmd::new(17, vec![VectorSubcommand::new(5, 500, 0.75f64.to_bits())]);
    command.set_id(99);
    let write = adapter().handle_linear_cmd(command).unwrap();
    assert_eq!(write.data, LINEAR_500_075_BYTES.to_vec());
}

#[test]
fn linear_command_without_vectors_is_a_count_mismatch() {
    assert_eq!(adapter().handle_linear_cmd(linear(vec![])), Err(count_mismatch(1, 0)));
}

#[test]
fn linear_command_with_more_vectors_is_a_count_mismatch() {
    let two = vec![
        VectorSubcommand::new(0, 500, 0.75f64.to_bits()),
        VectorSubcommand::new(1, 500, 0.25f64.to_bits()),
    ];
    assert_eq!(adapter().handle_linear_cmd(linear(two)), Err(count_mismatch(1, 2)));
    let many = vec![VectorSubcommand::new(0, 1, 0); 300];
    assert_eq!(adapter().handle_linear_cmd(linear(many)), Err(count_mismatch(1, 300)));
}

#[test]
fn linear_fields_at_zero_are_left_out() {
    let resting = linear(vec![VectorSubcommand::new(0, 0, 0.0f64.to_bits())]);
    assert_eq!(
        adapter().handle_linear_cmd(resting).unwrap().data,
        vec![0x0A, 0x07, 0x9A, 0x19, 0x04, 0x08, 0x02, 0x1A, 0x00]
    );
    let negative_zero = linear(vec![VectorSubcommand::new(0, 0, (-0.0f64).to_bits())]);
    assert_eq!(
        adapter().handle_linear_cmd(negative_zero).unwrap().data,
        vec![0x0A, 0x07, 0x9A, 0x19, 0x04, 0x08, 0x02, 0x1A, 0x00]
    );
    let instant = linear(vec![VectorSubcommand::new(0, 0, 1.0f64.to_bits())]);
    assert_eq!(
        adapter().handle_linear_cmd(instant).unwrap().data,
        vec![
            0x0A, 0x10, 0x9A, 0x19, 0x0D, 0x08, 0x02, 0x1A, 0x09, 0x19, 0x00, 0x00, 0x00, 0x00,
            0x00, 0x00, 0xF0, 0x3F
        ]
    );
}

#[test]
fn linear_duration_uses_as_many_bytes_as_it_needs() {
    let short = linear(vec![VectorSubcommand::new(0, 127, 0)]);
    assert_eq!(
        adapter().handle_linear_cmd(short).unwrap().data,
        vec![0x0A, 0x09, 0x9A, 0x19, 0x06, 0x08, 0x02, 0x1A, 0x02, 0x10, 0x7F]
    );
    let longer = linear(vec![VectorSubcommand::new(0, 128, 0)]);
    assert_eq!(
        adapter().handle_linear_cmd(longer).unwrap().data,
        vec![0x0A, 0x0A, 0x9A, 0x19, 0x07, 0x08, 0x02, 0x1A, 0x03, 0x10, 0x80, 0x01]
    );
    let longest = linear(vec![VectorSubcommand::new(0, u32::MAX, 0)]);
    assert_eq!(
        adapter().handle_linear_cmd(longest).unwrap().data,
        vec![
            0x0A, 0x0D, 0x9A, 0x19, 0x0A, 0x08, 0x02, 0x1A, 0x06, 0x10, 0xFF, 0xFF, 0xFF, 0xFF,
            0x0F
        ]
    );
}

#[test]
fn position_bits_are_written_least_significant_byte_first() {
    let command = linear(vec![VectorSubcommand::new(0, 0, 0x0102_0304_0506_0708)]);
    assert_eq!(
        adapter().handle_linear_cmd(command).unwrap().data,
        vec![
            0x0A, 0x10, 0x9A, 0x19, 0x0D, 0x08, 0x02, 0x1A, 0x09, 0x19, 0x08, 0x07, 0x06, 0x05,
            0x04, 0x03, 0x02, 0x01
        ]
    );
}

#[test]
fn completed_write_is_answered_with_the_generic_acknowledgment() {
    assert_eq!(
        complete_linear_cmd(Ok(())),
        Ok(ButtplugServerMessage::OkReply(OkReply::default()))
    );
    assert_eq!(complete_linear_cmd(Ok(())), Ok(ButtplugServerMessage::OkReply(OkReply::new(1))));
}

#[test]
fn failed_write_is_answered_with_its_error() {
    assert_eq!(complete_linear_cmd(Err(io_error("gone"))), Err(io_error("gone")));
}

#[test]
fn device_vector_encodes_each_set_field() {
    let vector = handyplug::Vector { index: 1, duration: 300, position: 0.5f64.to_bits() };
    assert_eq!(
        vector.encode(),
        vec![0x08, 0x01, 0x10, 0xAC, 0x02, 0x19, 0x00, 0x00, 0x00, 0x00, 0x00, 0x00, 0xE0, 0x3F]
    );
    let nothing = handyplug::Vector { index: 0, duration: 0, position: 0 };
    assert_eq!(nothing.encode(), Vec::<u8>::new());
}

#[test]
fn device_linear_command_encodes_its_vectors_in_order() {
    let command = handyplug::LinearCmd {
        id: 7,
        device_index: 3,
        vectors: vec![
            handyplug::Vector { index: 0, duration: 1, position: 0 },
            handyplug::Vector { index: 1, duration: 2, position: 0 },
            handyplug::Vector { index: 0, duration: 0, position: 0 },
        ],
    };
    assert_eq!(
        command.encode(),
        vec![
            0x08, 0x07, 0x10, 0x03, 0x1A, 0x02, 0x10, 0x01, 0x1A, 0x04, 0x08, 0x01, 0x10, 0x02,
            0x1A, 0x00
        ]
    );
    let empty = handyplug::LinearCmd { id: 0, device_index: 0, vectors: vec![] };
    assert_eq!(empty.encode(), Vec::<u8>::new());
}

#[test]
fn device_payload_encodes_its_messages_in_order() {
    let first = handyplug::Message {
        message: Some(handyplug::Command::LinearCmd(handyplug::LinearCmd {
            id: 1,
            device_index: 0,
            vectors: vec![],
        })),
    };
    let second = handyplug::Message { message: None };
    assert_eq!(first.encode(), vec![0x9A, 0x19, 0x02, 0x08, 0x01]);
    assert_eq!(second.encode(), Vec::<u8>::new());
    let payload = handyplug::Payload { messages: vec![first, second] };
    assert_eq!(payload.encode(), vec![0x0A, 0x05, 0x9A, 0x19, 0x02, 0x08, 0x01, 0x0A, 0x00]);
    assert_eq!(handyplug::Payload { messages: vec![] }.encode(), Vec::<u8>::new());
}

#[test]
fn long_message_gets_a_length_of_two_bytes() {
    let vectors = vec![handyplug::Vector { index: 1, duration: 1, position: 0 }; 40];
    let command = handyplug::LinearCmd { id: 0, device_index: 0, vectors };
    let body = command.encode();
    assert_eq!(body.len(), 240);
    let message = handyplug::Message { message: Some(handyplug::Command::LinearCmd(command)) };
    let encoded = message.encode();
    assert_eq!(encoded[..4], [0x9A, 0x19, 0xF0, 0x01]);
    assert_eq!(encoded[4..], body[..]);
}

#[test]
fn adapter_keeps_what_it_was_set_up_with() {
    let attributes =
        vec![DeviceMessageAttributes::new(ButtplugDeviceMessageType::LinearCmd, 1, vec![100])];
    let stop_commands = vec![ButtplugDeviceCommandMessageUnion::StopDeviceCmd(StopDeviceCmd::new(0))];
    let adapter =
        TheHandy::new_protocol("The Handy", attributes.clone(), 5u8, stop_commands.clone());
    assert_eq!(adapter.name(), "The Handy");
    assert_eq!(adapter.message_attributes(), &attributes);
    assert_eq!(adapter.stop_commands(), &stop_commands);
    assert_eq!(adapter.manager().try_lock().map(|manager| *manager).ok(), Some(5u8));
}

#[test]
fn adapter_hands_out_the_one_handle_on_its_manager() {
    let adapter = TheHandy::new_protocol("The Handy", vec![], 5u8, vec![]);
    assert!(std::sync::Arc::ptr_eq(adapter.manager(), adapter.manager()));
    let shared = adapter.manager().clone();
    *shared.try_lock().unwrap() = 6;
    assert_eq!(adapter.manager().try_lock().map(|manager| *manager).ok(), Some(6u8));
}
