use buttplug::errors::ButtplugMessageError;
use buttplug::messages::device_commands::{
    ButtplugDeviceCommandMessageUnion, LinearCmd, StopDeviceCmd, VectorSubcommand,
};
use buttplug::messages::log::{Log, LogLevel, RequestLog};
use buttplug::messages::status::{DeviceRemoved, OkReply, Ping};
use buttplug::messages::{
    is_not_system_id, is_system_id, ButtplugClientMessage, ButtplugCurrentSpecClientMessage,
    ButtplugCurrentSpecServerMessage, ButtplugServerMessage, CLIENT_SPEC_CONVERSION_FAILED,
    REQUEST_ID_REQUIRED, SYSTEM_ID_REQUIRED,
};

fn system_id_required() -> Result<(), ButtplugMessageError> {
    Err(ButtplugMessageError::InvalidMessageContents(SYSTEM_ID_REQUIRED))
}

fn request_id_required() -> Result<(), ButtplugMessageError> {
    Err(ButtplugMessageError::InvalidMessageContents(REQUEST_ID_REQUIRED))
}

#[test]
fn system_id_rule_accepts_only_zero() {
    assert_eq!(is_system_id(0), Ok(()));
    assert_eq!(is_system_id(1), system_id_required());
    assert_eq!(is_system_id(u32::MAX), system_id_required());
}

#[test]
fn request_id_rule_rejects_only_zero() {
    assert_eq!(is_not_system_id(0), request_id_required());
    assert_eq!(is_not_system_id(1), Ok(()));
    assert_eq!(is_not_system_id(u32::MAX), Ok(()));
}

#[test]
fn the_two_id_rules_have_their_own_texts() {
    assert_ne!(SYSTEM_ID_REQUIRED, REQUEST_ID_REQUIRED);
}

#[test]
fn new_log_is_a_system_message() {
    let log = Log::new(LogLevel::Warn, "battery low");
    assert_eq!(log.get_id(), 0);
    assert_eq!(log.log_level(), LogLevel::Warn);
    assert_eq!(log.log_message(), "battery low");
    assert_eq!(log.is_valid(), Ok(()));
}

#[test]
fn new_log_keeps_an_empty_text() {
    let log = Log::new(LogLevel::Off, "");
    assert_eq!(log.log_message(), "");
    assert_eq!(log.get_id(), 0);
}

#[test]
fn log_with_a_request_id_can_be_built_but_not_dispatched() {
    let mut log = Log::new(LogLevel::Info, "hello");
    log.set_id(7);
    assert_eq!(log.get_id(), 7);
    assert_eq!(log.log_level(), LogLevel::Info);
    assert_eq!(log.log_message(), "hello");
    assert_eq!(log.is_valid(), system_id_required());
    log.set_id(0);
    assert_eq!(log.is_valid(), Ok(()));
}

#[test]
fn requests_start_under_a_nonzero_id() {
    assert_eq!(Ping::new().get_id(), 1);
    assert_eq!(RequestLog::new(LogLevel::Debug).get_id(), 1);
    assert_eq!(StopDeviceCmd::new(3).get_id(), 1);
    assert_eq!(LinearCmd::new(3, vec![]).get_id(), 1);
    assert_eq!(Ping::new().is_valid(), Ok(()));
    assert_eq!(RequestLog::new(LogLevel::Debug).is_valid(), Ok(()));
    assert_eq!(StopDeviceCmd::new(3).is_valid(), Ok(()));
    assert_eq!(LinearCmd::new(3, vec![]).is_valid(), Ok(()));
}

#[test]
fn requests_under_the_system_id_are_not_dispatched() {
    let mut ping = Ping::new();
    ping.set_id(0);
    assert_eq!(ping.is_valid(), request_id_required());

    let mut request_log = RequestLog::new(LogLevel::Trace);
    request_log.set_id(0);
    assert_eq!(request_log, RequestLog { id: 0, log_level: LogLevel::Trace });
    assert_eq!(request_log.is_valid(), request_id_required());

    let mut stop = StopDeviceCmd::new(4);
    stop.set_id(0);
    assert_eq!(stop.device_index(), 4);
    assert_eq!(stop.is_valid(), request_id_required());

    let mut linear = LinearCmd::new(4, vec![VectorSubcommand::new(0, 10, 0)]);
    linear.set_id(0);
    assert_eq!(linear.device_index(), 4);
    assert_eq!(linear.vectors().len(), 1);
    assert_eq!(linear.is_valid(), request_id_required());
}

#[test]
fn acknowledgment_needs_a_request_id() {
    assert_eq!(OkReply::new(12).is_valid(), Ok(()));
    assert_eq!(OkReply::new(0).is_valid(), request_id_required());
    assert_eq!(OkReply::default().get_id(), 1);
    let mut reply = OkReply::default();
    reply.set_id(42);
    assert_eq!(reply, OkReply::new(42));
}

#[test]
fn device_removed_is_a_system_message() {
    let mut event = DeviceRemoved::new(9);
    assert_eq!(event.get_id(), 0);
    assert_eq!(event.device_index(), 9);
    assert_eq!(event.is_valid(), Ok(()));
    event.set_id(2);
    assert_eq!(event, DeviceRemoved { id: 2, device_index: 9 });
    assert_eq!(event.is_valid(), system_id_required());
}

#[test]
fn vector_keeps_index_duration_and_position() {
    let vector = VectorSubcommand::new(1, 500, 0.75f64.to_bits());
    assert_eq!(vector.index(), 1);
    assert_eq!(vector.duration(), 500);
    assert_eq!(f64::from_bits(vector.position()), 0.75);
}

#[test]
fn client_message_reports_the_id_of_its_kind() {
    let mut stop = StopDeviceCmd::new(1);
    stop.set_id(21);
    let mut linear = LinearCmd::new(1, vec![]);
    linear.set_id(22);
    let mut ping = Ping::new();
    ping.set_id(23);
    assert_eq!(ButtplugCurrentSpecClientMessage::StopDeviceCmd(stop).get_id(), 21);
    assert_eq!(ButtplugCurrentSpecClientMessage::LinearCmd(linear.clone()).get_id(), 22);
    assert_eq!(ButtplugCurrentSpecClientMessage::Ping(ping).get_id(), 23);
    assert_eq!(ButtplugDeviceCommandMessageUnion::StopDeviceCmd(stop).get_id(), 21);
    assert_eq!(ButtplugDeviceCommandMessageUnion::LinearCmd(linear).get_id(), 22);
}

#[test]
fn client_message_converts_into_the_internal_schema() {
    let mut linear = LinearCmd::new(2, vec![VectorSubcommand::new(0, 500, 0.75f64.to_bits())]);
    linear.set_id(5);
    let message = ButtplugCurrentSpecClientMessage::LinearCmd(linear.clone());
    assert_eq!(message.into_internal(), ButtplugClientMessage::LinearCmd(linear));

    let stop = StopDeviceCmd::new(2);
    assert_eq!(
        ButtplugCurrentSpecClientMessage::StopDeviceCmd(stop).into_internal(),
        ButtplugClientMessage::StopDeviceCmd(stop)
    );

    let ping = Ping::new();
    assert_eq!(
        ButtplugCurrentSpecClientMessage::Ping(ping).into_internal(),
        ButtplugClientMessage::Ping(ping)
    );
}

#[test]
fn internal_client_message_follows_the_request_id_rule() {
    let mut request = RequestLog::new(LogLevel::Error);
    assert_eq!(ButtplugClientMessage::RequestLog(request).get_id(), 1);
    assert_eq!(ButtplugClientMessage::RequestLog(request).is_valid(), Ok(()));
    request.set_id(0);
    assert_eq!(ButtplugClientMessage::RequestLog(request).is_valid(), request_id_required());
    let mut ping = Ping::new();
    ping.set_id(0);
    assert_eq!(ButtplugCurrentSpecClientMessage::Ping(ping).is_valid(), request_id_required());
    assert_eq!(
        ButtplugDeviceCommandMessageUnion::StopDeviceCmd(StopDeviceCmd::new(0)).is_valid(),
        Ok(())
    );
}

#[test]
fn server_message_follows_the_id_rule_of_its_kind() {
    assert_eq!(ButtplugServerMessage::OkReply(OkReply::new(3)).is_valid(), Ok(()));
    assert_eq!(ButtplugServerMessage::OkReply(OkReply::new(0)).is_valid(), request_id_required());
    assert_eq!(ButtplugServerMessage::Log(Log::new(LogLevel::Info, "x")).is_valid(), Ok(()));
    assert_eq!(ButtplugServerMessage::DeviceRemoved(DeviceRemoved::new(1)).is_valid(), Ok(()));
    let misplaced = DeviceRemoved { id: 4, device_index: 1 };
    assert_eq!(ButtplugServerMessage::DeviceRemoved(misplaced).is_valid(), system_id_required());
    assert_eq!(
        ButtplugCurrentSpecServerMessage::DeviceRemoved(misplaced).is_valid(),
        system_id_required()
    );
    assert_eq!(ButtplugCurrentSpecServerMessage::OkReply(OkReply::new(3)).is_valid(), Ok(()));
    assert_eq!(
        ButtplugCurrentSpecServerMessage::OkReply(OkReply::new(0)).is_valid(),
        request_id_required()
    );
}

#[test]
fn server_message_converts_into_the_current_schema_with_its_id() {
    let reply = ButtplugServerMessage::OkReply(OkReply::new(77));
    assert_eq!(reply.get_id(), 77);
    let converted = reply.into_current_spec();
    assert_eq!(converted, Ok(ButtplugCurrentSpecServerMessage::OkReply(OkReply::new(77))));
    assert_eq!(converted.unwrap().get_id(), 77);

    let event = ButtplugServerMessage::DeviceRemoved(DeviceRemoved::new(6));
    assert_eq!(
        event.into_current_spec(),
        Ok(ButtplugCurrentSpecServerMessage::DeviceRemoved(DeviceRemoved::new(6)))
    );
}

#[test]
fn log_line_has_no_place_in_the_current_schema() {
    let log = ButtplugServerMessage::Log(Log::new(LogLevel::Fatal, "gone"));
    assert_eq!(log.get_id(), 0);
    assert_eq!(
        log.into_current_spec(),
        Err(ButtplugMessageError::MessageConversionError(CLIENT_SPEC_CONVERSION_FAILED))
    );
    assert_eq!(CLIENT_SPEC_CONVERSION_FAILED, "Cannot convert server message to client spec.");
}
