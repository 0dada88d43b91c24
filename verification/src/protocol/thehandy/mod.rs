//! Adapter for a single-axis linear device that speaks protocol buffers.
//!
//! Before it takes commands the device wants a session: the adapter writes
//! one session request to the control endpoint and reads the answer, which
//! it does not look at. After that a linear movement is one acknowledged
//! write to the data endpoint.
//!
//! The adapter decides and encodes. The caller performs each endpoint
//! operation that the adapter hands out, and reports how it went.

pub mod handyplug;
pub mod protocomm;

use crate::device::{DeviceMessageAttributesMap, DeviceReadCmd, DeviceWriteCmd, Endpoint};
use crate::errors::{ButtplugDeviceError, ButtplugError};
use crate::messages::device_commands::{ButtplugDeviceCommandMessageUnion, LinearCmd};
use crate::messages::status::OkReply;
use crate::messages::ButtplugServerMessage;
use crate::protocol::thehandy::handyplug::{
    Command, CommandView, LinearCmdView, Message, MessageView, Payload, PayloadView, Vector,
};
use crate::protocol::thehandy::protocomm::{
    S0SessionCmd, Sec0Body, Sec0MsgType, Sec0Payload, SecSchemeVersion, SessionData, SessionProto,
};
use crate::tokio_specs::new_lock;
use std::sync::Arc;
use tokio::sync::Mutex;
use vstd::prelude::*;

verus! {

/// How many linear actuators the device has.
pub const LINEAR_ACTUATOR_COUNT: u32 = 1;

/// The id that every linear movement carries on the wire. The device
/// handles one command at a time and does not tell them apart.
pub const LINEAR_CMD_WIRE_ID: u32 = 2;

/// The most bytes that the handshake reads.
pub const HANDSHAKE_READ_LENGTH: u32 = 100;

/// How long the handshake waits for its read, in milliseconds.
pub const HANDSHAKE_READ_TIMEOUT_MS: u32 = 500;

/// The session request that opens the handshake: security scheme 0, and an
/// empty session command.
pub open spec fn session_request() -> SessionData {
    SessionData {
        sec_ver: SecSchemeVersion::SecScheme0,
        proto: Some(
            SessionProto::Sec0(
                Sec0Payload {
                    msg: Sec0MsgType::S0SessionCommand,
                    payload: Some(Sec0Body::Sc(S0SessionCmd {  })),
                },
            ),
        ),
    }
}

/// The write that opens the handshake: the session request, to the control
/// endpoint, without acknowledgment.
pub open spec fn is_session_write(command: DeviceWriteCmd) -> bool {
    &&& command.endpoint == Endpoint::Firmware
    &&& command.data@ == session_request().wire()
    &&& !command.write_with_response
}

/// The read that closes the handshake: bounded in length and time, from the
/// control endpoint.
pub open spec fn handshake_read() -> DeviceReadCmd {
    DeviceReadCmd {
        endpoint: Endpoint::Firmware,
        length: HANDSHAKE_READ_LENGTH,
        timeout_ms: HANDSHAKE_READ_TIMEOUT_MS,
    }
}

/// The bytes that move the one actuator of the device to `position` within
/// `duration` milliseconds: a payload of one message, which holds a linear
/// movement for device 0 with one entry for axis 0.
pub open spec fn linear_payload(duration: u32, position: u64) -> Seq<u8> {
    PayloadView {
        messages: seq![
            MessageView {
                message: Some(
                    CommandView::LinearCmd(
                        LinearCmdView {
                            id: LINEAR_CMD_WIRE_ID,
                            device_index: 0,
                            vectors: seq![Vector { index: 0, duration, position }],
                        },
                    ),
                ),
            },
        ],
    }.wire()
}

/// The write that carries out a linear movement: its payload, to the data
/// endpoint, with acknowledgment.
pub open spec fn is_linear_write(command: DeviceWriteCmd, duration: u32, position: u64) -> bool {
    &&& command.endpoint == Endpoint::Tx
    &&& command.data@ == linear_payload(duration, position)
    &&& command.write_with_response
}

/// Which endpoint operation a handshake waits for.
#[derive(Debug, Clone, Copy, PartialEq, Eq, Structural)]
pub enum NegotiationStep {
    /// The session request was handed out and is not yet written.
    AwaitingWrite,
    /// The session request is written and the answer not yet read.
    AwaitingRead,
}

/// Where a device stands between discovery and command traffic. The states
/// follow one another in this order; `Ready` and `Failed` are final.
#[derive(Debug, Clone, Copy, PartialEq, Eq, Structural)]
pub enum ProtocolState {
    /// Discovered, nothing sent yet.
    Uninitialized,
    /// The handshake is under way.
    Negotiating(NegotiationStep),
    /// The handshake is done: the device takes commands.
    Ready,
    /// The handshake failed. It is not tried again.
    Failed,
}

/// What the caller reports to a handshake.
#[derive(Debug, PartialEq, Eq)]
pub enum DeviceEvent {
    /// The device was matched to this family: the handshake may begin.
    Discovered,
    /// The write that was asked for has succeeded or failed.
    WriteCompleted(Result<(), ButtplugError>),
    /// The read that was asked for has returned bytes or failed.
    ReadCompleted(Result<Vec<u8>, ButtplugError>),
}

/// What a handshake asks of the caller next.
#[derive(Debug, PartialEq, Eq)]
pub enum HandshakeAction {
    /// Perform this write and report its outcome.
    Write(DeviceWriteCmd),
    /// Perform this read and report its outcome.
    Read(DeviceReadCmd),
    /// The handshake is over. On success the value is the new name of the
    /// device, if the handshake has found one.
    Done(Result<Option<String>, ButtplugError>),
    /// The event does not belong to this state: nothing is to be done.
    Nothing,
}

/// One step of the handshake: what state follows `state` on `event`, and what
/// is asked of the caller.
///
/// A device that was just discovered is sent the session request. When the
/// write has succeeded the answer is read, and when the read has returned,
/// whatever it returned, the device is ready, under the name it had. A write
/// or read that fails ends the handshake with that error. Any other event
/// changes nothing.
pub open spec fn handshake_step(
    state: ProtocolState,
    event: DeviceEvent,
    next: ProtocolState,
    action: HandshakeAction,
) -> bool {
    match (state, event) {
        (ProtocolState::Uninitialized, DeviceEvent::Discovered) => {
            &&& next == ProtocolState::Negotiating(NegotiationStep::AwaitingWrite)
            &&& action matches HandshakeAction::Write(command)
            &&& is_session_write(command)
        },
        (
            ProtocolState::Negotiating(NegotiationStep::AwaitingWrite),
            DeviceEvent::WriteCompleted(Ok(_)),
        ) => {
            &&& next == ProtocolState::Negotiating(NegotiationStep::AwaitingRead)
            &&& action == HandshakeAction::Read(handshake_read())
        },
        (
            ProtocolState::Negotiating(NegotiationStep::AwaitingWrite),
            DeviceEvent::WriteCompleted(Err(error)),
        ) => {
            &&& next == ProtocolState::Failed
            &&& action == HandshakeAction::Done(Err(error))
        },
        (
            ProtocolState::Negotiating(NegotiationStep::AwaitingRead),
            DeviceEvent::ReadCompleted(Ok(_)),
        ) => {
            &&& next == ProtocolState::Ready
            &&& action == HandshakeAction::Done(Ok(None))
        },
        (
            ProtocolState::Negotiating(NegotiationStep::AwaitingRead),
            DeviceEvent::ReadCompleted(Err(error)),
        ) => {
            &&& next == ProtocolState::Failed
            &&& action == HandshakeAction::Done(Err(error))
        },
        _ => {
            &&& next == state
            &&& action == HandshakeAction::Nothing
        },
    }
}

/// What becomes of a linear movement once its write has completed: the
/// generic acknowledgment if the write succeeded, else the error of the
/// write.
pub open spec fn linear_cmd_outcome(written: Result<(), ButtplugError>) -> Result<
    ButtplugServerMessage,
    ButtplugError,
> {
    match written {
        Ok(_) => Ok(ButtplugServerMessage::OkReply(OkReply { id: 1 })),
        Err(error) => Err(error),
    }
}

/// Takes the handshake one step further.
///
/// Begin with `ProtocolState::Uninitialized` and
/// `DeviceEvent::Discovered`. Carry out each write or read that comes
/// back, and report its outcome together with the state that came back
/// with it, until the action is `HandshakeAction::Done`.
pub fn initialize(state: ProtocolState, event: DeviceEvent) -> (step: (
    ProtocolState,
    HandshakeAction,
))
    ensures
        handshake_step(state, event, step.0, step.1),
{
    match (state, event) {
        (ProtocolState::Uninitialized, DeviceEvent::Discovered) => {
            let session_req = SessionData {
                sec_ver: SecSchemeVersion::SecScheme0,
                proto: Some(
                    SessionProto::Sec0(
                        Sec0Payload {
                            msg: Sec0MsgType::S0SessionCommand,
                            payload: Some(Sec0Body::Sc(S0SessionCmd {  })),
                        },
                    ),
                ),
            };
            let sec_buf = session_req.encode();
            (
                ProtocolState::Negotiating(NegotiationStep::AwaitingWrite),
                HandshakeAction::Write(DeviceWriteCmd::new(Endpoint::Firmware, sec_buf, false)),
            )
        },
        (
            ProtocolState::Negotiating(NegotiationStep::AwaitingWrite),
            DeviceEvent::WriteCompleted(Ok(_)),
        ) => (
            ProtocolState::Negotiating(NegotiationStep::AwaitingRead),
            HandshakeAction::Read(
                DeviceReadCmd::new(
                    Endpoint::Firmware,
                    HANDSHAKE_READ_LENGTH,
                    HANDSHAKE_READ_TIMEOUT_MS,
                ),
            ),
        ),
        (
            ProtocolState::Negotiating(NegotiationStep::AwaitingWrite),
            DeviceEvent::WriteCompleted(Err(error)),
        ) => (ProtocolState::Failed, HandshakeAction::Done(Err(error))),
        (
            ProtocolState::Negotiating(NegotiationStep::AwaitingRead),
            DeviceEvent::ReadCompleted(Ok(_)),
        ) => (ProtocolState::Ready, HandshakeAction::Done(Ok(None))),
        (
            ProtocolState::Negotiating(NegotiationStep::AwaitingRead),
            DeviceEvent::ReadCompleted(Err(error)),
        ) => (ProtocolState::Failed, HandshakeAction::Done(Err(error))),
        (state, _) => (state, HandshakeAction::Nothing),
    }
}

/// Answers a linear movement once its write has completed: with the
/// generic acknowledgment if the write succeeded, and not with anything
/// the device may have replied; else with the error of the write.
pub fn complete_linear_cmd(written: Result<(), ButtplugError>) -> (result: Result<
    ButtplugServerMessage,
    ButtplugError,
>)
    ensures
        result == linear_cmd_outcome(written),
{
    match written {
        Ok(_) => Ok(ButtplugServerMessage::OkReply(OkReply::default())),
        Err(error) => Err(error),
    }
}

/// The adapter of one device that is ready for commands.
///
/// It holds what was known when the device was set up and never changes it:
/// the name of the device, what it announced it can do, the commands that
/// halt it, and a handle on the bookkeeping of the command manager that
/// other parts of the system share.
#[verifier::reject_recursive_types(M)]
pub struct TheHandy<M> {
    name: String,
    message_attributes: DeviceMessageAttributesMap,
    manager: Arc<Mutex<M>>,
    stop_commands: Vec<ButtplugDeviceCommandMessageUnion>,
}

impl<M> TheHandy<M> {
    /// The name of the device.
    pub closed spec fn spec_name(&self) -> Seq<char> {
        self.name@
    }

    /// What the device announced it can do.
    pub closed spec fn spec_message_attributes(&self) -> DeviceMessageAttributesMap {
        self.message_attributes
    }

    /// The commands that halt the device.
    pub closed spec fn spec_stop_commands(&self) -> Vec<ButtplugDeviceCommandMessageUnion> {
        self.stop_commands
    }

    /// The handle on the lock that guards the bookkeeping of the command
    /// manager. It is made once, with the adapter, and stays the same.
    pub closed spec fn spec_manager(&self) -> Arc<Mutex<M>> {
        self.manager
    }

    /// The adapter for a device of the given name and capabilities.
    ///
    /// `manager` is the command manager that was built from these
    /// capabilities, and `stop_commands` are the commands it gives for
    /// halting the device. The adapter puts the manager behind a lock of its
    /// own, to be shared.
    pub fn new_protocol(
        name: &str,
        message_attributes: DeviceMessageAttributesMap,
        manager: M,
        stop_commands: Vec<ButtplugDeviceCommandMessageUnion>,
    ) -> (adapter: Self)
        ensures
            adapter.spec_name() == name@,
            adapter.spec_message_attributes() == message_attributes,
            adapter.spec_stop_commands() == stop_commands,
    {
        Self {
            name: name.to_owned(),
            message_attributes,
            stop_commands,
            manager: Arc::new(new_lock(manager)),
        }
    }

    /// Plans a linear movement.
    ///
    /// The device has one actuator, so the command must hold exactly one
    /// vector. If it does, the result is the one write that carries the
    /// movement out. If it does not, the result is a count mismatch of
    /// `(1, count)`, and there is nothing to write.
    pub fn handle_linear_cmd(&self, message: LinearCmd) -> (result: Result<
        DeviceWriteCmd,
        ButtplugError,
    >)
        ensures
            match result {
                Ok(command) => {
                    &&& message.vectors@.len() == 1
                    &&& is_linear_write(
                        command,
                        message.vectors@[0].duration,
                        message.vectors@[0].position,
                    )
                },
                Err(error) => {
                    &&& message.vectors@.len() != 1
                    &&& error == ButtplugError::ButtplugDeviceError(
                        ButtplugDeviceError::DeviceFeatureCountMismatch(
                            LINEAR_ACTUATOR_COUNT,
                            message.vectors@.len() as u32,
                        ),
                    )
                },
            },
    {
        if message.vectors().len() != 1 {
            return Err(
                ButtplugError::ButtplugDeviceError(
                    ButtplugDeviceError::DeviceFeatureCountMismatch(
                        LINEAR_ACTUATOR_COUNT,
                        message.vectors().len() as u32,
                    ),
                ),
            );
        }
        let linear = handyplug::LinearCmd {
            id: LINEAR_CMD_WIRE_ID,
            device_index: 0,
            vectors: vec![
                Vector {
                    index: 0,
                    duration: message.vectors()[0].duration(),
                    position: message.vectors()[0].position(),
                },
            ],
        };
        let ghost entries = linear.vectors@;
        let linear_payload = Payload {
            messages: vec![Message { message: Some(Command::LinearCmd(linear)) }],
        };
        proof {
            assert(entries =~= seq![entries[0]]);
            assert(linear_payload@.messages =~= seq![linear_payload.messages@[0]@]);
        }
        let linear_buf = linear_payload.encode();
        Ok(DeviceWriteCmd::new(Endpoint::Tx, linear_buf, true))
    }

    pub fn name(&self) -> (name: &str)
        ensures
            name@ == self.spec_name(),
    {
        self.name.as_str()
    }

    pub fn message_attributes(&self) -> (attributes: &DeviceMessageAttributesMap)
        ensures
            *attributes == self.spec_message_attributes(),
    {
        &self.message_attributes
    }

    pub fn stop_commands(&self) -> (commands: &Vec<ButtplugDeviceCommandMessageUnion>)
        ensures
            *commands == self.spec_stop_commands(),
    {
        &self.stop_commands
    }

    /// The shared bookkeeping of the command manager: the handle that the
    /// adapter holds on its lock. This adapter does not consult it before it
    /// plans a command.
    pub fn manager(&self) -> (manager: &Arc<Mutex<M>>)
        ensures
            *manager == self.spec_manager(),
    {
        &self.manager
    }
}

/// A handshake whose write succeeds and whose read returns asks for exactly
/// one write and then exactly one bounded read, both on the control
/// endpoint, and then ends: the device is ready, under the name it had.
/// What the read returned plays no part.
pub proof fn lemma_handshake_writes_once_then_reads_once(
    content: Vec<u8>,
    first: (ProtocolState, HandshakeAction),
    second: (ProtocolState, HandshakeAction),
    third: (ProtocolState, HandshakeAction),
)
    requires
        handshake_step(ProtocolState::Uninitialized, DeviceEvent::Discovered, first.0, first.1),
        handshake_step(first.0, DeviceEvent::WriteCompleted(Ok(())), second.0, second.1),
        handshake_step(second.0, DeviceEvent::ReadCompleted(Ok(content)), third.0, third.1),
    ensures
        first.1 matches HandshakeAction::Write(command) && is_session_write(command),
        second.1 == HandshakeAction::Read(handshake_read()),
        handshake_read().endpoint == Endpoint::Firmware,
        third.1 == HandshakeAction::Done(Ok(None)),
        third.0 == ProtocolState::Ready,
{
}

/// A handshake that is over, in success or in failure, stays as it is and
/// asks for nothing more: there is no way back and no second try.
pub proof fn lemma_handshake_ends_for_good(
    state: ProtocolState,
    event: DeviceEvent,
    next: ProtocolState,
    action: HandshakeAction,
)
    requires
        state == ProtocolState::Ready || state == ProtocolState::Failed,
        handshake_step(state, event, next, action),
    ensures
        next == state,
        action == HandshakeAction::Nothing,
{
}

/// A write or read that fails ends the handshake with the error of that
/// operation, and nothing more is asked for.
pub proof fn lemma_handshake_failure_is_final(
    step: NegotiationStep,
    error: ButtplugError,
    next: ProtocolState,
    action: HandshakeAction,
)
    requires
        handshake_step(
            ProtocolState::Negotiating(step),
            match step {
                NegotiationStep::AwaitingWrite => DeviceEvent::WriteCompleted(Err(error)),
                NegotiationStep::AwaitingRead => DeviceEvent::ReadCompleted(Err(error)),
            },
            next,
            action,
        ),
    ensures
        next == ProtocolState::Failed,
        action == HandshakeAction::Done(Err(error)),
{
}

} // verus!
