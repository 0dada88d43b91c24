//! Messages exchanged between client, server and devices, and the rule that
//! decides whether a message may be dispatched.
//!
//! Every message carries an id. Id 0 is reserved for messages that the system
//! originates on its own; any other id correlates a request with its reply.
//! Building a message never checks this: validity is decided when a message
//! is accepted for dispatch, by `is_valid`.
//!
//! Two schemas are in play. The server speaks the internal schema, which
//! knows every message of every version. A client speaks the current
//! schema, which has dropped the legacy messages. Every message of a client
//! is one of the server's; not every message of the server is one that a
//! client understands.

pub mod device_commands;
pub mod log;
pub mod status;

use crate::errors::ButtplugMessageError;
use crate::messages::device_commands::{LinearCmd, StopDeviceCmd};
use crate::messages::log::{Log, RequestLog};
use crate::messages::status::{DeviceRemoved, OkReply, Ping};
use vstd::prelude::*;

verus! {

/// The id reserved for messages that the system originates.
pub const SYSTEM_ID: u32 = 0;

/// Reported when a system message carries a request id.
pub const SYSTEM_ID_REQUIRED: &'static str =
    "A system message must carry id 0.";

/// Reported when a request or reply carries the reserved id.
pub const REQUEST_ID_REQUIRED: &'static str =
    "A request or reply must carry a nonzero id: id 0 is reserved for system messages.";

/// What `is_system_id` answers for every id.
pub open spec fn system_id_check(id: u32) -> Result<(), ButtplugMessageError> {
    if id == SYSTEM_ID {
        Ok(())
    } else {
        Err(ButtplugMessageError::InvalidMessageContents(SYSTEM_ID_REQUIRED))
    }
}

/// What `is_not_system_id` answers for every id.
pub open spec fn request_id_check(id: u32) -> Result<(), ButtplugMessageError> {
    if id != SYSTEM_ID {
        Ok(())
    } else {
        Err(ButtplugMessageError::InvalidMessageContents(REQUEST_ID_REQUIRED))
    }
}

/// The id rule of system-originated messages: the id must be 0.
pub fn is_system_id(id: u32) -> (result: Result<(), ButtplugMessageError>)
    ensures
        result == system_id_check(id),
{
    if id == SYSTEM_ID {
        Ok(())
    } else {
        Err(ButtplugMessageError::InvalidMessageContents(SYSTEM_ID_REQUIRED))
    }
}

/// The id rule of requests and replies: the id must not be 0.
pub fn is_not_system_id(id: u32) -> (result: Result<(), ButtplugMessageError>)
    ensures
        result == request_id_check(id),
{
    if id != SYSTEM_ID {
        Ok(())
    } else {
        Err(ButtplugMessageError::InvalidMessageContents(REQUEST_ID_REQUIRED))
    }
}

/// Reported when a message of the server has no counterpart in the schema
/// of the client.
pub const CLIENT_SPEC_CONVERSION_FAILED: &'static str =
    "Cannot convert server message to client spec.";

/// A message from a client, in the internal schema.
#[derive(Debug, Clone, PartialEq, Eq)]
pub enum ButtplugClientMessage {
    Ping(Ping),
    RequestLog(RequestLog),
    StopDeviceCmd(StopDeviceCmd),
    LinearCmd(LinearCmd),
}

impl ButtplugClientMessage {
    /// The id of the message, whatever its kind.
    pub open spec fn id(self) -> u32 {
        match self {
            ButtplugClientMessage::Ping(message) => message.id,
            ButtplugClientMessage::RequestLog(message) => message.id,
            ButtplugClientMessage::StopDeviceCmd(message) => message.id,
            ButtplugClientMessage::LinearCmd(message) => message.id,
        }
    }

    pub fn get_id(&self) -> (id: u32)
        ensures
            id == self.id(),
    {
        match self {
            ButtplugClientMessage::Ping(message) => message.get_id(),
            ButtplugClientMessage::RequestLog(message) => message.get_id(),
            ButtplugClientMessage::StopDeviceCmd(message) => message.get_id(),
            ButtplugClientMessage::LinearCmd(message) => message.get_id(),
        }
    }

    /// Every message of a client is a request: it may be dispatched exactly
    /// when its id is not the system id.
    pub fn is_valid(&self) -> (result: Result<(), ButtplugMessageError>)
        ensures
            result == request_id_check(self.id()),
    {
        match self {
            ButtplugClientMessage::Ping(message) => message.is_valid(),
            ButtplugClientMessage::RequestLog(message) => message.is_valid(),
            ButtplugClientMessage::StopDeviceCmd(message) => message.is_valid(),
            ButtplugClientMessage::LinearCmd(message) => message.is_valid(),
        }
    }
}

/// A message from a client, in the current schema.
#[derive(Debug, Clone, PartialEq, Eq)]
pub enum ButtplugCurrentSpecClientMessage {
    Ping(Ping),
    StopDeviceCmd(StopDeviceCmd),
    LinearCmd(LinearCmd),
}

impl ButtplugCurrentSpecClientMessage {
    /// The id of the message, whatever its kind.
    pub open spec fn id(self) -> u32 {
        match self {
            ButtplugCurrentSpecClientMessage::Ping(message) => message.id,
            ButtplugCurrentSpecClientMessage::StopDeviceCmd(message) => message.id,
            ButtplugCurrentSpecClientMessage::LinearCmd(message) => message.id,
        }
    }

    /// The same message in the internal schema.
    pub open spec fn to_internal(self) -> ButtplugClientMessage {
        match self {
            ButtplugCurrentSpecClientMessage::Ping(message) => ButtplugClientMessage::Ping(
                message,
            ),
            ButtplugCurrentSpecClientMessage::StopDeviceCmd(message) => {
                ButtplugClientMessage::StopDeviceCmd(message)
            },
            ButtplugCurrentSpecClientMessage::LinearCmd(message) => {
                ButtplugClientMessage::LinearCmd(message)
            },
        }
    }

    pub fn get_id(&self) -> (id: u32)
        ensures
            id == self.id(),
    {
        match self {
            ButtplugCurrentSpecClientMessage::Ping(message) => message.get_id(),
            ButtplugCurrentSpecClientMessage::StopDeviceCmd(message) => message.get_id(),
            ButtplugCurrentSpecClientMessage::LinearCmd(message) => message.get_id(),
        }
    }

    /// Every message of a client is a request: it may be dispatched exactly
    /// when its id is not the system id.
    pub fn is_valid(&self) -> (result: Result<(), ButtplugMessageError>)
        ensures
            result == request_id_check(self.id()),
    {
        match self {
            ButtplugCurrentSpecClientMessage::Ping(message) => message.is_valid(),
            ButtplugCurrentSpecClientMessage::StopDeviceCmd(message) => message.is_valid(),
            ButtplugCurrentSpecClientMessage::LinearCmd(message) => message.is_valid(),
        }
    }

    /// Converts the message into the internal schema. This cannot fail,
    /// and the id stays.
    pub fn into_internal(self) -> (message: ButtplugClientMessage)
        ensures
            message == self.to_internal(),
            message.id() == self.id(),
    {
        match self {
            ButtplugCurrentSpecClientMessage::Ping(message) => ButtplugClientMessage::Ping(
                message,
            ),
            ButtplugCurrentSpecClientMessage::StopDeviceCmd(message) => {
                ButtplugClientMessage::StopDeviceCmd(message)
            },
            ButtplugCurrentSpecClientMessage::LinearCmd(message) => {
                ButtplugClientMessage::LinearCmd(message)
            },
        }
    }
}

/// A message from the server, in the current schema.
#[derive(Debug, Clone, Copy, PartialEq, Eq, Structural)]
pub enum ButtplugCurrentSpecServerMessage {
    OkReply(OkReply),
    DeviceRemoved(DeviceRemoved),
}

impl ButtplugCurrentSpecServerMessage {
    /// The id of the message, whatever its kind.
    pub open spec fn id(self) -> u32 {
        match self {
            ButtplugCurrentSpecServerMessage::OkReply(message) => message.id,
            ButtplugCurrentSpecServerMessage::DeviceRemoved(message) => message.id,
        }
    }

    /// What `is_valid` answers: a reply needs a request id, an event the
    /// system id.
    pub open spec fn validity(self) -> Result<(), ButtplugMessageError> {
        match self {
            ButtplugCurrentSpecServerMessage::OkReply(message) => request_id_check(message.id),
            ButtplugCurrentSpecServerMessage::DeviceRemoved(message) => system_id_check(
                message.id,
            ),
        }
    }

    pub fn get_id(&self) -> (id: u32)
        ensures
            id == self.id(),
    {
        match self {
            ButtplugCurrentSpecServerMessage::OkReply(message) => message.get_id(),
            ButtplugCurrentSpecServerMessage::DeviceRemoved(message) => message.get_id(),
        }
    }

    /// Whether the message may be dispatched, by the id rule of its kind.
    pub fn is_valid(&self) -> (result: Result<(), ButtplugMessageError>)
        ensures
            result == self.validity(),
    {
        match self {
            ButtplugCurrentSpecServerMessage::OkReply(message) => message.is_valid(),
            ButtplugCurrentSpecServerMessage::DeviceRemoved(message) => message.is_valid(),
        }
    }
}

/// A message from the server, in the internal schema.
#[derive(Debug, Clone, PartialEq, Eq)]
pub enum ButtplugServerMessage {
    OkReply(OkReply),
    Log(Log),
    DeviceRemoved(DeviceRemoved),
}

impl ButtplugServerMessage {
    /// The id of the message, whatever its kind.
    pub open spec fn id(self) -> u32 {
        match self {
            ButtplugServerMessage::OkReply(message) => message.id,
            ButtplugServerMessage::Log(message) => message.id,
            ButtplugServerMessage::DeviceRemoved(message) => message.id,
        }
    }

    /// What `is_valid` answers: a reply needs a request id, a log line or an
    /// event the system id.
    pub open spec fn validity(self) -> Result<(), ButtplugMessageError> {
        match self {
            ButtplugServerMessage::OkReply(message) => request_id_check(message.id),
            ButtplugServerMessage::Log(message) => system_id_check(message.id),
            ButtplugServerMessage::DeviceRemoved(message) => system_id_check(message.id),
        }
    }

    /// The same message in the current schema, if that schema has it. Log
    /// lines are legacy: the current schema has dropped them.
    pub open spec fn to_current_spec(self) -> Option<ButtplugCurrentSpecServerMessage> {
        match self {
            ButtplugServerMessage::OkReply(message) => Some(
                ButtplugCurrentSpecServerMessage::OkReply(message),
            ),
            ButtplugServerMessage::Log(_) => None,
            ButtplugServerMessage::DeviceRemoved(message) => Some(
                ButtplugCurrentSpecServerMessage::DeviceRemoved(message),
            ),
        }
    }

    pub fn get_id(&self) -> (id: u32)
        ensures
            id == self.id(),
    {
        match self {
            ButtplugServerMessage::OkReply(message) => message.get_id(),
            ButtplugServerMessage::Log(message) => message.get_id(),
            ButtplugServerMessage::DeviceRemoved(message) => message.get_id(),
        }
    }

    /// Whether the message may be dispatched, by the id rule of its kind.
    pub fn is_valid(&self) -> (result: Result<(), ButtplugMessageError>)
        ensures
            result == self.validity(),
    {
        match self {
            ButtplugServerMessage::OkReply(message) => message.is_valid(),
            ButtplugServerMessage::Log(message) => message.is_valid(),
            ButtplugServerMessage::DeviceRemoved(message) => message.is_valid(),
        }
    }

    /// Converts the message into the current schema. Fails with a
    /// conversion error exactly when that schema has no such message. On
    /// success the id stays.
    pub fn into_current_spec(self) -> (result: Result<
        ButtplugCurrentSpecServerMessage,
        ButtplugMessageError,
    >)
        ensures
            result == match self.to_current_spec() {
                Some(message) => Ok::<ButtplugCurrentSpecServerMessage, ButtplugMessageError>(
                    message,
                ),
                None => Err(
                    ButtplugMessageError::MessageConversionError(CLIENT_SPEC_CONVERSION_FAILED),
                ),
            },
            result matches Ok(message) ==> message.id() == self.id(),
    {
        match self {
            ButtplugServerMessage::OkReply(message) => Ok(
                ButtplugCurrentSpecServerMessage::OkReply(message),
            ),
            ButtplugServerMessage::Log(_) => Err(
                ButtplugMessageError::MessageConversionError(CLIENT_SPEC_CONVERSION_FAILED),
            ),
            ButtplugServerMessage::DeviceRemoved(message) => Ok(
                ButtplugCurrentSpecServerMessage::DeviceRemoved(message),
            ),
        }
    }
}

} // verus!
