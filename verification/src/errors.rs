//! Error taxonomy shared by the connector, the message layer and the
//! protocol adapters.
//!
//! Every error here is a local, recoverable outcome handed back to the
//! immediate caller. None of them tears down a connector or another
//! device's adapter.

use vstd::prelude::*;

verus! {

/// Misuse of a connector relative to its connection state.
#[derive(Debug, Clone, Copy, PartialEq, Eq, Structural)]
pub enum ButtplugConnectorError {
    /// The outbound receiver was already handed out by an earlier `connect`.
    ConnectorAlreadyConnected,
    /// The connection flag is clear, or nobody listens on the outbound
    /// channel any more.
    ConnectorNotConnected,
}

/// A message that cannot be accepted or converted.
#[derive(Debug, Clone, Copy, PartialEq, Eq)]
pub enum ButtplugMessageError {
    /// The message breaks the rule of its variant; the text says which.
    InvalidMessageContents(&'static str),
    /// The message has no counterpart in the schema it was converted to.
    MessageConversionError(&'static str),
}

/// A failure reported by, or on behalf of, a device.
#[derive(Debug, Clone, PartialEq, Eq)]
pub enum ButtplugDeviceError {
    /// A command addressed `actual` actuators where the device has
    /// `expected`: the pair is `(expected, actual)`.
    DeviceFeatureCountMismatch(u32, u32),
    /// A write to, or a read from, a device endpoint failed.
    DeviceCommunicationError(String),
}

/// Any error of the library, by origin.
#[derive(Debug, Clone, PartialEq, Eq)]
pub enum ButtplugError {
    ButtplugMessageError(ButtplugMessageError),
    ButtplugDeviceError(ButtplugDeviceError),
    ButtplugUnknownError(String),
}

/// An error produced while serving one request, tagged with the id of
/// that request so that the client can correlate it.
#[derive(Debug, Clone, PartialEq, Eq)]
pub struct ButtplugServerError {
    pub id: u32,
    pub error: ButtplugError,
}

impl ButtplugServerError {
    /// An error raised while handling the request with the given id.
    pub fn new_message_error(id: u32, error: ButtplugError) -> (result: Self)
        ensures
            result.id == id,
            result.error == error,
    {
        ButtplugServerError { id, error }
    }

    /// The id of the request this error answers.
    pub fn id(&self) -> (id: u32)
        ensures
            id == self.id,
    {
        self.id
    }

    /// What went wrong.
    pub fn error(&self) -> (error: &ButtplugError)
        ensures
            *error == self.error,
    {
        &self.error
    }
}

} // verus!
