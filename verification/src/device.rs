//! What a protocol adapter knows of a device: its named endpoints, the reads
//! and writes it may ask for, and the capabilities the device announced.
//!
//! The endpoint operations themselves suspend and fail on their own terms.
//! They happen outside this crate, which only says what to write or read
//! and is told how it went.

use vstd::prelude::*;

verus! {

/// A named logical channel of a device.
#[derive(Debug, Clone, Copy, PartialEq, Eq, Structural)]
pub enum Endpoint {
    /// Commands of devices that keep them apart from plain data.
    Command,
    /// The control channel: session set-up and firmware traffic.
    Firmware,
    /// Data from the device.
    Rx,
    /// Data to the device.
    Tx,
}

/// A write to one endpoint.
#[derive(Debug, Clone, PartialEq, Eq)]
pub struct DeviceWriteCmd {
    pub endpoint: Endpoint,
    pub data: Vec<u8>,
    /// Whether the device must acknowledge the write before it counts as done.
    pub write_with_response: bool,
}

impl DeviceWriteCmd {
    pub fn new(endpoint: Endpoint, data: Vec<u8>, write_with_response: bool) -> (command: Self)
        ensures
            command.endpoint == endpoint,
            command.data == data,
            command.write_with_response == write_with_response,
    {
        Self { endpoint, data, write_with_response }
    }
}

/// A bounded read from one endpoint: at most `length` bytes, given up after
/// `timeout_ms` milliseconds.
#[derive(Debug, Clone, Copy, PartialEq, Eq, Structural)]
pub struct DeviceReadCmd {
    pub endpoint: Endpoint,
    pub length: u32,
    pub timeout_ms: u32,
}

impl DeviceReadCmd {
    pub fn new(endpoint: Endpoint, length: u32, timeout_ms: u32) -> (command: Self)
        ensures
            command == (DeviceReadCmd { endpoint, length, timeout_ms }),
    {
        Self { endpoint, length, timeout_ms }
    }
}

/// The kinds of command that a device can announce support for.
#[derive(Debug, Clone, Copy, PartialEq, Eq, Structural)]
pub enum ButtplugDeviceMessageType {
    StopDeviceCmd,
    LinearCmd,
}

/// What a device announced for one kind of command: how many actuators
/// answer to it, and how many steps each of them resolves.
#[derive(Debug, Clone, PartialEq, Eq)]
pub struct DeviceMessageAttributes {
    pub message_type: ButtplugDeviceMessageType,
    pub feature_count: u32,
    pub step_count: Vec<u32>,
}

impl DeviceMessageAttributes {
    pub fn new(message_type: ButtplugDeviceMessageType, feature_count: u32, step_count: Vec<u32>) -> (attributes: Self)
        ensures
            attributes.message_type == message_type,
            attributes.feature_count == feature_count,
            attributes.step_count == step_count,
    {
        Self { message_type, feature_count, step_count }
    }
}

/// The capabilities of one device, in the order in which it announced them.
pub type DeviceMessageAttributesMap = Vec<DeviceMessageAttributes>;

} // verus!
