//! Commands addressed to one device.

use crate::errors::ButtplugMessageError;
use crate::messages::{is_not_system_id, request_id_check};
use vstd::prelude::*;

verus! {

/// One movement of one linear actuator: go to `position` within `duration`
/// milliseconds.
///
/// The position is a fraction of the actuator's travel, held as the bit
/// pattern of an IEEE 754 binary64 number (what `f64::to_bits` returns), so
/// that it reaches the device exactly as the client gave it.
#[derive(Debug, Clone, Copy, PartialEq, Eq, Structural)]
pub struct VectorSubcommand {
    pub index: u32,
    pub duration: u32,
    pub position: u64,
}

impl VectorSubcommand {
    pub fn new(index: u32, duration: u32, position: u64) -> (vector: Self)
        ensures
            vector == (VectorSubcommand { index, duration, position }),
    {
        Self { index, duration, position }
    }

    /// Which actuator of the device moves.
    pub fn index(&self) -> (index: u32)
        ensures
            index == self.index,
    {
        self.index
    }

    /// How long the movement takes, in milliseconds.
    pub fn duration(&self) -> (duration: u32)
        ensures
            duration == self.duration,
    {
        self.duration
    }

    /// Where the movement ends, as binary64 bits.
    pub fn position(&self) -> (position: u64)
        ensures
            position == self.position,
    {
        self.position
    }
}

/// Moves the linear actuators of a device, one vector per actuator.
#[derive(Debug, Clone, PartialEq, Eq)]
pub struct LinearCmd {
    pub id: u32,
    pub device_index: u32,
    pub vectors: Vec<VectorSubcommand>,
}

impl LinearCmd {
    /// A command for the given device, under the placeholder id 1.
    pub fn new(device_index: u32, vectors: Vec<VectorSubcommand>) -> (command: Self)
        ensures
            command.id == 1,
            command.device_index == device_index,
            command.vectors == vectors,
    {
        Self { id: 1, device_index, vectors }
    }

    pub fn get_id(&self) -> (id: u32)
        ensures
            id == self.id,
    {
        self.id
    }

    pub fn set_id(&mut self, id: u32)
        ensures
            final(self).id == id,
            final(self).device_index == old(self).device_index,
            final(self).vectors == old(self).vectors,
    {
        self.id = id;
    }

    pub fn device_index(&self) -> (index: u32)
        ensures
            index == self.device_index,
    {
        self.device_index
    }

    pub fn vectors(&self) -> (vectors: &Vec<VectorSubcommand>)
        ensures
            *vectors == self.vectors,
    {
        &self.vectors
    }

    /// A command may be dispatched exactly when its id is not the system id.
    pub fn is_valid(&self) -> (result: Result<(), ButtplugMessageError>)
        ensures
            result == request_id_check(self.id),
    {
        is_not_system_id(self.id)
    }
}

/// Halts every actuator of one device.
#[derive(Debug, Clone, Copy, PartialEq, Eq, Structural)]
pub struct StopDeviceCmd {
    pub id: u32,
    pub device_index: u32,
}

impl StopDeviceCmd {
    /// A stop command for the given device, under the placeholder id 1.
    pub fn new(device_index: u32) -> (command: Self)
        ensures
            command == (StopDeviceCmd { id: 1, device_index }),
    {
        Self { id: 1, device_index }
    }

    pub fn get_id(&self) -> (id: u32)
        ensures
            id == self.id,
    {
        self.id
    }

    pub fn set_id(&mut self, id: u32)
        ensures
            *final(self) == (StopDeviceCmd { id, device_index: old(self).device_index }),
    {
        self.id = id;
    }

    pub fn device_index(&self) -> (index: u32)
        ensures
            index == self.device_index,
    {
        self.device_index
    }

    /// A command may be dispatched exactly when its id is not the system id.
    pub fn is_valid(&self) -> (result: Result<(), ButtplugMessageError>)
        ensures
            result == request_id_check(self.id),
    {
        is_not_system_id(self.id)
    }
}

/// Any command that a protocol adapter can be asked to carry out.
#[derive(Debug, Clone, PartialEq, Eq)]
pub enum ButtplugDeviceCommandMessageUnion {
    StopDeviceCmd(StopDeviceCmd),
    LinearCmd(LinearCmd),
}

impl ButtplugDeviceCommandMessageUnion {
    /// The id of the command, whatever its kind.
    pub open spec fn id(self) -> u32 {
        match self {
            ButtplugDeviceCommandMessageUnion::StopDeviceCmd(command) => command.id,
            ButtplugDeviceCommandMessageUnion::LinearCmd(command) => command.id,
        }
    }

    pub fn get_id(&self) -> (id: u32)
        ensures
            id == self.id(),
    {
        match self {
            ButtplugDeviceCommandMessageUnion::StopDeviceCmd(command) => command.get_id(),
            ButtplugDeviceCommandMessageUnion::LinearCmd(command) => command.get_id(),
        }
    }

    /// A device command is a request: it may be dispatched exactly when its
    /// id is not the system id.
    pub fn is_valid(&self) -> (result: Result<(), ButtplugMessageError>)
        ensures
            result == request_id_check(self.id()),
    {
        match self {
            ButtplugDeviceCommandMessageUnion::StopDeviceCmd(command) => command.is_valid(),
            ButtplugDeviceCommandMessageUnion::LinearCmd(command) => command.is_valid(),
        }
    }
}

} // verus!
