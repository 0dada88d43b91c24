//! Messages without a payload of their own: the generic acknowledgment, the
//! keep-alive request and the notice that a device has gone.

use crate::errors::ButtplugMessageError;
use crate::messages::{is_not_system_id, is_system_id, request_id_check, system_id_check};
use vstd::prelude::*;

verus! {

/// The generic success acknowledgment: the request with this id was carried
/// out. It says nothing of what a device may have answered.
#[derive(Debug, Clone, Copy, PartialEq, Eq, Structural)]
pub struct OkReply {
    pub id: u32,
}

impl OkReply {
    pub fn new(id: u32) -> (reply: Self)
        ensures
            reply.id == id,
    {
        Self { id }
    }

    pub fn get_id(&self) -> (id: u32)
        ensures
            id == self.id,
    {
        self.id
    }

    pub fn set_id(&mut self, id: u32)
        ensures
            final(self).id == id,
    {
        self.id = id;
    }

    /// An acknowledgment answers a request, so its id must not be 0.
    pub fn is_valid(&self) -> (result: Result<(), ButtplugMessageError>)
        ensures
            result == request_id_check(self.id),
    {
        is_not_system_id(self.id)
    }
}

impl Default for OkReply {
    /// The acknowledgment as a protocol adapter returns it: under the
    /// placeholder id 1, until the server stamps it with the id of the
    /// request it answers.
    fn default() -> (reply: Self)
        ensures
            reply.id == 1,
    {
        Self { id: 1 }
    }
}

/// Keep-alive request of a client.
#[derive(Debug, Clone, Copy, PartialEq, Eq, Structural)]
pub struct Ping {
    pub id: u32,
}

impl Ping {
    /// A keep-alive request under the placeholder id 1.
    pub fn new() -> (ping: Self)
        ensures
            ping.id == 1,
    {
        Self { id: 1 }
    }

    pub fn get_id(&self) -> (id: u32)
        ensures
            id == self.id,
    {
        self.id
    }

    pub fn set_id(&mut self, id: u32)
        ensures
            final(self).id == id,
    {
        self.id = id;
    }

    /// A request may be dispatched exactly when its id is not the system id.
    pub fn is_valid(&self) -> (result: Result<(), ButtplugMessageError>)
        ensures
            result == request_id_check(self.id),
    {
        is_not_system_id(self.id)
    }
}

/// Event: the device with the given index has disconnected. The server
/// emits it on its own, so it is a system message.
#[derive(Debug, Clone, Copy, PartialEq, Eq, Structural)]
pub struct DeviceRemoved {
    pub id: u32,
    pub device_index: u32,
}

impl DeviceRemoved {
    /// The event for the given device, under the system id.
    pub fn new(device_index: u32) -> (event: Self)
        ensures
            event == (DeviceRemoved { id: 0, device_index }),
    {
        Self { id: 0, device_index }
    }

    pub fn get_id(&self) -> (id: u32)
        ensures
            id == self.id,
    {
        self.id
    }

    pub fn set_id(&mut self, id: u32)
        ensures
            *final(self) == (DeviceRemoved { id, device_index: old(self).device_index }),
    {
        self.id = id;
    }

    pub fn device_index(&self) -> (index: u32)
        ensures
            index == self.device_index,
    {
        self.device_index
    }

    /// An event may be dispatched exactly when it carries the system id.
    pub fn is_valid(&self) -> (result: Result<(), ButtplugMessageError>)
        ensures
            result == system_id_check(self.id),
    {
        is_system_id(self.id)
    }
}

} // verus!
