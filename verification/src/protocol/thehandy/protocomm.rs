//! Session negotiation messages of the provisioning transport that the
//! device speaks before it accepts commands.
//!
//! Only what this crate sends is modelled: a session request under security
//! scheme 0, which announces plain-text traffic.

use crate::wire::{
    length_delimited_field, optional_enum_field, put_length_delimited, put_optional_enum,
};
use vstd::prelude::*;

verus! {

/// Field number of `SessionData::sec_ver`.
pub const SESSION_SEC_VER_TAG: u32 = 2;

/// Field number of the scheme 0 alternative of `SessionData::proto`.
pub const SESSION_SEC0_TAG: u32 = 10;

/// Field number of `Sec0Payload::msg`.
pub const SEC0_MSG_TAG: u32 = 1;

/// Field number of the session command alternative of
/// `Sec0Payload::payload`.
pub const SEC0_SESSION_COMMAND_TAG: u32 = 20;

/// How a session is secured.
#[derive(Debug, Clone, Copy, PartialEq, Eq, Structural)]
pub enum SecSchemeVersion {
    /// No security: plain-text traffic.
    SecScheme0,
    /// Key exchange and encrypted traffic.
    SecScheme1,
}

impl SecSchemeVersion {
    /// The number that stands for the scheme on the wire.
    pub open spec fn number(self) -> i32 {
        match self {
            SecSchemeVersion::SecScheme0 => 0,
            SecSchemeVersion::SecScheme1 => 1,
        }
    }

    pub fn to_number(&self) -> (number: i32)
        ensures
            number == self.number(),
    {
        match self {
            SecSchemeVersion::SecScheme0 => 0,
            SecSchemeVersion::SecScheme1 => 1,
        }
    }
}

/// Whether a scheme 0 message asks or answers.
#[derive(Debug, Clone, Copy, PartialEq, Eq, Structural)]
pub enum Sec0MsgType {
    S0SessionCommand,
    S0SessionResponse,
}

impl Sec0MsgType {
    /// The number that stands for the message type on the wire.
    pub open spec fn number(self) -> i32 {
        match self {
            Sec0MsgType::S0SessionCommand => 0,
            Sec0MsgType::S0SessionResponse => 1,
        }
    }

    pub fn to_number(&self) -> (number: i32)
        ensures
            number == self.number(),
    {
        match self {
            Sec0MsgType::S0SessionCommand => 0,
            Sec0MsgType::S0SessionResponse => 1,
        }
    }
}

/// The request to open a session under scheme 0. It has no fields.
#[derive(Debug, Clone, Copy, PartialEq, Eq, Structural)]
pub struct S0SessionCmd {}

impl S0SessionCmd {
    /// The encoding of the command: no bytes at all.
    pub open spec fn wire(self) -> Seq<u8> {
        Seq::empty()
    }

    pub fn encode(&self) -> (bytes: Vec<u8>)
        ensures
            bytes@ == self.wire(),
    {
        Vec::new()
    }
}

/// What a scheme 0 message carries.
#[derive(Debug, Clone, Copy, PartialEq, Eq, Structural)]
pub enum Sec0Body {
    /// A session command.
    Sc(S0SessionCmd),
}

/// A message of security scheme 0.
#[derive(Debug, Clone, Copy, PartialEq, Eq, Structural)]
pub struct Sec0Payload {
    pub msg: Sec0MsgType,
    pub payload: Option<Sec0Body>,
}

impl Sec0Payload {
    /// The encoding of the message: the message type unless it is the
    /// default, then the body if there is one.
    pub open spec fn wire(self) -> Seq<u8> {
        optional_enum_field(SEC0_MSG_TAG, self.msg.number()) + match self.payload {
            Some(Sec0Body::Sc(command)) => length_delimited_field(
                SEC0_SESSION_COMMAND_TAG,
                command.wire(),
            ),
            None => Seq::empty(),
        }
    }

    pub fn encode(&self) -> (bytes: Vec<u8>)
        ensures
            bytes@ == self.wire(),
    {
        let mut bytes = Vec::new();
        put_optional_enum(SEC0_MSG_TAG, self.msg.to_number(), &mut bytes);
        match &self.payload {
            Some(Sec0Body::Sc(command)) => {
                let body = command.encode();
                put_length_delimited(SEC0_SESSION_COMMAND_TAG, &body, &mut bytes);
            },
            None => {},
        }
        bytes
    }
}

/// What a session message carries, by security scheme.
#[derive(Debug, Clone, Copy, PartialEq, Eq, Structural)]
pub enum SessionProto {
    /// A message of scheme 0.
    Sec0(Sec0Payload),
}

/// The message exchanged while a session is set up.
#[derive(Debug, Clone, Copy, PartialEq, Eq, Structural)]
pub struct SessionData {
    pub sec_ver: SecSchemeVersion,
    pub proto: Option<SessionProto>,
}

impl SessionData {
    /// The encoding of the message: the scheme unless it is the default,
    /// then the scheme's own message if there is one.
    pub open spec fn wire(self) -> Seq<u8> {
        optional_enum_field(SESSION_SEC_VER_TAG, self.sec_ver.number()) + match self.proto {
            Some(SessionProto::Sec0(payload)) => length_delimited_field(
                SESSION_SEC0_TAG,
                payload.wire(),
            ),
            None => Seq::empty(),
        }
    }

    pub fn encode(&self) -> (bytes: Vec<u8>)
        ensures
            bytes@ == self.wire(),
    {
        let mut bytes = Vec::new();
        put_optional_enum(SESSION_SEC_VER_TAG, self.sec_ver.to_number(), &mut bytes);
        match &self.proto {
            Some(SessionProto::Sec0(payload)) => {
                let body = payload.encode();
                put_length_delimited(SESSION_SEC0_TAG, &body, &mut bytes);
            },
            None => {},
        }
        bytes
    }
}

} // verus!
