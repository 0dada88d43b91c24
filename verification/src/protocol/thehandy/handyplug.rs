//! Command messages of the device, and their encoding.
//!
//! A payload is a container of messages, and a message holds one typed
//! command. Of the commands of the device only the linear movement is
//! modelled: it is the one that this crate sends.

use crate::wire::{
    length_delimited_field, optional_double_field, optional_uint32_field, put_length_delimited,
    put_optional_double, put_optional_uint32,
};
use vstd::prelude::*;

verus! {

/// Field number of `Vector::index`.
pub const VECTOR_INDEX_TAG: u32 = 1;

/// Field number of `Vector::duration`.
pub const VECTOR_DURATION_TAG: u32 = 2;

/// Field number of `Vector::position`.
pub const VECTOR_POSITION_TAG: u32 = 3;

/// Field number of `LinearCmd::id`.
pub const LINEAR_CMD_ID_TAG: u32 = 1;

/// Field number of `LinearCmd::device_index`.
pub const LINEAR_CMD_DEVICE_INDEX_TAG: u32 = 2;

/// Field number of `LinearCmd::vectors`.
pub const LINEAR_CMD_VECTORS_TAG: u32 = 3;

/// Field number of the linear movement among the commands of a message.
pub const MESSAGE_LINEAR_CMD_TAG: u32 = 403;

/// Field number of `Payload::messages`.
pub const PAYLOAD_MESSAGES_TAG: u32 = 1;

/// One axis entry of a linear movement. The position is the bit pattern of
/// a binary64 number.
#[derive(Debug, Clone, Copy, PartialEq, Eq, Structural)]
pub struct Vector {
    pub index: u32,
    pub duration: u32,
    pub position: u64,
}

impl Vector {
    /// The encoding of the entry: each field in the order of its number,
    /// left out when it holds the default.
    pub open spec fn wire(self) -> Seq<u8> {
        optional_uint32_field(VECTOR_INDEX_TAG, self.index) + optional_uint32_field(
            VECTOR_DURATION_TAG,
            self.duration,
        ) + optional_double_field(VECTOR_POSITION_TAG, self.position)
    }

    pub fn encode(&self) -> (bytes: Vec<u8>)
        ensures
            bytes@ == self.wire(),
    {
        let mut bytes = Vec::new();
        put_optional_uint32(VECTOR_INDEX_TAG, self.index, &mut bytes);
        put_optional_uint32(VECTOR_DURATION_TAG, self.duration, &mut bytes);
        put_optional_double(VECTOR_POSITION_TAG, self.position, &mut bytes);
        bytes
    }
}

/// The encoding of the axis entries of a linear movement: one
/// length-delimited field per entry, in order.
pub open spec fn vectors_wire(vectors: Seq<Vector>) -> Seq<u8>
    decreases vectors.len(),
{
    if vectors.len() == 0 {
        Seq::empty()
    } else {
        vectors_wire(vectors.drop_last()) + length_delimited_field(
            LINEAR_CMD_VECTORS_TAG,
            vectors.last().wire(),
        )
    }
}

/// A linear movement as the device knows it.
#[derive(Debug, Clone, PartialEq, Eq)]
pub struct LinearCmd {
    pub id: u32,
    pub device_index: u32,
    pub vectors: Vec<Vector>,
}

/// What a `LinearCmd` holds.
pub struct LinearCmdView {
    pub id: u32,
    pub device_index: u32,
    pub vectors: Seq<Vector>,
}

impl View for LinearCmd {
    type V = LinearCmdView;

    open spec fn view(&self) -> LinearCmdView {
        LinearCmdView { id: self.id, device_index: self.device_index, vectors: self.vectors@ }
    }
}

impl LinearCmdView {
    /// The encoding of the movement: id and device index, each left out
    /// when 0, then the axis entries.
    pub open spec fn wire(self) -> Seq<u8> {
        optional_uint32_field(LINEAR_CMD_ID_TAG, self.id) + optional_uint32_field(
            LINEAR_CMD_DEVICE_INDEX_TAG,
            self.device_index,
        ) + vectors_wire(self.vectors)
    }
}

impl LinearCmd {
    pub fn encode(&self) -> (bytes: Vec<u8>)
        ensures
            bytes@ == self@.wire(),
    {
        let mut bytes = Vec::new();
        put_optional_uint32(LINEAR_CMD_ID_TAG, self.id, &mut bytes);
        put_optional_uint32(LINEAR_CMD_DEVICE_INDEX_TAG, self.device_index, &mut bytes);
        let ghost head = bytes@;
        let mut i: usize = 0;
        while i < self.vectors.len()
            invariant
                i <= self.vectors.len(),
                bytes@ == head + vectors_wire(self.vectors@.take(i as int)),
            decreases self.vectors.len() - i,
        {
            let entry = self.vectors[i].encode();
            put_length_delimited(LINEAR_CMD_VECTORS_TAG, &entry, &mut bytes);
            proof {
                assert(self.vectors@.take(i + 1).drop_last() == self.vectors@.take(i as int));
            }
            i += 1;
        }
        proof {
            assert(self.vectors@.take(i as int) == self.vectors@);
        }
        bytes
    }
}

/// The one command that a message holds.
#[derive(Debug, Clone, PartialEq, Eq)]
pub enum Command {
    LinearCmd(LinearCmd),
}

/// What a `Command` holds.
pub enum CommandView {
    LinearCmd(LinearCmdView),
}

impl View for Command {
    type V = CommandView;

    open spec fn view(&self) -> CommandView {
        match self {
            Command::LinearCmd(command) => CommandView::LinearCmd(command@),
        }
    }
}

impl CommandView {
    /// The encoding of the command: a length-delimited field under the
    /// number of its kind.
    pub open spec fn wire(self) -> Seq<u8> {
        match self {
            CommandView::LinearCmd(command) => length_delimited_field(
                MESSAGE_LINEAR_CMD_TAG,
                command.wire(),
            ),
        }
    }
}

/// One message of a payload: at most one command.
#[derive(Debug, Clone, PartialEq, Eq)]
pub struct Message {
    pub message: Option<Command>,
}

/// What a `Message` holds.
pub struct MessageView {
    pub message: Option<CommandView>,
}

impl View for Message {
    type V = MessageView;

    open spec fn view(&self) -> MessageView {
        MessageView {
            message: match self.message {
                Some(command) => Some(command@),
                None => None,
            },
        }
    }
}

impl MessageView {
    /// The encoding of the message: that of its command, or nothing.
    pub open spec fn wire(self) -> Seq<u8> {
        match self.message {
            Some(command) => command.wire(),
            None => Seq::empty(),
        }
    }
}

impl Message {
    pub fn encode(&self) -> (bytes: Vec<u8>)
        ensures
            bytes@ == self@.wire(),
    {
        let mut bytes = Vec::new();
        match &self.message {
            Some(Command::LinearCmd(command)) => {
                let body = command.encode();
                put_length_delimited(MESSAGE_LINEAR_CMD_TAG, &body, &mut bytes);
            },
            None => {},
        }
        bytes
    }
}

/// The encoding of the messages of a payload: one length-delimited field per
/// message, in order.
pub open spec fn messages_wire(messages: Seq<MessageView>) -> Seq<u8>
    decreases messages.len(),
{
    if messages.len() == 0 {
        Seq::empty()
    } else {
        messages_wire(messages.drop_last()) + length_delimited_field(
            PAYLOAD_MESSAGES_TAG,
            messages.last().wire(),
        )
    }
}

/// The outer envelope: what is written to the device in one piece.
#[derive(Debug, Clone, PartialEq, Eq)]
pub struct Payload {
    pub messages: Vec<Message>,
}

/// What a `Payload` holds.
pub struct PayloadView {
    pub messages: Seq<MessageView>,
}

impl View for Payload {
    type V = PayloadView;

    open spec fn view(&self) -> PayloadView {
        PayloadView { messages: self.messages@.map_values(|message: Message| message@) }
    }
}

impl PayloadView {
    /// The encoding of the payload: its messages.
    pub open spec fn wire(self) -> Seq<u8> {
        messages_wire(self.messages)
    }
}

impl Payload {
    pub fn encode(&self) -> (bytes: Vec<u8>)
        ensures
            bytes@ == self@.wire(),
    {
        let mut bytes = Vec::new();
        let ghost all = self@.messages;
        let mut i: usize = 0;
        while i < self.messages.len()
            invariant
                i <= self.messages.len(),
                all == self@.messages,
                all.len() == self.messages.len(),
                bytes@ == messages_wire(all.take(i as int)),
            decreases self.messages.len() - i,
        {
            let entry = self.messages[i].encode();
            put_length_delimited(PAYLOAD_MESSAGES_TAG, &entry, &mut bytes);
            proof {
                assert(all.take(i + 1).drop_last() == all.take(i as int));
            }
            i += 1;
        }
        proof {
            assert(all.take(i as int) == all);
        }
        bytes
    }
}

} // verus!
