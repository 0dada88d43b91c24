//! The in-process connector: a server and its client in one process.
//!
//! The connector owns the server and the sending side of the outbound
//! channel. It keeps the receiving side in a slot until the first `connect`
//! takes it, and a flag that says whether a client is connected.
//!
//! Nothing here suspends. Whoever embeds the connector hands the request
//! that `send` returns to the server, waits for the outcome, turns it into
//! the item to push with `PendingReply::complete`, pushes that item, and
//! learns from `push_outcome` what to tell the client.

use crate::connector::history::{
    accepted, after_call, initial_state, ConnectionState, ConnectorCall,
};
use crate::connector::relay::{EventRelay, RelayState};
use crate::connector::{outbound_item, OutboundItem};
use crate::errors::{
    ButtplugConnectorError, ButtplugError, ButtplugMessageError, ButtplugServerError,
};
use crate::messages::{
    ButtplugClientMessage, ButtplugCurrentSpecClientMessage, ButtplugServerMessage,
    CLIENT_SPEC_CONVERSION_FAILED,
};
use crate::tokio_specs::{
    bounded_channel, channel_bound, clone_sender, receiver_channel, sender_channel,
};
use tokio::sync::mpsc::{Receiver, Sender};
use vstd::prelude::*;

verus! {

/// How many items the outbound channel buffers. A push onto a full channel
/// waits for room: nothing is dropped while a receiver exists.
pub const OUTBOUND_CHANNEL_CAPACITY: usize = 256;

/// What a push onto the outbound channel means for the caller of `send`:
/// success if the item was delivered, and `ConnectorNotConnected` if the
/// receiver is gone.
pub open spec fn push_result(delivered: bool) -> Result<(), ButtplugConnectorError> {
    if delivered {
        Ok(())
    } else {
        Err(ButtplugConnectorError::ConnectorNotConnected)
    }
}

/// A connector that holds its server, of type `S`, in the same process as
/// the client.
pub struct ButtplugInProcessClientConnector<S> {
    /// The server behind the connector.
    server: S,
    /// The sending half through which results of requests are pushed.
    server_outbound_sender: Sender<OutboundItem>,
    /// The receiving half, until the first `connect` hands it out.
    connector_outbound_recv: Option<Receiver<OutboundItem>>,
    /// Whether a client is connected.
    connected: bool,
}

/// A request that has passed the connection check and is on its way to the
/// server.
pub struct PendingSend {
    input: ButtplugClientMessage,
    reply: PendingReply,
}

/// The answer that is owed to a request: the id under which the client
/// expects it, and the sending half to push it through. It is used up when
/// the answer is made, so a request is answered once.
pub struct PendingReply {
    out_id: u32,
    sender: Sender<OutboundItem>,
}

impl<S> ButtplugInProcessClientConnector<S> {
    #[verifier::type_invariant]
    spec fn wf(self) -> bool {
        &&& self.connected ==> self.connector_outbound_recv is None
        &&& channel_bound(sender_channel(self.server_outbound_sender))
            == OUTBOUND_CHANNEL_CAPACITY
        &&& self.connector_outbound_recv matches Some(receiver) ==> receiver_channel(receiver)
            == sender_channel(self.server_outbound_sender)
    }

    /// The server behind the connector.
    pub closed spec fn server(&self) -> S {
        self.server
    }

    /// The receiving half of the outbound channel, while it has not been
    /// handed out.
    pub closed spec fn receiver_slot(&self) -> Option<Receiver<OutboundItem>> {
        self.connector_outbound_recv
    }

    /// The sending half through which results of requests are pushed.
    pub closed spec fn outbound_sender(&self) -> Sender<OutboundItem> {
        self.server_outbound_sender
    }

    /// Whether a client is connected.
    pub closed spec fn is_connected(&self) -> bool {
        self.connected
    }

    /// The outbound channel of the connector: the one that its sending half
    /// belongs to.
    pub open spec fn outbound_channel(&self) -> int {
        sender_channel(self.outbound_sender())
    }

    /// Whether the receiving half in the slot, if there is one, is that of
    /// the outbound channel.
    pub open spec fn holds_receiver_of_outbound_channel(&self) -> bool {
        self.receiver_slot() matches Some(receiver) ==> receiver_channel(receiver)
            == self.outbound_channel()
    }

    /// What the connector knows of its connection.
    pub open spec fn state(&self) -> ConnectionState {
        ConnectionState {
            connected: self.is_connected(),
            receiver_available: self.receiver_slot() is Some,
        }
    }

    /// A connector around a server that `build_server` makes from `options`.
    ///
    /// If the server cannot be made, its error is returned and nothing else
    /// happens. Otherwise the result is what `with_server` makes of the
    /// server.
    pub fn new_with_options<O, F>(options: &O, build_server: F) -> (result: Result<
        (Self, EventRelay),
        ButtplugError,
    >) where F: FnOnce(&O) -> Result<S, ButtplugError>
        requires
            build_server.requires((options,)),
        ensures
            match result {
                Ok(made) => {
                    &&& build_server.ensures((options,), Ok(made.0.server()))
                    &&& made.0.state() == initial_state()
                    &&& made.0.holds_receiver_of_outbound_channel()
                    &&& channel_bound(made.0.outbound_channel()) == OUTBOUND_CHANNEL_CAPACITY
                    &&& made.1.spec_state() == RelayState::Running
                    &&& sender_channel(made.1.spec_sender()) == made.0.outbound_channel()
                },
                Err(error) => build_server.ensures((options,), Err(error)),
            },
    {
        match build_server(options) {
            Ok(server) => Ok(Self::with_server(server)),
            Err(error) => Err(error),
        }
    }

    /// A connector around the given server, and the relay for the events of
    /// that server.
    ///
    /// A new outbound channel is made, which buffers
    /// `OUTBOUND_CHANNEL_CAPACITY` items. The connector starts out not
    /// connected, with the receiving half in its slot, and keeps one sending
    /// half. The relay is running and has another sending half of the same
    /// channel. It is for the caller to subscribe to the events of the
    /// server and to start the task that drives the relay.
    pub fn with_server(server: S) -> (made: (Self, EventRelay))
        ensures
            made.0.server() == server,
            made.0.state() == initial_state(),
            made.0.holds_receiver_of_outbound_channel(),
            channel_bound(made.0.outbound_channel()) == OUTBOUND_CHANNEL_CAPACITY,
            made.1.spec_state() == RelayState::Running,
            sender_channel(made.1.spec_sender()) == made.0.outbound_channel(),
    {
        let (send, recv) = bounded_channel(OUTBOUND_CHANNEL_CAPACITY);
        let server_outbound_sender = clone_sender(&send);
        (
            Self {
                connector_outbound_recv: Some(recv),
                server_outbound_sender,
                server,
                connected: false,
            },
            EventRelay::new(send),
        )
    }

    /// The server behind the connector, for setting it up before a client
    /// connects.
    pub fn server_ref(&self) -> (server: &S)
        ensures
            *server == self.server(),
    {
        &self.server
    }

    /// Connects the client: hands out the receiving half of the outbound
    /// channel and sets the connection flag.
    ///
    /// This succeeds while the receiving half is in its slot, and so once.
    /// Every later call fails with `ConnectorAlreadyConnected` and changes
    /// nothing, whether or not the client has disconnected since.
    pub fn connect(&mut self) -> (result: Result<Receiver<OutboundItem>, ButtplugConnectorError>)
        ensures
            result is Ok <==> accepted(old(self).state(), ConnectorCall::Connect),
            final(self).state() == after_call(old(self).state(), ConnectorCall::Connect),
            match result {
                Ok(receiver) => {
                    &&& old(self).receiver_slot() == Some(receiver)
                    &&& receiver_channel(receiver) == old(self).outbound_channel()
                    &&& channel_bound(receiver_channel(receiver)) == OUTBOUND_CHANNEL_CAPACITY
                },
                Err(error) => error == ButtplugConnectorError::ConnectorAlreadyConnected,
            },
            final(self).server() == old(self).server(),
            final(self).outbound_sender() == old(self).outbound_sender(),
    {
        proof {
            use_type_invariant(&*self);
        }
        let mut slot: Option<Receiver<OutboundItem>> = None;
        core::mem::swap(&mut self.connector_outbound_recv, &mut slot);
        match slot {
            Some(recv) => {
                self.connected = true;
                Ok(recv)
            },
            None => Err(ButtplugConnectorError::ConnectorAlreadyConnected),
        }
    }

    /// Disconnects the client: clears the connection flag.
    ///
    /// This succeeds if the flag was set, and fails with
    /// `ConnectorNotConnected` if it was clear. The receiving half is not
    /// taken back.
    pub fn disconnect(&mut self) -> (result: Result<(), ButtplugConnectorError>)
        ensures
            result is Ok <==> accepted(old(self).state(), ConnectorCall::Disconnect),
            final(self).state() == after_call(old(self).state(), ConnectorCall::Disconnect),
            result matches Err(error) ==> error == ButtplugConnectorError::ConnectorNotConnected,
            final(self).server() == old(self).server(),
            final(self).outbound_sender() == old(self).outbound_sender(),
            final(self).receiver_slot() == old(self).receiver_slot(),
    {
        proof {
            use_type_invariant(&*self);
        }
        if self.connected {
            self.connected = false;
            Ok(())
        } else {
            Err(ButtplugConnectorError::ConnectorNotConnected)
        }
    }

    /// Accepts a message of the client for the server.
    ///
    /// If the connection flag is clear, this fails with
    /// `ConnectorNotConnected`, and the server is not to be called.
    /// Otherwise the result holds the id of the message, the message in the
    /// schema of the server, and a sending half of the outbound channel for
    /// the one item that will answer it.
    pub fn send(&self, msg: ButtplugCurrentSpecClientMessage) -> (result: Result<
        PendingSend,
        ButtplugConnectorError,
    >)
        ensures
            result is Ok <==> accepted(self.state(), ConnectorCall::Send),
            match result {
                Ok(pending) => {
                    &&& pending.input() == msg.to_internal()
                    &&& pending.reply().out_id() == msg.id()
                    &&& sender_channel(pending.reply().sender()) == self.outbound_channel()
                },
                Err(error) => error == ButtplugConnectorError::ConnectorNotConnected,
            },
    {
        proof {
            use_type_invariant(self);
        }
        if !self.connected {
            return Err(ButtplugConnectorError::ConnectorNotConnected);
        }
        let out_id = msg.get_id();
        let input = msg.into_internal();
        let sender = clone_sender(&self.server_outbound_sender);
        Ok(PendingSend { input, reply: PendingReply { out_id, sender } })
    }
}

impl PendingSend {
    /// The message in the schema of the server.
    pub closed spec fn input(&self) -> ButtplugClientMessage {
        self.input
    }

    /// The answer that is owed to the message.
    pub closed spec fn reply(&self) -> PendingReply {
        self.reply
    }

    /// The id of the message as the client sent it.
    pub fn id(&self) -> (id: u32)
        ensures
            id == self.reply().out_id(),
    {
        self.reply.id()
    }

    /// The message to hand to the server.
    pub fn request(&self) -> (request: &ButtplugClientMessage)
        ensures
            *request == self.input(),
    {
        &self.input
    }

    /// Parts the message for the server from the answer that is owed to it.
    pub fn into_parts(self) -> (parts: (ButtplugClientMessage, PendingReply))
        ensures
            parts.0 == self.input(),
            parts.1 == self.reply(),
    {
        (self.input, self.reply)
    }
}

impl PendingReply {
    /// The id of the request as the client sent it.
    pub closed spec fn out_id(&self) -> u32 {
        self.out_id
    }

    /// The sending half for the answer.
    pub closed spec fn sender(&self) -> Sender<OutboundItem> {
        self.sender
    }

    /// The id under which the client expects the answer.
    pub fn id(&self) -> (id: u32)
        ensures
            id == self.out_id(),
    {
        self.out_id
    }

    /// Turns what the server made of the request into the one item to push
    /// onto the outbound channel, and hands out the sending half to push it
    /// through.
    ///
    /// A reply is converted into the schema of the client. If that schema
    /// cannot express it, the item is a conversion error tagged with the id
    /// of the request. An error of the server is passed on as it is.
    pub fn complete(self, outcome: Result<ButtplugServerMessage, ButtplugServerError>) -> (answer:
        (OutboundItem, Sender<OutboundItem>))
        ensures
            answer.0 == outbound_item(self.out_id(), outcome),
            answer.1 == self.sender(),
    {
        let item = match outcome {
            Ok(message) => match message.into_current_spec() {
                Ok(converted) => Ok(converted),
                Err(_) => Err(
                    ButtplugServerError::new_message_error(
                        self.out_id,
                        ButtplugError::ButtplugMessageError(
                            ButtplugMessageError::MessageConversionError(
                                CLIENT_SPEC_CONVERSION_FAILED,
                            ),
                        ),
                    ),
                ),
            },
            Err(error) => Err(error),
        };
        (item, self.sender)
    }
}

/// What the caller of `send` is told once the push of the answer has
/// completed: success if the item was delivered, `ConnectorNotConnected` if
/// the receiver is gone.
pub fn push_outcome(delivered: bool) -> (result: Result<(), ButtplugConnectorError>)
    ensures
        result == push_result(delivered),
{
    if delivered {
        Ok(())
    } else {
        Err(ButtplugConnectorError::ConnectorNotConnected)
    }
}

} // verus!
