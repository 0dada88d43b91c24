//! Connectors: what stands between a client and a server.
//!
//! A connector checks the connection state of its client before anything
//! reaches the server, and decides what is pushed onto the one outbound
//! channel that carries both the results of requests and the events that
//! the server emits on its own.

pub mod history;
pub mod in_process_connector;
pub mod relay;

use crate::errors::{ButtplugError, ButtplugMessageError, ButtplugServerError};
use crate::messages::{
    ButtplugCurrentSpecServerMessage, ButtplugServerMessage, CLIENT_SPEC_CONVERSION_FAILED,
};
use vstd::prelude::*;

verus! {

/// What travels on the outbound channel of a connector: a message for the
/// client in its own schema, or the error that took its place.
pub type OutboundItem = Result<ButtplugCurrentSpecServerMessage, ButtplugServerError>;

/// The id that an outbound item carries: that of the message, or the one
/// that the error is tagged with.
pub open spec fn item_id(item: OutboundItem) -> u32 {
    match item {
        Ok(message) => message.id(),
        Err(error) => error.id,
    }
}

/// The id that the outcome of a request carries: that of the reply, or the
/// one that the error is tagged with.
pub open spec fn outcome_id(outcome: Result<ButtplugServerMessage, ButtplugServerError>) -> u32 {
    match outcome {
        Ok(message) => message.id(),
        Err(error) => error.id,
    }
}

/// The error that stands in for a reply which the schema of the client
/// cannot express, tagged with the id of the request.
pub open spec fn conversion_error(out_id: u32) -> ButtplugServerError {
    ButtplugServerError {
        id: out_id,
        error: ButtplugError::ButtplugMessageError(
            ButtplugMessageError::MessageConversionError(CLIENT_SPEC_CONVERSION_FAILED),
        ),
    }
}

/// The one item that answers the request with id `out_id`, given what the
/// server made of it: the reply in the schema of the client; or, if that
/// schema cannot express the reply, a conversion error tagged `out_id`; or
/// the error of the server as it is.
pub open spec fn outbound_item(
    out_id: u32,
    outcome: Result<ButtplugServerMessage, ButtplugServerError>,
) -> OutboundItem {
    match outcome {
        Ok(message) => match message.to_current_spec() {
            Some(converted) => Ok(converted),
            None => Err(conversion_error(out_id)),
        },
        Err(error) => Err(error),
    }
}

/// Whatever the server makes of a request, the item that answers it is one
/// of three: the reply of the server in the schema of the client, under the
/// id of that reply; a conversion error tagged with the id of the request;
/// or the error of the server.
pub proof fn lemma_outbound_item_cases(
    out_id: u32,
    outcome: Result<ButtplugServerMessage, ButtplugServerError>,
)
    ensures
        match outbound_item(out_id, outcome) {
            Ok(converted) => {
                &&& outcome matches Ok(reply)
                &&& reply.to_current_spec() == Some(converted)
                &&& converted.id() == reply.id()
            },
            Err(error) => {
                ||| outcome matches Ok(reply) && reply.to_current_spec() is None && error
                    == conversion_error(out_id)
                ||| outcome == Err::<ButtplugServerMessage, ButtplugServerError>(error)
            },
        },
{
}

/// A request is answered under its own id: if what the server makes of the
/// request with id `out_id` carries that id, so does the item that is
/// pushed for it, be it the reply, a conversion error or the error of the
/// server.
pub proof fn lemma_answer_carries_request_id(
    out_id: u32,
    outcome: Result<ButtplugServerMessage, ButtplugServerError>,
)
    requires
        outcome_id(outcome) == out_id,
    ensures
        item_id(outbound_item(out_id, outcome)) == out_id,
{
}

} // verus!
