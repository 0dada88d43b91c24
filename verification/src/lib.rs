//! In-process control of connected actuators over one versioned message bus.
//!
//! The crate is the decision-making core of two subsystems:
//!
//! * a per-device protocol adapter ([`protocol`]) that turns generic
//!   commands into the binary messages of one device family and plans the
//!   endpoint reads and writes of its handshake, and
//! * an in-process connector ([`connector`]) that guards the connection
//!   state of a client and decides what is pushed onto the outbound channel.
//!
//! Nothing here suspends or performs I/O. Whoever embeds the crate carries
//! out the planned endpoint operations, drives the server and pushes onto
//! the channel, and reports each outcome back.
pub mod connector;
pub mod device;
pub mod errors;
pub mod messages;
pub mod protocol;
pub mod tokio_specs;
pub mod wire;
