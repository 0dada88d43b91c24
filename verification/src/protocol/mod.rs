//! Protocol adapters, one per device family.
//!
//! An adapter turns generic commands into the wire messages of its family
//! and plans the handshake with a freshly discovered device. The layout and
//! the constants of a family stay inside its adapter.

pub mod thehandy;
