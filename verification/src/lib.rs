//! A protocol-agnostic network transport core.
//!
//! The crate holds the decisions of a channel-based transport layer: the
//! node that a tick-driven host polls, the receive and send loops of a TCP
//! connection written as state machines, the adoption of accepted
//! connections into a registry of nodes, and the error taxonomy. Socket I/O
//! and task spawning are left to the embedding program, which feeds the
//! state machines with what it observed and performs the actions they ask
//! for.

pub mod protocol;
pub mod error;
pub mod addr;
pub mod packet;
pub mod channel;
pub mod node;
pub mod recv;
pub mod tcp;
pub mod send;
pub mod registry;
pub mod text;
