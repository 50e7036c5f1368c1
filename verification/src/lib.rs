//! A peer-replicated ledger: the causal command-replication engine.
//!
//! Every node keeps a Lamport clock and a replica of the ledger. A command typed
//! at a node is applied to its replica, stamped with the node's logical time, and
//! handed out as a message for the peers; a peer replays the message under the
//! stamp it carries and never sends it on.

pub mod broadcast;
pub mod clock;
pub mod command;
pub mod control;
pub mod input;
pub mod laws;
pub mod ledger;
pub mod message;
pub mod model;
pub mod node;
pub mod origin;
pub mod record;
pub mod text;
