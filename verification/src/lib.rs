//! The peer-to-peer networking core of a ledger node: the tables that a network
//! controller keeps, the translation of transport events into the node's own
//! events, the construction of outgoing messages and the state machine of the
//! server loop, each with a machine-checked contract.

pub mod address;
pub mod channel;
pub mod endpoint;
pub mod error;
pub mod event;
pub mod identity;
pub mod message;
pub mod network;
pub mod node_id;
pub mod payload;
pub mod selection;
pub mod server;
pub mod state;
pub mod text_map;
pub mod translator;
