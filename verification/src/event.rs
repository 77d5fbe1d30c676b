//! The events that the network component handles, the requests that the rest
//! of the node makes of it, and what it announces.

use crate::address::Address;
use crate::endpoint::ConnectedPoint;
use crate::node_id::{NodeId, NodeSet};
use crate::payload::PayloadT;
use vstd::prelude::*;

verus! {

/// A request of the rest of the node to send a payload.
#[derive(Debug)]
pub enum NetworkRequest<P> {
    /// Send the payload to one node.
    SendMessage { dest: NodeId, payload: P },
    /// Send the payload to every node, through the transport's own gossip.
    Broadcast { payload: P },
    /// Send the payload to up to `count` nodes chosen at random among the
    /// peers that are not in `exclude`.
    Gossip { payload: P, count: usize, exclude: NodeSet },
}

/// A request of the rest of the node for what the network component knows.
#[derive(Debug)]
pub enum NetworkInfoRequest {
    /// The peers and their addresses.
    GetPeers,
}

/// What the network component tells the rest of the node.
#[derive(Debug)]
pub enum NetworkAnnouncement<P> {
    /// A payload came in from `sender`.
    MessageReceived { sender: NodeId, payload: P },
    /// A connection to a peer was established.
    NewPeer(NodeId),
}

/// The queue of the node on which something is scheduled.
#[derive(Clone, Copy, Debug, PartialEq, Eq, Structural)]
pub enum QueueKind {
    /// Events of the network component itself.
    Network,
    /// Payloads that came in from other nodes.
    NetworkIncoming,
}

/// An event for the network component.
#[derive(Debug)]
pub enum Event<P> {
    /// A connection to `peer_id` was established; the peer now has
    /// `num_established` connections.
    ConnectionEstablished { peer_id: Box<NodeId>, endpoint: ConnectedPoint, num_established: u32 },
    /// A connection to `peer_id` was closed; the peer has `num_established`
    /// connections left.
    ConnectionClosed {
        peer_id: Box<NodeId>,
        endpoint: ConnectedPoint,
        num_established: u32,
        cause: Option<String>,
    },
    /// An address of a known peer could not be reached.
    UnreachableAddress {
        peer_id: Box<NodeId>,
        address: Address,
        error: String,
        attempts_remaining: u32,
    },
    /// An address that was dialed without a peer identity could not be
    /// reached.
    UnknownPeerUnreachableAddress { address: Address, error: String },
    /// The node listens on a new address.
    NewListenAddress(Address),
    /// The node no longer listens on an address.
    ExpiredListenAddress(Address),
    /// A listener closed, with an error unless it was shut down.
    ListenerClosed { addresses: Vec<Address>, reason: Result<(), String> },
    /// A listener met an error and goes on.
    ListenerError { error: String },
    /// A request to send a payload.
    NetworkRequest { request: Box<NetworkRequest<P>> },
    /// A request for information.
    NetworkInfoRequest { info_request: Box<NetworkInfoRequest> },
}

/// The requirements for an event type of the node that can take in what the
/// network component schedules: its own events and its announcements.
pub trait ReactorEventT<P: PayloadT>: From<Event<P>> + From<NetworkAnnouncement<P>> + Send + 'static {

}

impl<REv, P> ReactorEventT<P> for REv where
    P: PayloadT,
    REv: From<Event<P>> + From<NetworkAnnouncement<P>> + Send + 'static,
 {

}

} // verus!
