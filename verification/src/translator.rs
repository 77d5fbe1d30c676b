//! The translation of the transport's events into the events of the node.
//!
//! The transport's events are held here as plain values: what the network
//! component reads of them, and nothing else.

use crate::address::Address;
use crate::endpoint::ConnectedPoint;
use crate::event::{Event, NetworkAnnouncement, QueueKind, ReactorEventT};
use crate::error::Error;
use crate::message::{is_gossip_message, is_outgoing, GossipMessage, Outgoing};
use crate::node_id::NodeId;
use crate::payload::{is_decoding, is_encoding, round_trips, PayloadT};
use vstd::prelude::*;

verus! {

/// An event of the protocol for one-way messages, which rides on the
/// transport's request-response protocol.
#[derive(Debug)]
pub enum RequestResponseEvent {
    /// `peer` sent the serialized payload `request`.
    Request { peer: NodeId, request: Vec<u8> },
    /// The empty response to a message that this node sent.
    Response { peer: NodeId },
    /// A message of this node did not get out.
    OutboundFailure { peer: NodeId, error: String },
    /// A message of `peer` did not get in.
    InboundFailure { peer: NodeId, error: String },
}

/// An event of the transport's own gossip protocol.
#[derive(Debug)]
pub enum GossipsubEvent {
    /// A gossiped message came in through `propagation_source`; `source` is
    /// the node that it names as its origin, if it names one.
    Message { propagation_source: NodeId, source: Option<NodeId>, data: Vec<u8> },
    /// A peer subscribed to the topic.
    Subscribed { peer_id: NodeId },
    /// A peer unsubscribed from the topic.
    Unsubscribed { peer_id: NodeId },
}

/// An event of the protocol by which peers tell each other who they are.
#[derive(Debug)]
pub enum IdentifyEvent {
    /// `peer_id` told this node the addresses on which it listens.
    Received { peer_id: NodeId, listen_addrs: Vec<Address>, observed_addr: Address },
    /// This node told `peer_id` who it is.
    Sent { peer_id: NodeId },
    /// The exchange with `peer_id` failed.
    Error { peer_id: NodeId, error: String },
}

/// An event of one of the protocols that run on the transport.
#[derive(Debug)]
pub enum SwarmBehaviorEvent {
    OneWayMessaging(RequestResponseEvent),
    Gossiper(GossipsubEvent),
    /// Chatter of the peer discovery, of no interest to the node.
    Kademlia,
    Identify(IdentifyEvent),
}

/// An event of the transport.
#[derive(Debug)]
pub enum SwarmEvent {
    ConnectionEstablished { peer_id: NodeId, endpoint: ConnectedPoint, num_established: u32 },
    ConnectionClosed {
        peer_id: NodeId,
        endpoint: ConnectedPoint,
        num_established: u32,
        cause: Option<String>,
    },
    UnreachableAddr { peer_id: NodeId, address: Address, error: String, attempts_remaining: u32 },
    UnknownPeerUnreachableAddr { address: Address, error: String },
    NewListenAddr(Address),
    ExpiredListenAddr(Address),
    ListenerClosed { addresses: Vec<Address>, reason: Result<(), String> },
    ListenerError { error: String },
    Behaviour(SwarmBehaviorEvent),
    IncomingConnection,
    IncomingConnectionError,
    BannedPeer,
    Dialing(NodeId),
}

/// A command to the transport.
#[derive(Debug)]
pub enum SwarmCommand {
    /// Tell the peer discovery that `peer_id` can be reached at `addresses`.
    AddDiscoveredPeer { peer_id: NodeId, addresses: Vec<Address> },
    /// Look for more peers.
    DiscoverPeers,
    /// Send a one-way message to its destination.
    SendOneWayMessage(Outgoing),
    /// Publish a message to the gossip topic.
    Gossip(GossipMessage),
}

/// Something to put on a queue of the node.
#[derive(Debug)]
pub enum Scheduled<P> {
    /// An event for the network component.
    Event(Event<P>),
    /// An announcement to the rest of the node.
    Announcement(NetworkAnnouncement<P>),
}

impl<P: PayloadT> Scheduled<P> {
    /// The queue that this goes on: events of the network component on its
    /// own queue, announcements on the queue of incoming payloads.
    pub open spec fn queue_kind(self) -> QueueKind {
        match self {
            Scheduled::Event(_) => QueueKind::Network,
            Scheduled::Announcement(_) => QueueKind::NetworkIncoming,
        }
    }

    /// Turns this into an event of the node, with the queue that it goes on.
    /// The event is what the node's event type makes of the event or the
    /// announcement.
    pub fn into_reactor_event<REv: ReactorEventT<P>>(self) -> (made: (REv, QueueKind))
        ensures
            made.1 == self.queue_kind(),
            match self {
                Scheduled::Event(event) => call_ensures(REv::from, (event,), made.0),
                Scheduled::Announcement(announcement) => call_ensures(
                    REv::from,
                    (announcement,),
                    made.0,
                ),
            },
    {
        match self {
            Scheduled::Event(event) => (REv::from(event), QueueKind::Network),
            Scheduled::Announcement(announcement) => (
                REv::from(announcement),
                QueueKind::NetworkIncoming,
            ),
        }
    }
}

/// What the server loop has to do for one event of the transport: at most one
/// command to the transport, and at most one thing to schedule.
#[derive(Debug)]
pub struct Translation<P> {
    pub command: Option<SwarmCommand>,
    pub scheduled: Option<Scheduled<P>>,
}

impl<P> Translation<P> {
    /// Nothing to do.
    pub open spec fn is_nothing(self) -> bool {
        self.command is None && self.scheduled is None
    }

    /// The translation that asks for nothing.
    pub fn nothing() -> (translation: Translation<P>)
        ensures
            translation.is_nothing(),
    {
        Translation { command: None, scheduled: None }
    }
}

/// What is announced for a payload that came in from `sender`, given what the
/// decoder made of its bytes: the payload where it was decoded, nothing where
/// it was not.
pub open spec fn received<P>(
    sender: NodeId,
    decoded: Result<P, Box<bincode::ErrorKind>>,
) -> Option<Scheduled<P>> {
    match decoded {
        Ok(payload) => Some(
            Scheduled::Announcement(NetworkAnnouncement::MessageReceived { sender, payload }),
        ),
        Err(_) => None,
    }
}

/// `scheduled` is what is announced for the bytes `bytes` that came in from
/// `sender`: the payload that the payload type makes of exactly these bytes,
/// or nothing where it makes none of them.
pub open spec fn is_received_from<P: PayloadT>(
    sender: NodeId,
    bytes: Vec<u8>,
    scheduled: Option<Scheduled<P>>,
) -> bool {
    exists|decoded: Result<P, Box<bincode::ErrorKind>>| #[trigger]
        is_decoding(bytes, decoded) && scheduled == received(sender, decoded)
}

/// What is announced for a payload that came in from `sender`, given what the
/// decoder made of its bytes: the payload where it was decoded, nothing where
/// it was not.
pub fn announce_received<P: PayloadT>(
    sender: NodeId,
    decoded: Result<P, Box<bincode::ErrorKind>>,
) -> (scheduled: Option<Scheduled<P>>)
    ensures
        scheduled == received(sender, decoded),
{
    match decoded {
        Ok(payload) => Some(
            Scheduled::Announcement(NetworkAnnouncement::MessageReceived { sender, payload }),
        ),
        Err(_) => None,
    }
}

/// What the translation of an event of the one-way message protocol has to
/// be: no command, and the payload of a request announced with the peer that
/// sent it.
pub open spec fn is_one_way_translation<P: PayloadT>(
    event: RequestResponseEvent,
    translation: Translation<P>,
) -> bool {
    &&& translation.command is None
    &&& match event {
        RequestResponseEvent::Request { peer, request } => is_received_from(
            peer,
            request,
            translation.scheduled,
        ),
        _ => translation.scheduled is None,
    }
}

/// What the translation of an event of the gossip protocol has to be: no
/// command, and the payload of a message that names its origin announced
/// with that origin.
pub open spec fn is_gossip_translation<P: PayloadT>(
    event: GossipsubEvent,
    translation: Translation<P>,
) -> bool {
    &&& translation.command is None
    &&& match event {
        GossipsubEvent::Message { source: Some(origin), data, .. } => is_received_from(
            origin,
            data,
            translation.scheduled,
        ),
        _ => translation.scheduled is None,
    }
}

/// Translates an event of the one-way message protocol. A request is
/// decoded and, where that succeeds, announced with its sender; the empty
/// response and the failures are of no interest to the node.
pub fn handle_one_way_messaging_event<P: PayloadT>(
    event: RequestResponseEvent,
) -> (translation: Translation<P>)
    ensures
        is_one_way_translation(event, translation),
{
    match event {
        RequestResponseEvent::Request { peer, request } => {
            let decoded = P::decode(&request);
            let ghost decoding = decoded;
            let scheduled = announce_received(peer, decoded);
            assert(is_decoding(request, decoding) && scheduled == received(peer, decoding));
            Translation { command: None, scheduled }
        },
        RequestResponseEvent::Response { .. } => Translation::nothing(),
        RequestResponseEvent::OutboundFailure { .. } => Translation::nothing(),
        RequestResponseEvent::InboundFailure { .. } => Translation::nothing(),
    }
}

/// Translates an event of the gossip protocol. A message that names its
/// origin is decoded and, where that succeeds, announced with that origin as
/// its sender. A message without an origin cannot be attributed and is
/// dropped; subscriptions are of no interest to the node.
pub fn handle_gossip_event<P: PayloadT>(event: GossipsubEvent) -> (translation:
    Translation<P>)
    ensures
        is_gossip_translation(event, translation),
{
    match event {
        GossipsubEvent::Message { propagation_source, source, data } => {
            match source {
                Some(sender) => {
                    let decoded = P::decode(&data);
                    let ghost decoding = decoded;
                    let scheduled = announce_received(sender, decoded);
                    assert(is_decoding(data, decoding) && scheduled == received(sender, decoding));
                    Translation { command: None, scheduled }
                },
                None => Translation::nothing(),
            }
        },
        GossipsubEvent::Subscribed { .. } => Translation::nothing(),
        GossipsubEvent::Unsubscribed { .. } => Translation::nothing(),
    }
}

/// Translates an event of the identify protocol: the addresses on which a
/// peer says it listens are handed to the peer discovery. This opens no
/// connection.
pub fn handle_identify_event(event: IdentifyEvent) -> (command: Option<SwarmCommand>)
    ensures
        command == match event {
            IdentifyEvent::Received { peer_id, listen_addrs, .. } => Some(
                SwarmCommand::AddDiscoveredPeer { peer_id, addresses: listen_addrs },
            ),
            _ => None::<SwarmCommand>,
        },
{
    match event {
        IdentifyEvent::Received { peer_id, listen_addrs, observed_addr } => Some(
            SwarmCommand::AddDiscoveredPeer { peer_id, addresses: listen_addrs },
        ),
        IdentifyEvent::Sent { .. } => None,
        IdentifyEvent::Error { .. } => None,
    }
}

/// Whether `command` tells the peer discovery that `peer_id` can be reached
/// at the one address `address`.
pub open spec fn adds_dialed_peer(command: Option<SwarmCommand>, peer_id: NodeId, address: Address) -> bool {
    command matches Some(SwarmCommand::AddDiscoveredPeer { peer_id: peer, addresses }) && peer@
        == peer_id@ && addresses@.len() == 1 && addresses@[0]@ == address@
}

/// What the translation of a transport event has to be.
pub open spec fn is_translation<P: PayloadT>(event: SwarmEvent, translation: Translation<P>) -> bool {
    match event {
        SwarmEvent::ConnectionEstablished { peer_id, endpoint, num_established } => {
            &&& translation.scheduled == Some(
                Scheduled::Event(
                    Event::<P>::ConnectionEstablished {
                        peer_id: Box::new(peer_id),
                        endpoint,
                        num_established,
                    },
                ),
            )
            &&& if endpoint is Dialer {
                adds_dialed_peer(translation.command, peer_id, endpoint.remote_address())
            } else {
                translation.command is None
            }
        },
        SwarmEvent::ConnectionClosed { peer_id, endpoint, num_established, cause } => {
            &&& translation.scheduled == Some(
                Scheduled::Event(
                    Event::<P>::ConnectionClosed {
                        peer_id: Box::new(peer_id),
                        endpoint,
                        num_established,
                        cause,
                    },
                ),
            )
            &&& if num_established == 0 {
                translation.command matches Some(SwarmCommand::DiscoverPeers)
            } else {
                translation.command is None
            }
        },
        SwarmEvent::UnreachableAddr { peer_id, address, error, attempts_remaining } => {
            &&& translation.scheduled == Some(
                Scheduled::Event(
                    Event::<P>::UnreachableAddress {
                        peer_id: Box::new(peer_id),
                        address,
                        error,
                        attempts_remaining,
                    },
                ),
            )
            &&& translation.command is None
        },
        SwarmEvent::UnknownPeerUnreachableAddr { address, error } => {
            &&& translation.scheduled == Some(
                Scheduled::Event(Event::<P>::UnknownPeerUnreachableAddress { address, error }),
            )
            &&& translation.command is None
        },
        SwarmEvent::NewListenAddr(address) => {
            &&& translation.scheduled == Some(Scheduled::Event(Event::<P>::NewListenAddress(address)))
            &&& translation.command is None
        },
        SwarmEvent::ExpiredListenAddr(address) => {
            &&& translation.scheduled == Some(
                Scheduled::Event(Event::<P>::ExpiredListenAddress(address)),
            )
            &&& translation.command is None
        },
        SwarmEvent::ListenerClosed { addresses, reason } => {
            &&& translation.scheduled == Some(
                Scheduled::Event(Event::<P>::ListenerClosed { addresses, reason }),
            )
            &&& translation.command is None
        },
        SwarmEvent::ListenerError { error } => {
            &&& translation.scheduled == Some(Scheduled::Event(Event::<P>::ListenerError { error }))
            &&& translation.command is None
        },
        SwarmEvent::Behaviour(SwarmBehaviorEvent::OneWayMessaging(event)) => is_one_way_translation(
            event,
            translation,
        ),
        SwarmEvent::Behaviour(SwarmBehaviorEvent::Gossiper(event)) => is_gossip_translation(
            event,
            translation,
        ),
        SwarmEvent::Behaviour(SwarmBehaviorEvent::Identify(event)) => {
            &&& translation.scheduled is None
            &&& translation.command == match event {
                IdentifyEvent::Received { peer_id, listen_addrs, .. } => Some(
                    SwarmCommand::AddDiscoveredPeer { peer_id, addresses: listen_addrs },
                ),
                _ => None::<SwarmCommand>,
            }
        },
        _ => translation.is_nothing(),
    }
}

/// Translates an event of the transport into what the server loop has to do:
/// a command to the transport, where the peer discovery is to learn
/// something, and the event or announcement to schedule, where the node is to
/// learn something.
pub fn handle_swarm_event<P: PayloadT>(swarm_event: SwarmEvent) -> (translation:
    Translation<P>)
    ensures
        is_translation(swarm_event, translation),
{
    match swarm_event {
        SwarmEvent::ConnectionEstablished { peer_id, endpoint, num_established } => {
            // If we dialed the peer, its address goes to the peer discovery.
            let command = if endpoint.is_dialer() {
                let mut addresses: Vec<Address> = Vec::new();
                addresses.push(endpoint.get_remote_address().clone());
                Some(SwarmCommand::AddDiscoveredPeer { peer_id: peer_id.clone(), addresses })
            } else {
                None
            };
            Translation {
                command,
                scheduled: Some(
                    Scheduled::Event(
                        Event::ConnectionEstablished {
                            peer_id: Box::new(peer_id),
                            endpoint,
                            num_established,
                        },
                    ),
                ),
            }
        },
        SwarmEvent::ConnectionClosed { peer_id, endpoint, num_established, cause } => {
            // With the last connection to a peer gone, look for other peers.
            let command = if num_established == 0 {
                Some(SwarmCommand::DiscoverPeers)
            } else {
                None
            };
            Translation {
                command,
                scheduled: Some(
                    Scheduled::Event(
                        Event::ConnectionClosed {
                            peer_id: Box::new(peer_id),
                            endpoint,
                            num_established,
                            cause,
                        },
                    ),
                ),
            }
        },
        SwarmEvent::UnreachableAddr { peer_id, address, error, attempts_remaining } => Translation {
            command: None,
            scheduled: Some(
                Scheduled::Event(
                    Event::UnreachableAddress {
                        peer_id: Box::new(peer_id),
                        address,
                        error,
                        attempts_remaining,
                    },
                ),
            ),
        },
        SwarmEvent::UnknownPeerUnreachableAddr { address, error } => Translation {
            command: None,
            scheduled: Some(Scheduled::Event(Event::UnknownPeerUnreachableAddress { address, error })),
        },
        SwarmEvent::NewListenAddr(address) => Translation {
            command: None,
            scheduled: Some(Scheduled::Event(Event::NewListenAddress(address))),
        },
        SwarmEvent::ExpiredListenAddr(address) => Translation {
            command: None,
            scheduled: Some(Scheduled::Event(Event::ExpiredListenAddress(address))),
        },
        SwarmEvent::ListenerClosed { addresses, reason } => Translation {
            command: None,
            scheduled: Some(Scheduled::Event(Event::ListenerClosed { addresses, reason })),
        },
        SwarmEvent::ListenerError { error } => Translation {
            command: None,
            scheduled: Some(Scheduled::Event(Event::ListenerError { error })),
        },
        SwarmEvent::Behaviour(SwarmBehaviorEvent::OneWayMessaging(event)) => {
            handle_one_way_messaging_event(event)
        },
        SwarmEvent::Behaviour(SwarmBehaviorEvent::Gossiper(event)) => handle_gossip_event(event),
        SwarmEvent::Behaviour(SwarmBehaviorEvent::Kademlia) => Translation::nothing(),
        SwarmEvent::Behaviour(SwarmBehaviorEvent::Identify(event)) => Translation {
            command: handle_identify_event(event),
            scheduled: None,
        },
        SwarmEvent::IncomingConnection => Translation::nothing(),
        SwarmEvent::IncomingConnectionError => Translation::nothing(),
        SwarmEvent::BannedPeer => Translation::nothing(),
        SwarmEvent::Dialing(_) => Translation::nothing(),
    }
}

/// A payload survives the way from one node to another. Where the encoding
/// of the payload type loses nothing, a payload that was made into a one-way
/// message within the size bound, and whose bytes come in at the other end as
/// a request, is announced there as it was, with the node that sent it.
pub proof fn lemma_payload_round_trip<P: PayloadT>(
    payload: P,
    destination: NodeId,
    max_size: u32,
    built: Result<Outgoing, Error>,
    sender: NodeId,
    request: Vec<u8>,
    translation: Translation<P>,
)
    requires
        round_trips::<P>(),
        exists|serialized: Result<Vec<u8>, Box<bincode::ErrorKind>>| #[trigger]
            is_encoding(payload, serialized) && is_outgoing(
                destination,
                serialized,
                max_size,
                built,
            ),
        built is Ok,
        request@ == built->Ok_0.message@,
        is_translation(
            SwarmEvent::Behaviour(
                SwarmBehaviorEvent::OneWayMessaging(
                    RequestResponseEvent::Request { peer: sender, request },
                ),
            ),
            translation,
        ),
    ensures
        translation.command is None,
        translation.scheduled == Some(
            Scheduled::Announcement(NetworkAnnouncement::MessageReceived { sender, payload }),
        ),
{
    let serialized = choose|serialized: Result<Vec<u8>, Box<bincode::ErrorKind>>| #[trigger]
        is_encoding(payload, serialized) && is_outgoing(destination, serialized, max_size, built);
    let sent = serialized->Ok_0;
    assert(serialized == Ok::<Vec<u8>, Box<bincode::ErrorKind>>(sent));
    let decoded = choose|decoded: Result<P, Box<bincode::ErrorKind>>| #[trigger]
        is_decoding(request, decoded) && translation.scheduled == received(sender, decoded);
    assert(is_encoding(payload, Ok(sent)) && request@ == sent@ && is_decoding(request, decoded));
}

/// A gossiped payload survives the way from one node to another. Where the
/// encoding of the payload type loses nothing, a payload that was made into a
/// gossip message within the size bound, and whose bytes come in at another
/// node as a message that names its origin, is announced there as it was,
/// with that origin.
pub proof fn lemma_gossip_round_trip<P: PayloadT>(
    payload: P,
    max_size: u32,
    built: Result<GossipMessage, Error>,
    propagation_source: NodeId,
    origin: NodeId,
    data: Vec<u8>,
    translation: Translation<P>,
)
    requires
        round_trips::<P>(),
        exists|serialized: Result<Vec<u8>, Box<bincode::ErrorKind>>| #[trigger]
            is_encoding(payload, serialized) && is_gossip_message(serialized, max_size, built),
        built is Ok,
        data@ == built->Ok_0.data@,
        is_translation(
            SwarmEvent::Behaviour(
                SwarmBehaviorEvent::Gossiper(
                    GossipsubEvent::Message { propagation_source, source: Some(origin), data },
                ),
            ),
            translation,
        ),
    ensures
        translation.command is None,
        translation.scheduled == Some(
            Scheduled::Announcement(
                NetworkAnnouncement::MessageReceived { sender: origin, payload },
            ),
        ),
{
    let serialized = choose|serialized: Result<Vec<u8>, Box<bincode::ErrorKind>>| #[trigger]
        is_encoding(payload, serialized) && is_gossip_message(serialized, max_size, built);
    let sent = serialized->Ok_0;
    assert(serialized == Ok::<Vec<u8>, Box<bincode::ErrorKind>>(sent));
    let decoded = choose|decoded: Result<P, Box<bincode::ErrorKind>>| #[trigger]
        is_decoding(data, decoded) && translation.scheduled == received(origin, decoded);
    assert(is_encoding(payload, Ok(sent)) && data@ == sent@ && is_decoding(data, decoded));
}

/// A gossip message without a source is never announced: whatever its bytes
/// are, nothing is scheduled for it and nothing is asked of the transport.
pub proof fn lemma_gossip_without_source_is_dropped<P: PayloadT>(
    propagation_source: NodeId,
    data: Vec<u8>,
    translation: Translation<P>,
)
    requires
        is_translation(
            SwarmEvent::Behaviour(
                SwarmBehaviorEvent::Gossiper(
                    GossipsubEvent::Message { propagation_source, source: None, data },
                ),
            ),
            translation,
        ),
    ensures
        translation.is_nothing(),
{
}

} // verus!
