use node_network::address::{address_str_to_multiaddr, Address};
use node_network::endpoint::ConnectedPoint;
use node_network::event::{Event, NetworkAnnouncement, QueueKind};
use node_network::message::{GossipMessage, Outgoing};
use node_network::node_id::NodeId;
use node_network::payload::PayloadT;
use serde::{de::DeserializeOwned, Serialize};
use std::fmt::{self, Debug, Display, Formatter};
use node_network::server::{ServerInput, ServerLoop, ServerState};
use node_network::translator::{
    announce_received, handle_gossip_event, handle_identify_event, handle_one_way_messaging_event,
    handle_swarm_event, GossipsubEvent, IdentifyEvent, RequestResponseEvent, Scheduled,
    SwarmBehaviorEvent, SwarmCommand, SwarmEvent, Translation,
};

/// A payload for the tests: any value that `bincode` can encode.
#[derive(Clone, Debug, PartialEq)]
struct Wire<T>(T);

impl<T: Debug> Display for Wire<T> {
    fn fmt(&self, f: &mut Formatter<'_>) -> fmt::Result {
        f.write_str(&format!("{:?}", self.0))
    }
}

impl<T> PayloadT for Wire<T>
where
    T: Serialize + DeserializeOwned + Clone + Debug + Send + 'static,
{
    fn encode(&self) -> Result<Vec<u8>, Box<bincode::ErrorKind>> {
        bincode::serialize(&self.0)
    }

    fn decode(bytes: &Vec<u8>) -> Result<Self, Box<bincode::ErrorKind>> {
        bincode::deserialize(bytes).map(Wire)
    }
}

fn node(text: &str) -> NodeId {
    NodeId::new(text.to_string())
}

fn address(socket: &str) -> Address {
    address_str_to_multiaddr(socket).unwrap()
}

fn received(translation: &Translation<Wire<String>>) -> Option<(String, String)> {
    match &translation.scheduled {
        Some(Scheduled::Announcement(NetworkAnnouncement::MessageReceived { sender, payload })) => {
            Some((sender.to_string(), payload.0.clone()))
        }
        Some(other) => panic!("expected a received message, got {:?}", other),
        None => None,
    }
}

#[test]
fn payload_survives_the_way_through_message_and_translator() {
    let payload = "a payload with some text in it".to_string();
    let message = Outgoing::new(node("receiver"), &Wire(payload.clone()), 1024).unwrap();
    let event = RequestResponseEvent::Request { peer: node("sender"), request: message.message };
    let translation = handle_one_way_messaging_event::<Wire<String>>(event);
    assert!(translation.command.is_none());
    assert_eq!(received(&translation), Some(("sender".to_string(), payload)));
}

#[test]
fn gossiped_payload_survives_the_way_through_message_and_translator() {
    let payload = "gossip".to_string();
    let message = GossipMessage::new(&Wire(payload.clone()), 1024).unwrap();
    let event = GossipsubEvent::Message {
        propagation_source: node("neighbour"),
        source: Some(node("origin")),
        data: message.data,
    };
    let translation = handle_gossip_event::<Wire<String>>(event);
    assert!(translation.command.is_none());
    assert_eq!(received(&translation), Some(("origin".to_string(), payload)));
}

#[test]
fn numbers_survive_the_way_through_message_and_translator() {
    let message = Outgoing::new(node("receiver"), &Wire(0x0102030405060708u64), 8).unwrap();
    assert_eq!(message.message, vec![8, 7, 6, 5, 4, 3, 2, 1]);
    let event = RequestResponseEvent::Request { peer: node("sender"), request: message.message };
    let translation = handle_one_way_messaging_event::<Wire<u64>>(event);
    match translation.scheduled {
        Some(Scheduled::Announcement(NetworkAnnouncement::MessageReceived { sender, payload })) => {
            assert_eq!(sender.to_string(), "sender");
            assert_eq!(payload, Wire(0x0102030405060708u64));
        }
        other => panic!("expected a received message, got {:?}", other),
    }
}

#[test]
fn request_that_cannot_be_decoded_is_dropped() {
    let event = RequestResponseEvent::Request { peer: node("sender"), request: vec![200, 0, 0] };
    let translation = handle_one_way_messaging_event::<Wire<String>>(event);
    assert!(translation.command.is_none());
    assert!(translation.scheduled.is_none());
}

#[test]
fn response_and_failures_are_dropped() {
    let events = vec![
        RequestResponseEvent::Response { peer: node("a") },
        RequestResponseEvent::OutboundFailure { peer: node("a"), error: "timeout".to_string() },
        RequestResponseEvent::InboundFailure { peer: node("a"), error: "timeout".to_string() },
    ];
    for event in events {
        let translation = handle_one_way_messaging_event::<Wire<String>>(event);
        assert!(translation.command.is_none());
        assert!(translation.scheduled.is_none());
    }
}

#[test]
fn gossip_message_without_source_is_dropped() {
    let data = GossipMessage::new(&Wire("gossip".to_string()), 1024).unwrap().data;
    let event = GossipsubEvent::Message { propagation_source: node("neighbour"), source: None, data };
    let translation = handle_gossip_event::<Wire<String>>(event);
    assert!(translation.command.is_none());
    assert!(translation.scheduled.is_none());
}

#[test]
fn gossip_message_that_cannot_be_decoded_is_dropped() {
    let event = GossipsubEvent::Message {
        propagation_source: node("neighbour"),
        source: Some(node("origin")),
        data: vec![1],
    };
    let translation = handle_gossip_event::<Wire<String>>(event);
    assert!(translation.scheduled.is_none());
}

#[test]
fn gossip_subscriptions_are_dropped() {
    let translation = handle_gossip_event::<Wire<String>>(GossipsubEvent::Subscribed { peer_id: node("a") });
    assert!(translation.command.is_none() && translation.scheduled.is_none());
    let translation = handle_gossip_event::<Wire<String>>(GossipsubEvent::Unsubscribed { peer_id: node("a") });
    assert!(translation.command.is_none() && translation.scheduled.is_none());
}

#[test]
fn decoded_payload_is_announced() {
    match announce_received(node("sender"), Ok(Wire(5u8))) {
        Some(Scheduled::Announcement(NetworkAnnouncement::MessageReceived { sender, payload })) => {
            assert_eq!(sender.to_string(), "sender");
            assert_eq!(payload, Wire(5u8));
        }
        other => panic!("expected a received message, got {:?}", other),
    }
    let failed: Result<Wire<u8>, _> = Err(Box::new(bincode::ErrorKind::SizeLimit));
    assert!(announce_received(node("sender"), failed).is_none());
}

#[test]
fn identified_peer_goes_to_the_peer_discovery() {
    let event = IdentifyEvent::Received {
        peer_id: node("a"),
        listen_addrs: vec![address("10.0.0.1:1"), address("10.0.0.1:2")],
        observed_addr: address("10.0.0.2:3"),
    };
    match handle_identify_event(event) {
        Some(SwarmCommand::AddDiscoveredPeer { peer_id, addresses }) => {
            assert_eq!(peer_id.to_string(), "a");
            let listed: Vec<String> = addresses.iter().map(|a| a.to_string()).collect();
            assert_eq!(listed, vec!["/ip4/10.0.0.1/tcp/1", "/ip4/10.0.0.1/tcp/2"]);
        }
        other => panic!("expected a discovered peer, got {:?}", other),
    }
    assert!(handle_identify_event(IdentifyEvent::Sent { peer_id: node("a") }).is_none());
    let failed = IdentifyEvent::Error { peer_id: node("a"), error: "no".to_string() };
    assert!(handle_identify_event(failed).is_none());
}

#[test]
fn dialed_connection_is_forwarded_and_registered() {
    let event = SwarmEvent::ConnectionEstablished {
        peer_id: node("a"),
        endpoint: ConnectedPoint::Dialer { address: address("10.0.0.1:1") },
        num_established: 1,
    };
    let translation = handle_swarm_event::<Wire<String>>(event);
    match translation.command {
        Some(SwarmCommand::AddDiscoveredPeer { peer_id, addresses }) => {
            assert_eq!(peer_id.to_string(), "a");
            assert_eq!(addresses.len(), 1);
            assert_eq!(addresses[0].to_string(), "/ip4/10.0.0.1/tcp/1");
        }
        other => panic!("expected a discovered peer, got {:?}", other),
    }
    match translation.scheduled {
        Some(Scheduled::Event(Event::ConnectionEstablished { peer_id, endpoint, num_established })) => {
            assert_eq!(peer_id.to_string(), "a");
            assert!(endpoint.is_dialer());
            assert_eq!(num_established, 1);
        }
        other => panic!("expected an established connection, got {:?}", other),
    }
}

#[test]
fn accepted_connection_is_forwarded_only() {
    let event = SwarmEvent::ConnectionEstablished {
        peer_id: node("a"),
        endpoint: ConnectedPoint::Listener {
            local_addr: address("10.0.0.1:1"),
            send_back_addr: address("10.0.0.2:2"),
        },
        num_established: 2,
    };
    let translation = handle_swarm_event::<Wire<String>>(event);
    assert!(translation.command.is_none());
    assert!(matches!(
        translation.scheduled,
        Some(Scheduled::Event(Event::ConnectionEstablished { num_established: 2, .. }))
    ));
}

#[test]
fn closing_the_last_connection_looks_for_peers() {
    let closed = |num_established| SwarmEvent::ConnectionClosed {
        peer_id: node("a"),
        endpoint: ConnectedPoint::Dialer { address: address("10.0.0.1:1") },
        num_established,
        cause: Some("reset".to_string()),
    };
    let translation = handle_swarm_event::<Wire<String>>(closed(0));
    assert!(matches!(translation.command, Some(SwarmCommand::DiscoverPeers)));
    match translation.scheduled {
        Some(Scheduled::Event(Event::ConnectionClosed { peer_id, num_established, cause, .. })) => {
            assert_eq!(peer_id.to_string(), "a");
            assert_eq!(num_established, 0);
            assert_eq!(cause, Some("reset".to_string()));
        }
        other => panic!("expected a closed connection, got {:?}", other),
    }
    let translation = handle_swarm_event::<Wire<String>>(closed(1));
    assert!(translation.command.is_none());
    assert!(matches!(
        translation.scheduled,
        Some(Scheduled::Event(Event::ConnectionClosed { num_established: 1, .. }))
    ));
}

#[test]
fn plain_transport_events_are_forwarded() {
    let event = SwarmEvent::UnreachableAddr {
        peer_id: node("a"),
        address: address("10.0.0.1:1"),
        error: "refused".to_string(),
        attempts_remaining: 2,
    };
    let translation = handle_swarm_event::<Wire<String>>(event);
    assert!(translation.command.is_none());
    assert!(matches!(
        translation.scheduled,
        Some(Scheduled::Event(Event::UnreachableAddress { attempts_remaining: 2, .. }))
    ));

    let event = SwarmEvent::UnknownPeerUnreachableAddr { address: address("10.0.0.1:1"), error: "refused".to_string() };
    match handle_swarm_event::<Wire<String>>(event).scheduled {
        Some(Scheduled::Event(Event::UnknownPeerUnreachableAddress { address, error })) => {
            assert_eq!(address.to_string(), "/ip4/10.0.0.1/tcp/1");
            assert_eq!(error, "refused");
        }
        other => panic!("expected an unreachable address, got {:?}", other),
    }

    match handle_swarm_event::<Wire<String>>(SwarmEvent::NewListenAddr(address("10.0.0.1:1"))).scheduled {
        Some(Scheduled::Event(Event::NewListenAddress(address))) => {
            assert_eq!(address.to_string(), "/ip4/10.0.0.1/tcp/1")
        }
        other => panic!("expected a new listening address, got {:?}", other),
    }

    match handle_swarm_event::<Wire<String>>(SwarmEvent::ExpiredListenAddr(address("10.0.0.1:1"))).scheduled {
        Some(Scheduled::Event(Event::ExpiredListenAddress(address))) => {
            assert_eq!(address.to_string(), "/ip4/10.0.0.1/tcp/1")
        }
        other => panic!("expected an expired listening address, got {:?}", other),
    }

    let event = SwarmEvent::ListenerClosed { addresses: vec![address("10.0.0.1:1")], reason: Err("gone".to_string()) };
    match handle_swarm_event::<Wire<String>>(event).scheduled {
        Some(Scheduled::Event(Event::ListenerClosed { addresses, reason })) => {
            assert_eq!(addresses.len(), 1);
            assert_eq!(reason, Err("gone".to_string()));
        }
        other => panic!("expected a closed listener, got {:?}", other),
    }

    let event = SwarmEvent::ListenerError { error: "hiccup".to_string() };
    assert!(matches!(
        handle_swarm_event::<Wire<String>>(event).scheduled,
        Some(Scheduled::Event(Event::ListenerError { .. }))
    ));
}

#[test]
fn transport_chatter_is_not_forwarded() {
    let events = vec![
        SwarmEvent::IncomingConnection,
        SwarmEvent::IncomingConnectionError,
        SwarmEvent::BannedPeer,
        SwarmEvent::Dialing(node("a")),
        SwarmEvent::Behaviour(SwarmBehaviorEvent::Kademlia),
        SwarmEvent::Behaviour(SwarmBehaviorEvent::Identify(IdentifyEvent::Sent { peer_id: node("a") })),
        SwarmEvent::Behaviour(SwarmBehaviorEvent::Gossiper(GossipsubEvent::Subscribed { peer_id: node("a") })),
        SwarmEvent::Behaviour(SwarmBehaviorEvent::OneWayMessaging(RequestResponseEvent::Response {
            peer: node("a"),
        })),
    ];
    for event in events {
        let translation = handle_swarm_event::<Wire<String>>(event);
        assert!(translation.command.is_none());
        assert!(translation.scheduled.is_none());
    }
}

#[test]
fn protocol_events_are_translated_by_their_handlers() {
    let data = GossipMessage::new(&Wire("gossip".to_string()), 1024).unwrap().data;
    let event = SwarmEvent::Behaviour(SwarmBehaviorEvent::Gossiper(GossipsubEvent::Message {
        propagation_source: node("neighbour"),
        source: Some(node("origin")),
        data,
    }));
    assert_eq!(received(&handle_swarm_event(event)), Some(("origin".to_string(), "gossip".to_string())));

    let request = Outgoing::new(node("us"), &Wire("direct".to_string()), 1024).unwrap().message;
    let event = SwarmEvent::Behaviour(SwarmBehaviorEvent::OneWayMessaging(RequestResponseEvent::Request {
        peer: node("sender"),
        request,
    }));
    assert_eq!(received(&handle_swarm_event(event)), Some(("sender".to_string(), "direct".to_string())));

    let event = SwarmEvent::Behaviour(SwarmBehaviorEvent::Identify(IdentifyEvent::Received {
        peer_id: node("a"),
        listen_addrs: vec![address("10.0.0.1:1")],
        observed_addr: address("10.0.0.2:3"),
    }));
    let translation = handle_swarm_event::<Wire<String>>(event);
    assert!(translation.scheduled.is_none());
    assert!(matches!(translation.command, Some(SwarmCommand::AddDiscoveredPeer { .. })));
}

#[derive(Debug)]
enum NodeEvent {
    Network(Event<Wire<String>>),
    Announcement(NetworkAnnouncement<Wire<String>>),
}

impl From<Event<Wire<String>>> for NodeEvent {
    fn from(event: Event<Wire<String>>) -> Self {
        NodeEvent::Network(event)
    }
}

impl From<NetworkAnnouncement<Wire<String>>> for NodeEvent {
    fn from(announcement: NetworkAnnouncement<Wire<String>>) -> Self {
        NodeEvent::Announcement(announcement)
    }
}

#[test]
fn scheduled_items_go_on_their_queues() {
    let event = Scheduled::Event(Event::<Wire<String>>::NewListenAddress(address("10.0.0.1:1")));
    let (made, kind): (NodeEvent, QueueKind) = event.into_reactor_event();
    assert_eq!(kind, QueueKind::Network);
    assert!(matches!(made, NodeEvent::Network(Event::NewListenAddress(_))));

    let announcement =
        Scheduled::Announcement(NetworkAnnouncement::MessageReceived { sender: node("a"), payload: Wire("x".to_string()) });
    let (made, kind): (NodeEvent, QueueKind) = announcement.into_reactor_event();
    assert_eq!(kind, QueueKind::NetworkIncoming);
    assert!(matches!(made, NodeEvent::Announcement(NetworkAnnouncement::MessageReceived { .. })));

    let announcement = Scheduled::Announcement(NetworkAnnouncement::<Wire<String>>::NewPeer(node("a")));
    let (made, kind): (NodeEvent, QueueKind) = announcement.into_reactor_event();
    assert_eq!(kind, QueueKind::NetworkIncoming);
    assert!(matches!(made, NodeEvent::Announcement(NetworkAnnouncement::NewPeer(_))));
}

fn one_way(byte: u8) -> ServerInput {
    ServerInput::OneWay(Some(Outgoing { destination: node("a"), message: vec![byte] }))
}

#[test]
fn running_server_hands_messages_to_the_transport() {
    let mut server = ServerLoop::new();
    assert_eq!(server.state(), ServerState::Running);
    assert!(server.is_running());

    let todo = server.step::<Wire<String>>(one_way(1));
    assert!(todo.scheduled.is_none());
    match todo.command {
        Some(SwarmCommand::SendOneWayMessage(message)) => {
            assert_eq!(message.destination.to_string(), "a");
            assert_eq!(message.message, vec![1]);
        }
        other => panic!("expected a message to send, got {:?}", other),
    }

    let todo = server.step::<Wire<String>>(ServerInput::Gossip(Some(GossipMessage { data: vec![2] })));
    assert!(todo.scheduled.is_none());
    assert!(matches!(todo.command, Some(SwarmCommand::Gossip(message)) if message.data == vec![2]));

    let todo = server.step::<Wire<String>>(ServerInput::Swarm(SwarmEvent::NewListenAddr(address("10.0.0.1:1"))));
    assert!(todo.command.is_none());
    assert!(matches!(todo.scheduled, Some(Scheduled::Event(Event::NewListenAddress(_)))));
    assert_eq!(server.state(), ServerState::Running);
}

#[test]
fn shutdown_signal_ends_the_server() {
    let mut server = ServerLoop::new();
    let todo = server.step::<Wire<String>>(ServerInput::Shutdown);
    assert!(todo.command.is_none() && todo.scheduled.is_none());
    assert_eq!(server.state(), ServerState::Draining);
    assert!(!server.is_running());
    server.stop();
    assert_eq!(server.state(), ServerState::Stopped);
    server.stop();
    assert_eq!(server.state(), ServerState::Stopped);
}

#[test]
fn closed_queue_ends_the_server() {
    let mut server = ServerLoop::new();
    let todo = server.step::<Wire<String>>(ServerInput::OneWay(None));
    assert!(todo.command.is_none() && todo.scheduled.is_none());
    assert_eq!(server.state(), ServerState::Draining);

    let mut server = ServerLoop::new();
    let todo = server.step::<Wire<String>>(ServerInput::Gossip(None));
    assert!(todo.command.is_none() && todo.scheduled.is_none());
    assert_eq!(server.state(), ServerState::Draining);
}

#[test]
fn stop_leaves_a_running_server_running() {
    let mut server = ServerLoop::new();
    server.stop();
    assert_eq!(server.state(), ServerState::Running);
}

#[test]
fn queued_messages_are_lost_after_shutdown() {
    let mut server = ServerLoop::new();
    let mut sent = 0;
    let queued = 5u8;
    // One message is taken before the signal fires; the others are still
    // queued when it does.
    if server.step::<Wire<String>>(one_way(0)).command.is_some() {
        sent += 1;
    }
    server.step::<Wire<String>>(ServerInput::Shutdown);
    for byte in 1..queued {
        let todo = server.step::<Wire<String>>(one_way(byte));
        assert!(todo.command.is_none() && todo.scheduled.is_none());
        if todo.command.is_some() {
            sent += 1;
        }
        assert_eq!(server.state(), ServerState::Stopped);
    }
    assert_eq!(sent, 1);
    assert!(sent < queued);
    let todo = server.step::<Wire<String>>(ServerInput::Swarm(SwarmEvent::NewListenAddr(address("10.0.0.1:1"))));
    assert!(todo.command.is_none() && todo.scheduled.is_none());
    let todo = server.step::<Wire<String>>(ServerInput::Gossip(Some(GossipMessage { data: vec![2] })));
    assert!(todo.command.is_none() && todo.scheduled.is_none());
}

/// A payload that is its own bytes.
#[derive(Clone, Debug, PartialEq)]
struct Raw(Vec<u8>);

impl Display for Raw {
    fn fmt(&self, f: &mut Formatter<'_>) -> fmt::Result {
        f.write_str(&format!("{:?}", self.0))
    }
}

impl PayloadT for Raw {
    fn encode(&self) -> Result<Vec<u8>, Box<bincode::ErrorKind>> {
        Ok(self.0.clone())
    }

    fn decode(bytes: &Vec<u8>) -> Result<Self, Box<bincode::ErrorKind>> {
        Ok(Raw(bytes.clone()))
    }
}

#[test]
fn message_holds_the_bytes_of_the_payload_as_they_are() {
    let message = Outgoing::new(node("receiver"), &Raw(vec![9, 8, 7, 0, 0, 255]), 6).unwrap();
    assert_eq!(message.message, vec![9, 8, 7, 0, 0, 255]);
    let message = GossipMessage::new(&Raw(vec![]), 0).unwrap();
    assert!(message.data.is_empty());
}

#[test]
fn decoder_is_handed_the_bytes_as_they_came_in() {
    let event = RequestResponseEvent::Request { peer: node("sender"), request: vec![1, 2, 3, 4] };
    match handle_one_way_messaging_event::<Raw>(event).scheduled {
        Some(Scheduled::Announcement(NetworkAnnouncement::MessageReceived { sender, payload })) => {
            assert_eq!(sender.to_string(), "sender");
            assert_eq!(payload, Raw(vec![1, 2, 3, 4]));
        }
        other => panic!("expected a received message, got {:?}", other),
    }
    let event = GossipsubEvent::Message {
        propagation_source: node("neighbour"),
        source: Some(node("origin")),
        data: vec![5, 6],
    };
    match handle_gossip_event::<Raw>(event).scheduled {
        Some(Scheduled::Announcement(NetworkAnnouncement::MessageReceived { sender, payload })) => {
            assert_eq!(sender.to_string(), "origin");
            assert_eq!(payload, Raw(vec![5, 6]));
        }
        other => panic!("expected a received message, got {:?}", other),
    }
}
