//! The network component: the controller that owns the peer table, the table
//! of known addresses and the list of listening addresses, and reacts to the
//! events of the node one at a time.

use crate::address::{address_str_to_multiaddr, socket_multiaddr, Address};
use crate::endpoint::{ConnectedPoint, ConnectionState};
use crate::error::Error;
use crate::event::{Event, NetworkInfoRequest, NetworkRequest};
use crate::identity::generate_identity;
use crate::message::{bounded_bytes, GossipMessage, Outgoing};
use crate::node_id::{NodeId, NodeSet};
use crate::payload::{is_encoding, PayloadT};
use crate::selection::{choose_multiple, id_texts, lemma_choice_is_unique};
use crate::state::NetworkState;
use crate::text_map::{lemma_without_push, without, TextMap};
use vstd::prelude::*;
use vstd::string::*;

verus! {

/// The texts of a list of addresses, in order.
pub open spec fn address_texts(addresses: Seq<Address>) -> Seq<Seq<char>> {
    Seq::new(addresses.len(), |i: int| addresses[i]@)
}

/// Why the node has to halt.
#[derive(Debug)]
pub enum Fatal {
    /// Every known address has failed and the node is no bootstrap node.
    Isolated,
    /// The node listens on no address any more.
    NoListeningAddress,
    /// A listener closed with an error.
    ListenerClosed { error: String },
}

/// What the node has to do after the network component handled an event.
#[derive(Debug)]
pub enum Effect {
    /// Nothing.
    Nothing,
    /// Announce that a connection to this peer was established.
    AnnounceNewPeer(NodeId),
    /// Halt the node.
    Fatal(Fatal),
    /// Tell the requester that the payload was taken in. This says nothing of
    /// what became of the message.
    Acknowledge,
    /// Tell the requester to which peers the payload was addressed.
    RespondGossip(NodeSet),
    /// Tell the requester the peers, each with the text of its address.
    RespondPeers(TextMap<String>),
}

/// What became of a payload that was to be sent.
#[derive(Debug)]
pub enum SendOutcome {
    /// The message is on the queue of the server loop.
    Queued,
    /// No message could be made of the payload; nothing was queued.
    NotConstructed(Error),
    /// The server loop has ended and takes no more messages; the message was
    /// dropped.
    ServerShutDown,
}

/// What becomes of a payload that is to be sent, given its serialized form
/// and the bound on its bytes: where no message can be made of it, nothing is
/// queued and the error says why; else the message is handed to the queue of
/// the server loop, which takes it unless the loop has ended.
pub open spec fn is_send_outcome(
    serialized: Result<Vec<u8>, Box<bincode::ErrorKind>>,
    max_size: u32,
    outcome: SendOutcome,
) -> bool {
    match bounded_bytes(serialized, max_size) {
        Err(error) => outcome == SendOutcome::NotConstructed(error),
        Ok(_) => outcome is Queued || outcome is ServerShutDown,
    }
}

/// The peers to which a payload can be addressed by `gossip`: `chosen` holds
/// peers only, none of the excluded ones, and as many as were asked for, or
/// all that are eligible where those are fewer.
pub open spec fn is_gossip_choice(
    peers: Set<Seq<char>>,
    exclude: Set<Seq<char>>,
    count: usize,
    chosen: Set<Seq<char>>,
) -> bool {
    &&& chosen.finite()
    &&& chosen.subset_of(peers)
    &&& chosen.disjoint(exclude)
    &&& chosen.len() == if count <= peers.difference(exclude).len() {
        count as nat
    } else {
        peers.difference(exclude).len()
    }
}

/// The size of a choice for `gossip`, counted from the peer table: as many as
/// were asked for, or the peers less the excluded ones among them, where
/// those are fewer. A choice never holds an excluded node, nor a node that is
/// no peer.
pub proof fn lemma_gossip_choice_size(
    peers: Set<Seq<char>>,
    exclude: Set<Seq<char>>,
    count: usize,
    chosen: Set<Seq<char>>,
)
    requires
        peers.finite(),
        exclude.finite(),
        is_gossip_choice(peers, exclude, count, chosen),
    ensures
        chosen.len() == if count <= peers.len() - peers.intersect(exclude).len() {
            count as int
        } else {
            peers.len() - peers.intersect(exclude).len()
        },
        chosen.len() <= count,
        forall|id: Seq<char>| chosen.contains(id) ==> peers.contains(id) && !exclude.contains(id),
{
    vstd::set_lib::lemma_set_difference_len(peers, exclude);
    assert forall|id: Seq<char>| chosen.contains(id) implies peers.contains(id) && !exclude.contains(
        id,
    ) by {}
}

/// The report on the peers: one entry for each peer, with the text of the
/// address of its remote end.
pub open spec fn is_peers_report(
    peers: Map<Seq<char>, ConnectedPoint>,
    report: Map<Seq<char>, String>,
) -> bool {
    &&& report.dom() == peers.dom()
    &&& forall|id: Seq<char>| #[trigger]
        peers.dom().contains(id) ==> report[id]@ == peers[id].remote_address()@
}

/// What `effect` has to be after `event` was handled in the state `before`.
pub open spec fn is_effect_of<P: PayloadT>(before: NetworkState, event: Event<P>, effect: Effect) -> bool {
    match event {
        Event::ConnectionEstablished { peer_id, .. } => effect == Effect::AnnounceNewPeer(*peer_id),
        Event::UnknownPeerUnreachableAddress { .. } => effect == if before.halts_isolated(event) {
            Effect::Fatal(Fatal::Isolated)
        } else {
            Effect::Nothing
        },
        Event::ExpiredListenAddress(address) => effect == if without(
            before.listening_addresses,
            address@,
        ).len() == 0 {
            Effect::Fatal(Fatal::NoListeningAddress)
        } else {
            Effect::Nothing
        },
        Event::ListenerClosed { reason, .. } => effect == match reason {
            Err(error) => Effect::Fatal(Fatal::ListenerClosed { error }),
            Ok(()) => Effect::Nothing,
        },
        Event::NetworkRequest { request } => match *request {
            NetworkRequest::SendMessage { .. } => effect == Effect::Acknowledge,
            NetworkRequest::Broadcast { .. } => effect == Effect::Acknowledge,
            NetworkRequest::Gossip { count, exclude, .. } => effect matches Effect::RespondGossip(
                chosen,
            ) && chosen.wf() && is_gossip_choice(before.peers.dom(), exclude@, count, chosen@),
        },
        Event::NetworkInfoRequest { info_request } => match *info_request {
            NetworkInfoRequest::GetPeers => effect matches Effect::RespondPeers(report)
                && report.wf() && is_peers_report(before.peers, report@),
        },
        _ => effect == Effect::Nothing,
    }
}

/// The configuration of the network component.
#[derive(Debug)]
pub struct Config {
    /// The socket address to listen on, such as `0.0.0.0:34553`.
    pub bind_address: String,
    /// The socket addresses of the nodes through which this node finds the
    /// network. At least one is needed.
    pub known_addresses: Vec<String>,
    /// The time in milliseconds that the setup of a connection may take.
    pub connection_setup_timeout: u64,
    /// The bound on the bytes of a one-way message.
    pub max_one_way_message_size: u32,
    /// The bound on the bytes of a gossip message.
    pub max_gossip_message_size: u32,
}

/// What the server loop of a new network component starts with.
#[derive(Debug)]
pub struct ServerStart {
    /// The key pair of this node, for the encrypted transport.
    pub identity_keys: libp2p::identity::Keypair,
    /// The receiving half of the queue of one-way messages.
    pub one_way_message_receiver: tokio::sync::mpsc::UnboundedReceiver<Outgoing>,
    /// The receiving half of the queue of gossip messages.
    pub gossip_message_receiver: tokio::sync::mpsc::UnboundedReceiver<GossipMessage>,
    /// The receiving half of the shutdown signal.
    pub shutdown_receiver: tokio::sync::watch::Receiver<()>,
    /// The address to listen on.
    pub listening_address: Address,
    /// The known addresses, each to be dialed once.
    pub known_addresses: Vec<Address>,
}

/// What is left to do when the network component is shut down.
#[derive(Clone, Copy, Debug, PartialEq, Eq, Structural)]
pub enum Finalized {
    /// The shutdown signal was given: wait for the server loop to end.
    AwaitServer,
    /// Networking is enabled but no server loop was running: the component
    /// had been shut down already.
    AlreadyShutDown,
    /// Networking is disabled: there is nothing to wait for.
    Nothing,
}

/// The texts of a list of strings, in order.
pub open spec fn string_texts(strings: Seq<String>) -> Seq<Seq<char>> {
    Seq::new(strings.len(), |i: int| strings[i]@)
}

/// The table of known addresses at the start: every socket address of the
/// configuration, as the address that it names, is pending.
pub open spec fn pending_table(addresses: Seq<Seq<char>>) -> Map<Seq<char>, ConnectionState> {
    Map::new(
        |address: Seq<char>|
            exists|i: int|
                0 <= i < addresses.len() && #[trigger] socket_multiaddr(addresses[i]) == Some(
                    address,
                ),
        |address: Seq<char>| ConnectionState::Pending,
    )
}

/// The place of the first socket address that names no address, if there is
/// one.
pub open spec fn first_malformed(addresses: Seq<Seq<char>>) -> Option<int> {
    if exists|i: int| 0 <= i < addresses.len() && #[trigger] socket_multiaddr(addresses[i]) is None {
        Some(
            choose|i: int|
                0 <= i < addresses.len() && #[trigger] socket_multiaddr(addresses[i]) is None
                    && forall|j: int| 0 <= j < i ==> #[trigger] socket_multiaddr(addresses[j]) is Some,
        )
    } else {
        None
    }
}

/// The state of a new network component with the identity `our_id`. Without
/// networking the bounds on messages are zero.
pub open spec fn initial_state(our_id: Seq<char>, config: Config, enabled: bool) -> NetworkState {
    NetworkState {
        our_id,
        peers: Map::empty(),
        listening_addresses: Seq::empty(),
        known_addresses: pending_table(string_texts(config.known_addresses@)),
        max_one_way_message_size: if enabled {
            config.max_one_way_message_size
        } else {
            0
        },
        max_gossip_message_size: if enabled {
            config.max_gossip_message_size
        } else {
            0
        },
        server_running: enabled,
        isolation_reported: false,
    }
}

/// What the error of a socket address that names no address says.
pub open spec fn malformed_address_text() -> Seq<char> {
    "address is not a socket address that names a multiaddr"@
}

/// What the construction of a network component has to give.
///
/// Without a known address there is none. A known address that names no
/// address fails as a dial that cannot be made, the first such address first;
/// with networking, a bind address that names no address fails as a listener
/// that cannot be bound. Else there is a component in its initial state, with
/// an identity of its own, and with networking also what the server loop
/// starts with: the address to listen on and the known addresses, each once.
pub open spec fn is_construction(
    config: Config,
    enabled: bool,
    made: Result<(Network, Option<ServerStart>), Error>,
) -> bool {
    let known = string_texts(config.known_addresses@);
    if known.len() == 0 {
        made matches Err(Error::NoKnownAddress)
    } else if first_malformed(known) is Some {
        made matches Err(Error::DialPeer { address, error }) && address@
            == known[first_malformed(known)->Some_0] && error@ == malformed_address_text()
    } else if enabled && socket_multiaddr(config.bind_address@) is None {
        made matches Err(Error::Listen { address, error }) && address@ == config.bind_address@
            && error@ == malformed_address_text()
    } else {
        made matches Ok((network, start)) && network.wf() && network@ == initial_state(
            network@.our_id,
            config,
            enabled,
        ) && (start is Some <==> enabled) && (start matches Some(server) ==> {
            &&& Some(server.listening_address@) == socket_multiaddr(config.bind_address@)
            &&& address_texts(server.known_addresses@).no_duplicates()
            &&& address_texts(server.known_addresses@).to_set() == network@.known_addresses.dom()
        })
    }
}

/// When the construction succeeds: with no known address it fails for want
/// of one; with known addresses that all name an address, and with a bind
/// address that names one where networking is enabled, it gives a component
/// that knows at least one address.
pub proof fn lemma_construction_succeeds(
    config: Config,
    enabled: bool,
    made: Result<(Network, Option<ServerStart>), Error>,
)
    requires
        is_construction(config, enabled, made),
    ensures
        config.known_addresses@.len() == 0 ==> made matches Err(Error::NoKnownAddress),
        made is Ok <==> {
            &&& config.known_addresses@.len() >= 1
            &&& forall|i: int|
                0 <= i < config.known_addresses@.len() ==> #[trigger] socket_multiaddr(
                    string_texts(config.known_addresses@)[i],
                ) is Some
            &&& enabled ==> socket_multiaddr(config.bind_address@) is Some
        },
        made matches Ok((network, _)) ==> network@.known_addresses.dom().len() >= 1,
{
    let known = string_texts(config.known_addresses@);
    if known.len() > 0 && first_malformed(known) is None {
        assert forall|i: int| 0 <= i < known.len() implies #[trigger] socket_multiaddr(known[i]) is Some by {}
    }
    if let Ok((network, _)) = made {
        network.lemma_wf();
    }
}

/// A node halts for want of a listening address exactly when the last one
/// expires: while an address is left after an expiry, the node goes on.
pub proof fn lemma_halt_without_listening_address<P: PayloadT>(
    before: NetworkState,
    address: crate::address::Address,
    effect: Effect,
)
    requires
        is_effect_of(before, Event::<P>::ExpiredListenAddress(address), effect),
    ensures
        effect == Effect::Fatal(Fatal::NoListeningAddress) <==> before.after(
            Event::<P>::ExpiredListenAddress(address),
        ).listening_addresses.len() == 0,
        before.after(Event::<P>::ExpiredListenAddress(address)).listening_addresses.len() >= 1
            ==> effect == Effect::Nothing,
{
}

/// The network component.
#[derive(Debug)]
pub struct Network {
    our_id: NodeId,
    peers: TextMap<ConnectedPoint>,
    listening_addresses: Vec<Address>,
    known_addresses: TextMap<ConnectionState>,
    one_way_message_sender: tokio::sync::mpsc::UnboundedSender<Outgoing>,
    max_one_way_message_size: u32,
    gossip_message_sender: tokio::sync::mpsc::UnboundedSender<GossipMessage>,
    max_gossip_message_size: u32,
    shutdown_sender: Option<tokio::sync::watch::Sender<()>>,
    server_running: bool,
    isolation_reported: bool,
}

impl View for Network {
    type V = NetworkState;

    closed spec fn view(&self) -> NetworkState {
        NetworkState {
            our_id: self.our_id@,
            peers: self.peers@,
            listening_addresses: address_texts(self.listening_addresses@),
            known_addresses: self.known_addresses@,
            max_one_way_message_size: self.max_one_way_message_size,
            max_gossip_message_size: self.max_gossip_message_size,
            server_running: self.server_running,
            isolation_reported: self.isolation_reported,
        }
    }
}

/// Whether `text` is the text of one of `addresses`.
fn lists_address(addresses: &Vec<Address>, text: &String) -> (listed: bool)
    ensures
        listed == address_texts(addresses@).contains(text@),
{
    let mut i: usize = 0;
    while i < addresses.len()
        invariant
            i <= addresses@.len(),
            forall|j: int| 0 <= j < i ==> address_texts(addresses@)[j] != text@,
        decreases addresses@.len() - i,
    {
        if *addresses[i].as_string() == *text {
            assert(address_texts(addresses@)[i as int] == text@);
            return true;
        }
        i += 1;
    }
    false
}

impl Network {
    /// The tables hold no key twice, and there is at least one known address.
    pub closed spec fn wf(&self) -> bool {
        &&& self.peers.wf()
        &&& self.known_addresses.wf()
        &&& self.known_addresses.keys().len() >= 1
    }

    /// A well-formed component knows at least one address, and its tables are
    /// finite.
    pub proof fn lemma_wf(&self)
        requires
            self.wf(),
        ensures
            self@.known_addresses.dom().finite(),
            self@.known_addresses.dom().len() >= 1,
            self@.peers.dom().finite(),
    {
        self.known_addresses.lemma_view_of_keys();
        self.peers.lemma_view_of_keys();
        self.known_addresses.keys().unique_seq_to_set();
    }

    /// Creates a network component, with a fresh identity for this session.
    ///
    /// With `enabled` the component is made for a server loop, and what that
    /// loop starts with comes with it. Without, the component has no server
    /// loop: every message that it is asked to send is dropped.
    pub fn new(config: &Config, enabled: bool) -> (made: Result<
        (Network, Option<ServerStart>),
        Error,
    >)
        ensures
            is_construction(*config, enabled, made),
    {
        let ghost known = string_texts(config.known_addresses@);
        let n = config.known_addresses.len();
        if n == 0 {
            return Err(Error::NoKnownAddress);
        }
        let mut known_addresses: TextMap<ConnectionState> = TextMap::new();
        let mut to_dial: Vec<Address> = Vec::new();
        let mut i: usize = 0;
        assert(known_addresses@ =~= pending_table(known.take(0)));
        assert(address_texts(to_dial@) =~= known_addresses.keys());
        while i < n
            invariant
                n == config.known_addresses@.len(),
                known == string_texts(config.known_addresses@),
                i <= n,
                known_addresses.wf(),
                known_addresses@ == pending_table(known.take(i as int)),
                address_texts(to_dial@) == known_addresses.keys(),
                forall|j: int| 0 <= j < i ==> #[trigger] socket_multiaddr(known[j]) is Some,
            decreases n - i,
        {
            let text = &config.known_addresses[i];
            assert(known[i as int] == text@);
            match address_str_to_multiaddr(text.as_str()) {
                None => {
                    proof {
                        let first = first_malformed(known)->Some_0;
                        assert(socket_multiaddr(known[i as int]) is None);
                        if first < i {
                            assert(socket_multiaddr(known[first]) is Some);
                        }
                    }
                    return Err(
                        Error::DialPeer {
                            address: text.clone(),
                            error: String::from_str(
                                "address is not a socket address that names a multiaddr",
                            ),
                        },
                    );
                },
                Some(address) => {
                    let ghost table = known_addresses@;
                    let ghost dialed = address_texts(to_dial@);
                    if !known_addresses.contains_key(address.as_string()) {
                        to_dial.push(address.clone());
                        assert(address_texts(to_dial@) =~= dialed.push(address@));
                    }
                    known_addresses.insert(address.to_string(), ConnectionState::Pending);
                    proof {
                        let seen = known.take(i as int);
                        let more = known.take(i + 1);
                        assert(more[i as int] == known[i as int]);
                        assert forall|a: Seq<char>| #[trigger]
                            pending_table(more).dom().contains(a) implies table.insert(
                            address@,
                            ConnectionState::Pending,
                        ).dom().contains(a) by {
                            let j = choose|j: int|
                                0 <= j < more.len() && #[trigger] socket_multiaddr(more[j]) == Some(a);
                            if j < i {
                                assert(seen[j] == more[j]);
                                assert(pending_table(seen).dom().contains(a));
                            }
                        }
                        assert forall|a: Seq<char>| #[trigger]
                            table.insert(address@, ConnectionState::Pending).dom().contains(
                                a,
                            ) implies pending_table(more).dom().contains(a) by {
                            if a == address@ {
                                assert(socket_multiaddr(more[i as int]) == Some(a));
                            } else {
                                assert(pending_table(seen).dom().contains(a));
                                let j = choose|j: int|
                                    0 <= j < seen.len() && #[trigger] socket_multiaddr(seen[j])
                                        == Some(a);
                                assert(more[j] == seen[j]);
                                assert(socket_multiaddr(more[j]) == Some(a));
                            }
                        }
                        assert(known_addresses@ =~= pending_table(more));
                    }
                },
            }
            i += 1;
        }
        proof {
            assert(known.take(i as int) =~= known);
            assert(first_malformed(known) is None);
            let first = socket_multiaddr(known[0])->Some_0;
            assert(pending_table(known).dom().contains(first));
            known_addresses.lemma_view_of_keys();
            assert(known_addresses.keys().contains(first));
        }
        let (identity_keys, our_id) = generate_identity();
        let (one_way_message_sender, one_way_message_receiver) =
            tokio::sync::mpsc::unbounded_channel::<Outgoing>();
        let (gossip_message_sender, gossip_message_receiver) =
            tokio::sync::mpsc::unbounded_channel::<GossipMessage>();
        let (server_shutdown_sender, server_shutdown_receiver) = tokio::sync::watch::channel::<()>(());
        if !enabled {
            let network = Network {
                our_id,
                peers: TextMap::new(),
                listening_addresses: Vec::new(),
                known_addresses,
                one_way_message_sender,
                max_one_way_message_size: 0,
                gossip_message_sender,
                max_gossip_message_size: 0,
                shutdown_sender: Some(server_shutdown_sender),
                server_running: false,
                isolation_reported: false,
            };
            assert(network@.listening_addresses =~= Seq::<Seq<char>>::empty());
            return Ok((network, None));
        }
        let listening_address = match address_str_to_multiaddr(config.bind_address.as_str()) {
            Some(address) => address,
            None => {
                return Err(
                    Error::Listen {
                        address: config.bind_address.clone(),
                        error: String::from_str(
                            "address is not a socket address that names a multiaddr",
                        ),
                    },
                );
            },
        };
        let network = Network {
            our_id,
            peers: TextMap::new(),
            listening_addresses: Vec::new(),
            known_addresses,
            one_way_message_sender,
            max_one_way_message_size: config.max_one_way_message_size,
            gossip_message_sender,
            max_gossip_message_size: config.max_gossip_message_size,
            shutdown_sender: Some(server_shutdown_sender),
            server_running: true,
            isolation_reported: false,
        };
        assert(network@.listening_addresses =~= Seq::<Seq<char>>::empty());
        let start = ServerStart {
            identity_keys,
            one_way_message_receiver,
            gossip_message_receiver,
            shutdown_receiver: server_shutdown_receiver,
            listening_address,
            known_addresses: to_dial,
        };
        Ok((network, Some(start)))
    }

    /// The identity of this node.
    pub fn node_id(&self) -> (id: NodeId)
        ensures
            id@ == self@.our_id,
    {
        self.our_id.clone()
    }

    /// How far the connection to `address` has come, if it is a known
    /// address.
    pub fn known_address_state(&self, address: &Address) -> (state: Option<ConnectionState>)
        requires
            self.wf(),
        ensures
            state == if self@.known_addresses.dom().contains(address@) {
                Some(self@.known_addresses[address@])
            } else {
                None
            },
    {
        match self.known_addresses.get(address.as_string()) {
            Some(state) => Some(*state),
            None => None,
        }
    }

    /// The number of known addresses.
    pub fn known_address_count(&self) -> (count: usize)
        requires
            self.wf(),
        ensures
            count == self@.known_addresses.dom().len(),
            count >= 1,
    {
        self.known_addresses.len()
    }

    /// Whether `peer_id` is in the peer table.
    pub fn has_peer(&self, peer_id: &NodeId) -> (present: bool)
        ensures
            present == self@.peers.dom().contains(peer_id@),
    {
        self.peers.contains_key(peer_id.as_string())
    }

    /// The number of peers.
    pub fn peer_count(&self) -> (count: usize)
        requires
            self.wf(),
        ensures
            count == self@.peers.dom().len(),
    {
        self.peers.len()
    }

    /// The addresses on which this node listens, oldest first.
    pub fn listening_addresses(&self) -> (addresses: &Vec<Address>)
        ensures
            address_texts(addresses@) == self@.listening_addresses,
    {
        &self.listening_addresses
    }

    /// The bound on the bytes of a one-way message.
    pub fn max_one_way_message_size(&self) -> (bound: u32)
        ensures
            bound == self@.max_one_way_message_size,
    {
        self.max_one_way_message_size
    }

    /// The bound on the bytes of a gossip message.
    pub fn max_gossip_message_size(&self) -> (bound: u32)
        ensures
            bound == self@.max_gossip_message_size,
    {
        self.max_gossip_message_size
    }

    /// Whether a server loop was started for this component.
    pub fn is_server_running(&self) -> (running: bool)
        ensures
            running == self@.server_running,
    {
        self.server_running
    }

    /// Whether the halt for isolation has been raised.
    pub fn is_isolation_reported(&self) -> (reported: bool)
        ensures
            reported == self@.isolation_reported,
    {
        self.isolation_reported
    }

    /// Whether this node is isolated: every known address has failed, so the
    /// node has no chance of finding the network again.
    pub fn is_isolated(&self) -> (isolated: bool)
        requires
            self.wf(),
        ensures
            isolated == self@.is_isolated(),
    {
        let n = self.known_addresses.len();
        let mut i: usize = 0;
        while i < n
            invariant
                self.wf(),
                n == self.known_addresses.keys().len(),
                i <= n,
                forall|j: int|
                    0 <= j < i ==> self.known_addresses@[#[trigger] self.known_addresses.keys()[j]]
                        == ConnectionState::Failed,
            decreases n - i,
        {
            match self.known_addresses.value_at(i) {
                ConnectionState::Failed => {},
                _ => {
                    return false;
                },
            }
            i += 1;
        }
        proof {
            self.known_addresses.lemma_view_of_keys();
            assert forall|address: Seq<char>| #[trigger]
                self@.known_addresses.dom().contains(address) implies self@.known_addresses[address]
                == ConnectionState::Failed by {
                let j = choose|j: int|
                    0 <= j < self.known_addresses.keys().len() && self.known_addresses.keys()[j]
                        == address;
                assert(self.known_addresses@[self.known_addresses.keys()[j]]
                    == ConnectionState::Failed);
            }
        }
        true
    }

    /// Whether this node is a bootstrap node: one of the known addresses is an
    /// address on which the node itself listens.
    pub fn is_bootstrap_node(&self) -> (bootstrap: bool)
        requires
            self.wf(),
        ensures
            bootstrap == self@.is_bootstrap_node(),
    {
        let n = self.known_addresses.len();
        let mut i: usize = 0;
        while i < n
            invariant
                self.wf(),
                n == self.known_addresses.keys().len(),
                i <= n,
                forall|j: int|
                    0 <= j < i ==> !self@.listening_addresses.contains(
                        #[trigger] self.known_addresses.keys()[j],
                    ),
            decreases n - i,
        {
            if lists_address(&self.listening_addresses, self.known_addresses.key_at(i)) {
                proof {
                    let address = self.known_addresses.keys()[i as int];
                    assert(self@.known_addresses.dom().contains(address)
                        && self@.listening_addresses.contains(address));
                }
                return true;
            }
            i += 1;
        }
        proof {
            self.known_addresses.lemma_view_of_keys();
            assert forall|address: Seq<char>| #[trigger]
                self@.known_addresses.dom().contains(address) implies !self@.listening_addresses.contains(
                address,
            ) by {
                let j = choose|j: int|
                    0 <= j < self.known_addresses.keys().len() && self.known_addresses.keys()[j]
                        == address;
                assert(!self@.listening_addresses.contains(self.known_addresses.keys()[j]));
            }
        }
        false
    }

    /// Records that the known address `address`, if it is pending, has reached
    /// `outcome`.
    fn settle(&mut self, address: &Address, outcome: ConnectionState)
        requires
            old(self).wf(),
        ensures
            final(self).wf(),
            final(self)@ == old(self)@.settled(address@, outcome),
    {
        let pending = match self.known_addresses.get(address.as_string()) {
            Some(state) => match state {
                ConnectionState::Pending => true,
                _ => false,
            },
            None => false,
        };
        if pending {
            self.known_addresses.insert(address.to_string(), outcome);
        }
    }

    /// Handles a newly established connection: a pending known address that
    /// this node dialed becomes connected, the peer is listed with the
    /// endpoint (in place of an earlier one), and the peer is announced.
    pub fn handle_connection_established(
        &mut self,
        peer_id: NodeId,
        endpoint: ConnectedPoint,
        num_established: u32,
    ) -> (effect: Effect)
        requires
            old(self).wf(),
        ensures
            final(self).wf(),
            final(self)@ == old(self)@.connection_established(peer_id@, endpoint),
            effect == Effect::AnnounceNewPeer(peer_id),
    {
        match &endpoint {
            ConnectedPoint::Dialer { address } => {
                self.settle(address, ConnectionState::Connected);
            },
            ConnectedPoint::Listener { .. } => {},
        }
        self.peers.insert(peer_id.to_string(), endpoint);
        Effect::AnnounceNewPeer(peer_id)
    }

    /// Handles a closed connection: the peer leaves the table when none of its
    /// connections is left.
    pub fn handle_connection_closed(&mut self, peer_id: &NodeId, num_established: u32) -> (effect:
        Effect)
        requires
            old(self).wf(),
        ensures
            final(self).wf(),
            final(self)@ == old(self)@.connection_closed(peer_id@, num_established),
            effect == Effect::Nothing,
    {
        if num_established == 0 {
            self.peers.remove(peer_id.as_string());
        }
        Effect::Nothing
    }

    /// Handles an address that could not be reached: the address, if known
    /// and pending, has failed. Where that leaves the node isolated, a
    /// bootstrap node goes on; any other node has to halt, and is told so
    /// once.
    pub fn handle_unknown_peer_unreachable_address(&mut self, address: Address, error: String) -> (effect:
        Effect)
        requires
            old(self).wf(),
        ensures
            final(self).wf(),
            final(self)@ == old(self)@.address_unreachable(address@),
            effect == if old(self)@.settled(address@, ConnectionState::Failed).must_halt_isolated() {
                Effect::Fatal(Fatal::Isolated)
            } else {
                Effect::Nothing
            },
    {
        self.settle(&address, ConnectionState::Failed);
        if self.is_isolated() && !self.is_bootstrap_node() && !self.isolation_reported {
            self.isolation_reported = true;
            return Effect::Fatal(Fatal::Isolated);
        }
        Effect::Nothing
    }

    /// Handles a new listening address: it is added behind the others.
    pub fn handle_new_listen_address(&mut self, address: Address) -> (effect: Effect)
        requires
            old(self).wf(),
        ensures
            final(self).wf(),
            final(self)@ == old(self)@.listen_address_added(address@),
            effect == Effect::Nothing,
    {
        let ghost text = address@;
        self.listening_addresses.push(address);
        assert(self@.listening_addresses =~= old(self)@.listening_addresses.push(text));
        Effect::Nothing
    }

    /// Handles an expired listening address: it leaves the list, and a node
    /// that listens on no address any more has to halt.
    pub fn handle_expired_listen_address(&mut self, address: &Address) -> (effect: Effect)
        requires
            old(self).wf(),
        ensures
            final(self).wf(),
            final(self)@ == old(self)@.listen_address_expired(address@),
            effect == if final(self)@.listening_addresses.len() == 0 {
                Effect::Fatal(Fatal::NoListeningAddress)
            } else {
                Effect::Nothing
            },
    {
        let mut kept: Vec<Address> = Vec::new();
        let mut i: usize = 0;
        assert(address_texts(self.listening_addresses@.take(0)) =~= Seq::<Seq<char>>::empty());
        assert(without(Seq::<Seq<char>>::empty(), address@) =~= Seq::<Seq<char>>::empty()) by {
            reveal(Seq::filter);
        }
        while i < self.listening_addresses.len()
            invariant
                i <= self.listening_addresses@.len(),
                address_texts(kept@) == without(
                    address_texts(self.listening_addresses@.take(i as int)),
                    address@,
                ),
            decreases self.listening_addresses@.len() - i,
        {
            let ghost seen = address_texts(self.listening_addresses@.take(i as int));
            let ghost kept_before = address_texts(kept@);
            let current = &self.listening_addresses[i];
            proof {
                lemma_without_push(seen, current@, address@);
                assert(address_texts(self.listening_addresses@.take(i + 1)) =~= seen.push(current@));
            }
            if !current.same(address) {
                kept.push(current.clone());
                assert(address_texts(kept@) =~= kept_before.push(current@));
            }
            i += 1;
        }
        assert(self.listening_addresses@.take(i as int) =~= self.listening_addresses@);
        self.listening_addresses = kept;
        if self.listening_addresses.len() == 0 {
            return Effect::Fatal(Fatal::NoListeningAddress);
        }
        Effect::Nothing
    }

    /// Handles a closed listener: a listener that closed with an error leaves
    /// the node unable to work, so it has to halt; one that closed without an
    /// error was shut down on purpose.
    pub fn handle_listener_closed(&self, reason: Result<(), String>) -> (effect: Effect)
        ensures
            effect == match reason {
                Err(error) => Effect::Fatal(Fatal::ListenerClosed { error }),
                Ok(()) => Effect::Nothing,
            },
    {
        match reason {
            Err(error) => Effect::Fatal(Fatal::ListenerClosed { error }),
            Ok(()) => Effect::Nothing,
        }
    }

    /// Puts a one-way message on the queue of the server loop, where one was
    /// built. A message that was not built is dropped with its error, and so
    /// is one that a server loop that has ended no longer takes.
    pub fn queue_one_way(&self, built: Result<Outgoing, Error>) -> (outcome: SendOutcome)
        ensures
            match built {
                Err(error) => outcome == SendOutcome::NotConstructed(error),
                Ok(_) => outcome is Queued || outcome is ServerShutDown,
            },
    {
        match built {
            Err(error) => SendOutcome::NotConstructed(error),
            Ok(message) => match self.one_way_message_sender.send(message) {
                Ok(()) => SendOutcome::Queued,
                Err(_) => SendOutcome::ServerShutDown,
            },
        }
    }

    /// Puts a gossip message on the queue of the server loop, where one was
    /// built. A message that was not built is dropped with its error, and so
    /// is one that a server loop that has ended no longer takes.
    pub fn queue_gossip(&self, built: Result<GossipMessage, Error>) -> (outcome: SendOutcome)
        ensures
            match built {
                Err(error) => outcome == SendOutcome::NotConstructed(error),
                Ok(_) => outcome is Queued || outcome is ServerShutDown,
            },
    {
        match built {
            Err(error) => SendOutcome::NotConstructed(error),
            Ok(message) => match self.gossip_message_sender.send(message) {
                Ok(()) => SendOutcome::Queued,
                Err(_) => SendOutcome::ServerShutDown,
            },
        }
    }

    /// Queues a message to be sent to a specific node. Nothing is queued where
    /// the payload cannot be serialized or is longer than the bound on
    /// one-way messages.
    pub fn send_message<P: PayloadT>(&self, destination: NodeId, payload: P) -> (outcome:
        SendOutcome)
        ensures
            exists|serialized: Result<Vec<u8>, Box<bincode::ErrorKind>>| #[trigger]
                is_encoding(payload, serialized) && is_send_outcome(
                    serialized,
                    self@.max_one_way_message_size,
                    outcome,
                ),
    {
        let serialized = payload.encode();
        let ghost encoding = serialized;
        let built = Outgoing::from_serialized(
            destination,
            serialized,
            self.max_one_way_message_size,
        );
        let outcome = self.queue_one_way(built);
        assert(is_encoding(payload, encoding) && is_send_outcome(
            encoding,
            self@.max_one_way_message_size,
            outcome,
        ));
        outcome
    }

    /// Queues a message to be sent to all nodes. Nothing is queued where the
    /// payload cannot be serialized or is longer than the bound on gossip
    /// messages.
    pub fn gossip_message<P: PayloadT>(&self, payload: P) -> (outcome: SendOutcome)
        ensures
            exists|serialized: Result<Vec<u8>, Box<bincode::ErrorKind>>| #[trigger]
                is_encoding(payload, serialized) && is_send_outcome(
                    serialized,
                    self@.max_gossip_message_size,
                    outcome,
                ),
    {
        let serialized = payload.encode();
        let ghost encoding = serialized;
        let built = GossipMessage::from_serialized(serialized, self.max_gossip_message_size);
        let outcome = self.queue_gossip(built);
        assert(is_encoding(payload, encoding) && is_send_outcome(
            encoding,
            self@.max_gossip_message_size,
            outcome,
        ));
        outcome
    }

    /// The peers that are not in `exclude`, in the order of the peer table.
    fn eligible_peers(&self, exclude: &NodeSet) -> (candidates: Vec<NodeId>)
        requires
            self.wf(),
        ensures
            id_texts(candidates@).no_duplicates(),
            id_texts(candidates@).to_set() =~= self@.peers.dom().difference(exclude@),
    {
        let n = self.peers.len();
        let mut candidates: Vec<NodeId> = Vec::new();
        let ghost mut source: Seq<int> = Seq::empty();
        let mut i: usize = 0;
        while i < n
            invariant
                self.wf(),
                n == self.peers.keys().len(),
                i <= n,
                source.len() == candidates@.len(),
                forall|c: int|
                    0 <= c < source.len() ==> 0 <= #[trigger] source[c] < i && id_texts(
                        candidates@,
                    )[c] == self.peers.keys()[source[c]] && !exclude@.contains(
                        id_texts(candidates@)[c],
                    ),
                forall|c: int, d: int| 0 <= c < d < source.len() ==> source[c] < source[d],
                forall|j: int|
                    0 <= j < i && !exclude@.contains(#[trigger] self.peers.keys()[j]) ==> id_texts(
                        candidates@,
                    ).contains(self.peers.keys()[j]),
            decreases n - i,
        {
            let id = NodeId::new(self.peers.key_at(i).clone());
            let ghost before = id_texts(candidates@);
            if !exclude.contains(&id) {
                candidates.push(id);
                proof {
                    source = source.push(i as int);
                    let after = id_texts(candidates@);
                    assert(after =~= before.push(self.peers.keys()[i as int]));
                    assert forall|j: int|
                        0 <= j < i + 1 && !exclude@.contains(
                            #[trigger] self.peers.keys()[j],
                        ) implies after.contains(self.peers.keys()[j]) by {
                        if j < i {
                            let c = choose|c: int|
                                0 <= c < before.len() && before[c] == self.peers.keys()[j];
                            assert(after[c] == self.peers.keys()[j]);
                        } else {
                            assert(after[before.len() as int] == self.peers.keys()[j]);
                        }
                    }
                }
            }
            i += 1;
        }
        proof {
            let texts = id_texts(candidates@);
            self.peers.lemma_view_of_keys();
            assert forall|c: int, d: int| 0 <= c < texts.len() && 0 <= d < texts.len() && c != d implies texts[c]
                != texts[d] by {
                assert(source[c] != source[d]) by {
                    if c < d {
                        assert(source[c] < source[d]);
                    } else {
                        assert(source[d] < source[c]);
                    }
                }
            }
            assert forall|k: Seq<char>| texts.to_set().contains(k) implies self@.peers.dom().difference(
                exclude@,
            ).contains(k) by {
                let c = choose|c: int| 0 <= c < texts.len() && texts[c] == k;
                assert(self.peers.keys()[source[c]] == k);
                assert(self.peers.keys().contains(k));
            }
            assert forall|k: Seq<char>|
                self@.peers.dom().difference(exclude@).contains(k) implies texts.to_set().contains(
                k,
            ) by {
                assert(self.peers.keys().contains(k));
                let j = choose|j: int| 0 <= j < self.peers.keys().len() && self.peers.keys()[j] == k;
                assert(texts.contains(self.peers.keys()[j]));
            }
        }
        candidates
    }

    /// Queues a message to `count` random peers that are not in `exclude`, or
    /// to all of them where they are fewer, and returns the peers that were
    /// chosen. No peer is chosen twice. For each chosen peer the payload goes
    /// the way of `send_message`.
    pub fn send_message_to_n_peers<P: PayloadT>(
        &self,
        rng: &mut rand::rngs::StdRng,
        payload: P,
        count: usize,
        exclude: &NodeSet,
    ) -> (chosen: NodeSet)
        requires
            self.wf(),
        ensures
            chosen.wf(),
            is_gossip_choice(self@.peers.dom(), exclude@, count, chosen@),
    {
        let candidates = self.eligible_peers(exclude);
        let amount = if count <= candidates.len() {
            count
        } else {
            candidates.len()
        };
        let peer_ids = choose_multiple(rng, &candidates, amount);
        proof {
            lemma_choice_is_unique(id_texts(peer_ids@), id_texts(candidates@));
            id_texts(candidates@).unique_seq_to_set();
        }
        let mut chosen = NodeSet::new();
        let mut i: usize = 0;
        assert(id_texts(peer_ids@).take(0) =~= Seq::<Seq<char>>::empty());
        while i < peer_ids.len()
            invariant
                i <= peer_ids@.len(),
                chosen.wf(),
                id_texts(peer_ids@).no_duplicates(),
                chosen.order() == id_texts(peer_ids@).take(i as int),
            decreases peer_ids@.len() - i,
        {
            let peer_id = &peer_ids[i];
            let _ = self.send_message(peer_id.clone(), payload.clone());
            proof {
                chosen.lemma_order();
                let texts = id_texts(peer_ids@);
                assert(texts[i as int] == peer_id@);
                if chosen@.contains(peer_id@) {
                    let c = choose|c: int|
                        0 <= c < chosen.order().len() && chosen.order()[c] == peer_id@;
                    assert(texts[c] == texts[i as int]);
                }
                assert(texts.take(i + 1) =~= texts.take(i as int).push(peer_id@));
            }
            chosen.insert(peer_id.clone());
            i += 1;
        }
        proof {
            let texts = id_texts(peer_ids@);
            assert(texts.take(i as int) =~= texts);
            chosen.lemma_order();
            let eligible = id_texts(candidates@).to_set();
            assert forall|k: Seq<char>| chosen@.contains(k) implies eligible.contains(k) by {
                let c = choose|c: int| 0 <= c < texts.len() && texts[c] == k;
                assert(id_texts(candidates@).contains(texts[c]));
            }
            assert forall|k: Seq<char>| chosen@.contains(k) implies self@.peers.dom().contains(k)
                && !exclude@.contains(k) by {
                assert(eligible.contains(k));
                assert(self@.peers.dom().difference(exclude@).contains(k));
            }
            assert(chosen@.subset_of(self@.peers.dom()));
            assert(chosen@.disjoint(exclude@));
        }
        chosen
    }

    /// The peers, each with the text of the address of its remote end.
    pub fn get_peers(&self) -> (report: TextMap<String>)
        requires
            self.wf(),
        ensures
            report.wf(),
            is_peers_report(self@.peers, report@),
    {
        let n = self.peers.len();
        let mut report: TextMap<String> = TextMap::new();
        let mut i: usize = 0;
        assert(self.peers.keys().take(0) =~= Seq::<Seq<char>>::empty());
        while i < n
            invariant
                self.wf(),
                n == self.peers.keys().len(),
                i <= n,
                report.wf(),
                report.keys() == self.peers.keys().take(i as int),
                forall|j: int|
                    0 <= j < i ==> report@[#[trigger] self.peers.keys()[j]]@
                        == self.peers@[self.peers.keys()[j]].remote_address()@,
            decreases n - i,
        {
            let id = self.peers.key_at(i).clone();
            let address = self.peers.value_at(i).get_remote_address().to_string();
            proof {
                report.lemma_view_of_keys();
                if report@.dom().contains(id@) {
                    let c = choose|c: int| 0 <= c < report.keys().len() && report.keys()[c] == id@;
                    assert(self.peers.keys()[c] == self.peers.keys()[i as int]);
                }
                assert(self.peers.keys().take(i + 1) =~= self.peers.keys().take(i as int).push(id@));
                assert forall|j: int| 0 <= j < i implies self.peers.keys()[j] != id@ by {}
            }
            report.insert(id, address);
            i += 1;
        }
        proof {
            assert(self.peers.keys().take(i as int) =~= self.peers.keys());
            report.lemma_view_of_keys();
            self.peers.lemma_view_of_keys();
            assert(report@.dom() =~= self@.peers.dom());
            assert forall|id: Seq<char>| #[trigger] self@.peers.dom().contains(id) implies report@[id]@
                == self@.peers[id].remote_address()@ by {
                let j = choose|j: int| 0 <= j < self.peers.keys().len() && self.peers.keys()[j] == id;
                assert(report@[self.peers.keys()[j]]@ == self.peers@[self.peers.keys()[j]].remote_address()@);
            }
        }
        report
    }

    /// Handles one event of the node and says what the node has to do next.
    pub fn handle_event<P: PayloadT>(
        &mut self,
        rng: &mut rand::rngs::StdRng,
        event: Event<P>,
    ) -> (effect: Effect)
        requires
            old(self).wf(),
        ensures
            final(self).wf(),
            final(self)@ == old(self)@.after(event),
            is_effect_of(old(self)@, event, effect),
    {
        match event {
            Event::ConnectionEstablished { peer_id, endpoint, num_established } => {
                self.handle_connection_established(*peer_id, endpoint, num_established)
            },
            Event::ConnectionClosed { peer_id, endpoint, num_established, cause } => {
                self.handle_connection_closed(&*peer_id, num_established)
            },
            Event::UnreachableAddress { peer_id, address, error, attempts_remaining } => {
                Effect::Nothing
            },
            Event::UnknownPeerUnreachableAddress { address, error } => {
                self.handle_unknown_peer_unreachable_address(address, error)
            },
            Event::NewListenAddress(address) => self.handle_new_listen_address(address),
            Event::ExpiredListenAddress(address) => self.handle_expired_listen_address(&address),
            Event::ListenerClosed { addresses, reason } => self.handle_listener_closed(reason),
            Event::ListenerError { error } => Effect::Nothing,
            Event::NetworkRequest { request } => match *request {
                NetworkRequest::SendMessage { dest, payload } => {
                    let _ = self.send_message(dest, payload);
                    Effect::Acknowledge
                },
                NetworkRequest::Broadcast { payload } => {
                    let _ = self.gossip_message(payload);
                    Effect::Acknowledge
                },
                NetworkRequest::Gossip { payload, count, exclude } => {
                    let sent_to = self.send_message_to_n_peers(rng, payload, count, &exclude);
                    Effect::RespondGossip(sent_to)
                },
            },
            Event::NetworkInfoRequest { info_request } => match *info_request {
                NetworkInfoRequest::GetPeers => Effect::RespondPeers(self.get_peers()),
            },
        }
    }

    /// Says what is left to do when the component is shut down, and gives up
    /// the sending halves of the queues and of the shutdown signal, so that a
    /// server loop that is still running sees them closed and ends.
    pub fn finalize(self, enabled: bool) -> (left: Finalized)
        ensures
            left == if self@.server_running {
                Finalized::AwaitServer
            } else if enabled {
                Finalized::AlreadyShutDown
            } else {
                Finalized::Nothing
            },
    {
        if self.server_running {
            Finalized::AwaitServer
        } else if enabled {
            Finalized::AlreadyShutDown
        } else {
            Finalized::Nothing
        }
    }
}

} // verus!
