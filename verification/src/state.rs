//! The state of the network component as plain mathematics, and how each
//! event changes it.

use crate::endpoint::{ConnectedPoint, ConnectionState};
use crate::event::Event;
use crate::text_map::without;
use vstd::prelude::*;

verus! {

/// What the network component knows, as maps and sequences of texts.
pub struct NetworkState {
    /// The identity of this node.
    pub our_id: Seq<char>,
    /// The peers with an established connection, each with the endpoint of
    /// the connection that was established last.
    pub peers: Map<Seq<char>, ConnectedPoint>,
    /// The addresses on which this node listens, oldest first.
    pub listening_addresses: Seq<Seq<char>>,
    /// The known addresses and how far the connection to each has come.
    pub known_addresses: Map<Seq<char>, ConnectionState>,
    /// The bound on the bytes of a one-way message.
    pub max_one_way_message_size: u32,
    /// The bound on the bytes of a gossip message.
    pub max_gossip_message_size: u32,
    /// Whether a server loop was started for this component.
    pub server_running: bool,
    /// Whether the halt for isolation has been raised.
    pub isolation_reported: bool,
}

impl NetworkState {
    /// The node is isolated: every known address has failed.
    pub open spec fn is_isolated(self) -> bool {
        forall|address: Seq<char>| #[trigger]
            self.known_addresses.dom().contains(address) ==> self.known_addresses[address]
                == ConnectionState::Failed
    }

    /// The node is a bootstrap node: it listens on one of the known addresses.
    pub open spec fn is_bootstrap_node(self) -> bool {
        exists|address: Seq<char>| #[trigger]
            self.known_addresses.dom().contains(address) && self.listening_addresses.contains(
                address,
            )
    }

    /// The node has to halt for isolation: it is isolated, no bootstrap node,
    /// and the halt has not been raised before.
    pub open spec fn must_halt_isolated(self) -> bool {
        self.is_isolated() && !self.is_bootstrap_node() && !self.isolation_reported
    }

    /// The state in which the known address `address`, if it is pending, has
    /// reached `outcome`.
    pub open spec fn settled(self, address: Seq<char>, outcome: ConnectionState) -> NetworkState {
        if self.known_addresses.dom().contains(address) && self.known_addresses[address]
            == ConnectionState::Pending {
            NetworkState { known_addresses: self.known_addresses.insert(address, outcome), ..self }
        } else {
            self
        }
    }

    /// The state after a connection to `peer_id` was established: a pending
    /// known address that this node dialed is connected, and the peer is
    /// listed with the endpoint.
    pub open spec fn connection_established(
        self,
        peer_id: Seq<char>,
        endpoint: ConnectedPoint,
    ) -> NetworkState {
        let settled = match endpoint {
            ConnectedPoint::Dialer { address } => self.settled(address@, ConnectionState::Connected),
            ConnectedPoint::Listener { .. } => self,
        };
        NetworkState { peers: settled.peers.insert(peer_id, endpoint), ..settled }
    }

    /// The state after a connection to `peer_id` was closed and
    /// `num_established` of them are left: the peer leaves with its last
    /// connection.
    pub open spec fn connection_closed(self, peer_id: Seq<char>, num_established: u32) -> NetworkState {
        if num_established == 0 {
            NetworkState { peers: self.peers.remove(peer_id), ..self }
        } else {
            self
        }
    }

    /// The state after `address` proved unreachable: the address, if known and
    /// pending, has failed, and the halt for isolation counts as raised where
    /// it has to be raised now.
    pub open spec fn address_unreachable(self, address: Seq<char>) -> NetworkState {
        let failed = self.settled(address, ConnectionState::Failed);
        NetworkState {
            isolation_reported: self.isolation_reported || failed.must_halt_isolated(),
            ..failed
        }
    }

    /// The state after the node began to listen on `address`.
    pub open spec fn listen_address_added(self, address: Seq<char>) -> NetworkState {
        NetworkState { listening_addresses: self.listening_addresses.push(address), ..self }
    }

    /// The state after the node ceased to listen on `address`.
    pub open spec fn listen_address_expired(self, address: Seq<char>) -> NetworkState {
        NetworkState { listening_addresses: without(self.listening_addresses, address), ..self }
    }

    /// The state after `event`. Requests and the events that are only logged
    /// leave it as it is.
    pub open spec fn after<P>(self, event: Event<P>) -> NetworkState {
        match event {
            Event::ConnectionEstablished { peer_id, endpoint, .. } => self.connection_established(
                peer_id@,
                endpoint,
            ),
            Event::ConnectionClosed { peer_id, num_established, .. } => self.connection_closed(
                peer_id@,
                num_established,
            ),
            Event::UnknownPeerUnreachableAddress { address, .. } => self.address_unreachable(
                address@,
            ),
            Event::NewListenAddress(address) => self.listen_address_added(address@),
            Event::ExpiredListenAddress(address) => self.listen_address_expired(address@),
            _ => self,
        }
    }

    /// Whether `event` makes the node halt for isolation.
    pub open spec fn halts_isolated<P>(self, event: Event<P>) -> bool {
        match event {
            Event::UnknownPeerUnreachableAddress { address, .. } => self.settled(
                address@,
                ConnectionState::Failed,
            ).must_halt_isolated(),
            _ => false,
        }
    }

    /// The state after the events of `events`, in order.
    pub open spec fn after_all<P>(self, events: Seq<Event<P>>) -> NetworkState
        decreases events.len(),
    {
        if events.len() == 0 {
            self
        } else {
            self.after_all(events.drop_last()).after(events.last())
        }
    }

    /// How many of the events of `events`, handled in order from this state,
    /// make the node halt for isolation.
    pub open spec fn isolation_halts<P>(self, events: Seq<Event<P>>) -> nat
        decreases events.len(),
    {
        if events.len() == 0 {
            0
        } else {
            let before = events.drop_last();
            let last: nat = if self.after_all(before).halts_isolated(events.last()) {
                1
            } else {
                0
            };
            self.isolation_halts(before) + last
        }
    }
}

/// No event adds a known address or takes one away: the table keeps the
/// addresses that it was made with.
pub proof fn lemma_known_addresses_are_fixed<P>(state: NetworkState, event: Event<P>)
    ensures
        state.after(event).known_addresses.dom() =~= state.known_addresses.dom(),
{
}

/// A known address leaves the pending state at most once: an address that is
/// connected or failed stays so, and none becomes pending again.
pub proof fn lemma_known_address_settles_once<P>(
    state: NetworkState,
    event: Event<P>,
    address: Seq<char>,
)
    requires
        state.known_addresses.dom().contains(address),
    ensures
        state.known_addresses[address] != ConnectionState::Pending ==> state.after(
            event,
        ).known_addresses[address] == state.known_addresses[address],
        state.after(event).known_addresses[address] == ConnectionState::Pending
            ==> state.known_addresses[address] == ConnectionState::Pending,
{
}

/// A peer leaves the table only with its last connection: while connections
/// are left, closing one keeps the peer; closing the last removes it.
pub proof fn lemma_peer_leaves_with_last_connection(
    state: NetworkState,
    peer_id: Seq<char>,
    num_established: u32,
)
    ensures
        num_established != 0 ==> state.connection_closed(peer_id, num_established).peers
            == state.peers,
        num_established == 0 ==> !state.connection_closed(peer_id, num_established).peers.dom().contains(
            peer_id,
        ),
        forall|other: Seq<char>|
            other != peer_id ==> (#[trigger] state.connection_closed(
                peer_id,
                num_established,
            ).peers.dom().contains(other) <==> state.peers.dom().contains(other)),
{
}

/// A node that listens on one of its known addresses does not halt for
/// isolation, whatever fails.
pub proof fn lemma_bootstrap_node_does_not_halt<P>(state: NetworkState, event: Event<P>)
    requires
        state.is_bootstrap_node(),
    ensures
        !state.halts_isolated(event),
{
    match event {
        Event::UnknownPeerUnreachableAddress { address, .. } => {
            let failed = state.settled(address@, ConnectionState::Failed);
            let witness = choose|a: Seq<char>| #[trigger]
                state.known_addresses.dom().contains(a) && state.listening_addresses.contains(a);
            assert(failed.known_addresses.dom().contains(witness));
            assert(failed.is_bootstrap_node());
        },
        _ => {},
    }
}

/// A node that is no bootstrap node halts with the failure that leaves it
/// isolated, unless it has halted for isolation before.
pub proof fn lemma_isolated_node_halts<P>(state: NetworkState, event: Event<P>)
    requires
        event is UnknownPeerUnreachableAddress,
        !state.isolation_reported,
        state.after(event).is_isolated(),
        !state.after(event).is_bootstrap_node(),
    ensures
        state.halts_isolated(event),
        state.after(event).isolation_reported,
{
    let address = event->UnknownPeerUnreachableAddress_address;
    let failed = state.settled(address@, ConnectionState::Failed);
    assert(state.after(event).known_addresses == failed.known_addresses);
    assert(state.after(event).listening_addresses == failed.listening_addresses);
    assert(failed.is_isolated());
    assert(!failed.is_bootstrap_node());
}

/// Once the halt for isolation has been raised it counts as raised for good,
/// and the event that raises it marks it as raised.
pub proof fn lemma_isolation_report_is_kept<P>(state: NetworkState, event: Event<P>)
    ensures
        state.isolation_reported ==> state.after(event).isolation_reported,
        state.isolation_reported ==> !state.halts_isolated(event),
        state.halts_isolated(event) ==> state.after(event).isolation_reported,
{
}

/// However many addresses fail and however often, the node halts for
/// isolation at most once; after the halt it never does again.
pub proof fn lemma_isolation_halts_once<P>(state: NetworkState, events: Seq<Event<P>>)
    ensures
        state.isolation_halts(events) <= 1,
        state.isolation_reported ==> state.isolation_halts(events) == 0,
        state.isolation_halts(events) == 1 ==> state.after_all(events).isolation_reported,
        state.isolation_reported ==> state.after_all(events).isolation_reported,
    decreases events.len(),
{
    if events.len() > 0 {
        let before = events.drop_last();
        lemma_isolation_halts_once(state, before);
        lemma_isolation_report_is_kept(state.after_all(before), events.last());
    }
}

} // verus!
