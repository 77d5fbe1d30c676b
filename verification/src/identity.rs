//! The identity of this node: a key pair, and the node identity derived from
//! its public key.

use crate::node_id::NodeId;
use vstd::prelude::*;

verus! {

/// `libp2p::identity::Keypair`, the key pair of a node. Nothing is known of
/// what is inside.
#[verifier::external_type_specification]
#[verifier::external_body]
pub struct ExKeypair(libp2p::identity::Keypair);

/// Calls `libp2p::identity::Keypair::generate_ed25519`. Trusted: nothing is
/// claimed of the key pair, which is random.
#[verifier::external_body]
pub(crate) fn generate_keypair() -> (keys: libp2p::identity::Keypair) {
    libp2p::identity::Keypair::generate_ed25519()
}

/// Calls `PublicKey::to_peer_id` on the public key of `keys` and prints the
/// peer identifier with its `Display` impl. Trusted: nothing is claimed of the
/// text.
#[verifier::external_body]
pub(crate) fn peer_id_text(keys: &libp2p::identity::Keypair) -> (text: String) {
    keys.public().to_peer_id().to_string()
}

/// A fresh key pair for this session, with the identity of the node that
/// holds it.
pub(crate) fn generate_identity() -> (identity: (libp2p::identity::Keypair, NodeId)) {
    let keys = generate_keypair();
    let our_id = NodeId::new(peer_id_text(&keys));
    (keys, our_id)
}

} // verus!
