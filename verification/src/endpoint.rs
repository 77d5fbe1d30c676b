//! The two ends of a connection and the state of a known address.

use crate::address::Address;
use vstd::prelude::*;

verus! {

/// How far the connection to a known address has come. An address starts as
/// `Pending` and leaves that state at most once, for `Connected` or `Failed`.
#[derive(Clone, Copy, Debug, PartialEq, Eq, Structural)]
pub enum ConnectionState {
    Pending,
    Connected,
    Failed,
}

/// The endpoint of a connection, as seen from this node.
#[derive(Debug)]
pub enum ConnectedPoint {
    /// This node dialed the remote at `address`.
    Dialer { address: Address },
    /// This node accepted on `local_addr` a connection that came from
    /// `send_back_addr`.
    Listener { local_addr: Address, send_back_addr: Address },
}

impl ConnectedPoint {
    /// The address of the remote end.
    pub open spec fn remote_address(&self) -> Address {
        match self {
            ConnectedPoint::Dialer { address } => *address,
            ConnectedPoint::Listener { send_back_addr, .. } => *send_back_addr,
        }
    }

    /// Whether this node opened the connection.
    pub fn is_dialer(&self) -> (dialed: bool)
        ensures
            dialed == (self is Dialer),
    {
        match self {
            ConnectedPoint::Dialer { .. } => true,
            ConnectedPoint::Listener { .. } => false,
        }
    }

    /// The address of the remote end.
    pub fn get_remote_address(&self) -> (address: &Address)
        ensures
            *address == self.remote_address(),
    {
        match self {
            ConnectedPoint::Dialer { address } => address,
            ConnectedPoint::Listener { send_back_addr, .. } => send_back_addr,
        }
    }
}

} // verus!
