//! The errors of the networking core.

use vstd::prelude::*;

verus! {

/// `bincode::ErrorKind`, the error of the binary encoding. Nothing is known of
/// what is inside.
#[verifier::external_type_specification]
#[verifier::external_body]
pub struct ExBincodeErrorKind(bincode::ErrorKind);

/// What can go wrong when the network component is set up or a message is
/// built.
#[derive(Debug)]
pub enum Error {
    /// The configuration names no known address.
    NoKnownAddress,
    /// The node could not listen on `address`.
    Listen { address: String, error: String },
    /// The node could not dial the known address `address`.
    DialPeer { address: String, error: String },
    /// The key pair for the encrypted transport could not be signed.
    StaticKeypairSigning(String),
    /// The payload could not be serialized.
    Serialization(Box<bincode::ErrorKind>),
    /// The serialized payload is longer than the bound allows.
    MessageTooLarge { max_size: u32, actual_size: u64 },
}

impl Error {
    /// A description of the error for a log or a report.
    pub fn describe(&self) -> (text: &'static str)
        ensures
            text@ == match self {
                Error::NoKnownAddress => "config does not contain any known addresses"@,
                Error::Listen { .. } => "failed to listen"@,
                Error::DialPeer { .. } => "failed to dial the peer"@,
                Error::StaticKeypairSigning(_) => "signing libp2p-noise static DH keypair failed"@,
                Error::Serialization(_) => "failed to serialize"@,
                Error::MessageTooLarge { .. } => "message is larger than the maximum size"@,
            },
    {
        match self {
            Error::NoKnownAddress => "config does not contain any known addresses",
            Error::Listen { .. } => "failed to listen",
            Error::DialPeer { .. } => "failed to dial the peer",
            Error::StaticKeypairSigning(_) => "signing libp2p-noise static DH keypair failed",
            Error::Serialization(_) => "failed to serialize",
            Error::MessageTooLarge { .. } => "message is larger than the maximum size",
        }
    }
}

} // verus!
