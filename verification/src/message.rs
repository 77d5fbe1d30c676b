//! Outgoing messages: a serialized payload under a size bound.

use crate::error::Error;
use crate::node_id::NodeId;
use crate::payload::{is_encoding, PayloadT};
use vstd::prelude::*;

verus! {

/// What becomes of a serialized payload that is to be sent under the bound
/// `max_size`: the bytes where there are at most `max_size` of them, else the
/// error that names the bound and the length; and the serializer's error
/// where it gave one.
pub open spec fn bounded_bytes(
    serialized: Result<Vec<u8>, Box<bincode::ErrorKind>>,
    max_size: u32,
) -> Result<Seq<u8>, Error> {
    match serialized {
        Err(error) => Err(Error::Serialization(error)),
        Ok(bytes) => if bytes.len() > max_size {
            Err(Error::MessageTooLarge { max_size, actual_size: bytes.len() as u64 })
        } else {
            Ok(bytes@)
        },
    }
}

/// Serialized bytes that are within the bound go into the message as they
/// are: no byte is added, dropped or changed on the way to the wire.
pub proof fn lemma_bytes_within_bound_are_kept(bytes: Vec<u8>, max_size: u32)
    requires
        bytes@.len() <= max_size,
    ensures
        bounded_bytes(Ok(bytes), max_size) == Ok::<Seq<u8>, Error>(bytes@),
{
}

/// Serialized bytes beyond the bound make no message: the error names the
/// bound and the number of bytes.
pub proof fn lemma_bytes_beyond_bound_are_refused(bytes: Vec<u8>, max_size: u32)
    requires
        bytes@.len() > max_size,
    ensures
        bounded_bytes(Ok(bytes), max_size) == Err::<Seq<u8>, Error>(
            Error::MessageTooLarge { max_size, actual_size: bytes.len() as u64 },
        ),
{
}

/// What is built for `destination` of a serialized payload under the bound
/// `max_size`: a message with the bytes as they are, or the error that keeps
/// the bytes from being sent.
pub open spec fn is_outgoing(
    destination: NodeId,
    serialized: Result<Vec<u8>, Box<bincode::ErrorKind>>,
    max_size: u32,
    built: Result<Outgoing, Error>,
) -> bool {
    match bounded_bytes(serialized, max_size) {
        Ok(bytes) => built is Ok && built->Ok_0.destination == destination && built->Ok_0.message@
            == bytes,
        Err(error) => built == Err::<Outgoing, Error>(error),
    }
}

/// What is built of a serialized payload for the gossip topic under the bound
/// `max_size`: a message with the bytes as they are, or the error that keeps
/// the bytes from being sent.
pub open spec fn is_gossip_message(
    serialized: Result<Vec<u8>, Box<bincode::ErrorKind>>,
    max_size: u32,
    built: Result<GossipMessage, Error>,
) -> bool {
    match bounded_bytes(serialized, max_size) {
        Ok(bytes) => built is Ok && built->Ok_0.data@ == bytes,
        Err(error) => built == Err::<GossipMessage, Error>(error),
    }
}

/// A one-way message to one node: the serialized payload and its destination.
#[derive(Debug)]
pub struct Outgoing {
    pub destination: NodeId,
    pub message: Vec<u8>,
}

impl Outgoing {
    /// Wraps an already serialized payload for `destination`, unless the
    /// serializer failed or the bytes are more than `max_size`.
    pub fn from_serialized(
        destination: NodeId,
        serialized: Result<Vec<u8>, Box<bincode::ErrorKind>>,
        max_size: u32,
    ) -> (built: Result<Outgoing, Error>)
        ensures
            is_outgoing(destination, serialized, max_size, built),
    {
        match serialized {
            Err(error) => Err(Error::Serialization(error)),
            Ok(bytes) => {
                if bytes.len() > max_size as usize {
                    Err(Error::MessageTooLarge { max_size, actual_size: bytes.len() as u64 })
                } else {
                    Ok(Outgoing { destination, message: bytes })
                }
            },
        }
    }

    /// Serializes `payload` and wraps it for `destination`. Fails where the
    /// payload cannot be serialized or its bytes are more than `max_size`.
    pub fn new<P: PayloadT>(destination: NodeId, payload: &P, max_size: u32) -> (built:
        Result<Outgoing, Error>)
        ensures
            exists|serialized: Result<Vec<u8>, Box<bincode::ErrorKind>>|
                #[trigger] is_encoding(*payload, serialized) && is_outgoing(
                    destination,
                    serialized,
                    max_size,
                    built,
                ),
    {
        let serialized = payload.encode();
        let ghost encoding = serialized;
        let built = Outgoing::from_serialized(destination, serialized, max_size);
        assert(is_encoding(*payload, encoding) && is_outgoing(destination, encoding, max_size, built));
        built
    }
}

/// A message for every node that listens to the gossip topic: the serialized
/// payload.
#[derive(Debug)]
pub struct GossipMessage {
    pub data: Vec<u8>,
}

impl GossipMessage {
    /// Wraps an already serialized payload, unless the serializer failed or
    /// the bytes are more than `max_size`.
    pub fn from_serialized(serialized: Result<Vec<u8>, Box<bincode::ErrorKind>>, max_size: u32) -> (built:
        Result<GossipMessage, Error>)
        ensures
            is_gossip_message(serialized, max_size, built),
    {
        match serialized {
            Err(error) => Err(Error::Serialization(error)),
            Ok(bytes) => {
                if bytes.len() > max_size as usize {
                    Err(Error::MessageTooLarge { max_size, actual_size: bytes.len() as u64 })
                } else {
                    Ok(GossipMessage { data: bytes })
                }
            },
        }
    }

    /// Serializes `payload` and wraps it. Fails where the payload cannot be
    /// serialized or its bytes are more than `max_size`.
    pub fn new<P: PayloadT>(payload: &P, max_size: u32) -> (built: Result<
        GossipMessage,
        Error,
    >)
        ensures
            exists|serialized: Result<Vec<u8>, Box<bincode::ErrorKind>>|
                #[trigger] is_encoding(*payload, serialized) && is_gossip_message(
                    serialized,
                    max_size,
                    built,
                ),
    {
        let serialized = payload.encode();
        let ghost encoding = serialized;
        let built = GossipMessage::from_serialized(serialized, max_size);
        assert(is_encoding(*payload, encoding) && is_gossip_message(encoding, max_size, built));
        built
    }
}

} // verus!
