//! What the networking core asks of a payload.

use vstd::prelude::*;

verus! {

/// The requirements for a payload that the network component can carry: it
/// can be cloned, printed and sent to another thread, and it has a binary
/// encoding. The core is generic over the payload and never looks into one:
/// it asks it for its bytes, and asks the type for the payload of bytes that
/// came in.
///
/// The encoding on the wire is that of `bincode`, so an implementation hands
/// the payload to `bincode::serialize` and the bytes to
/// `bincode::deserialize`. Nothing is claimed of what the two return: that
/// depends on the payload's type. Contracts speak of what they return through
/// `is_encoding` and `is_decoding`.
pub trait PayloadT: Clone + core::fmt::Debug + core::fmt::Display + Send + 'static {
    /// The payload as bytes, or the error of the encoder.
    fn encode(&self) -> (serialized: Result<Vec<u8>, Box<bincode::ErrorKind>>);

    /// The payload that the bytes stand for, or the error of the decoder.
    fn decode(bytes: &Vec<u8>) -> (payload: Result<Self, Box<bincode::ErrorKind>>);
}

/// `serialized` is something that `payload` can give as its bytes.
pub open spec fn is_encoding<P: PayloadT>(
    payload: P,
    serialized: Result<Vec<u8>, Box<bincode::ErrorKind>>,
) -> bool {
    call_ensures(P::encode, (&payload,), serialized)
}

/// `decoded` is something that the payload type can make of `bytes`.
pub open spec fn is_decoding<P: PayloadT>(
    bytes: Vec<u8>,
    decoded: Result<P, Box<bincode::ErrorKind>>,
) -> bool {
    call_ensures(P::decode, (&bytes,), decoded)
}

/// The encoding of the payload type loses nothing: whatever bytes a payload
/// gives, the payload type makes that payload of them again.
pub open spec fn round_trips<P: PayloadT>() -> bool {
    forall|payload: P, sent: Vec<u8>, received: Vec<u8>, decoded: Result<P, Box<bincode::ErrorKind>>|
        #[trigger] is_encoding(payload, Ok(sent)) && received@ == sent@ && #[trigger] is_decoding(
            received,
            decoded,
        ) ==> decoded == Ok::<P, Box<bincode::ErrorKind>>(payload)
}

} // verus!
