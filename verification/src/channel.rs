//! The queues between the network component and its server loop.

use vstd::prelude::*;

verus! {

/// `tokio::sync::mpsc::UnboundedSender`, the sending half of a queue. Nothing
/// is known of what is inside.
#[verifier::external_type_specification]
#[verifier::external_body]
#[verifier::reject_recursive_types(T)]
pub struct ExUnboundedSender<T>(tokio::sync::mpsc::UnboundedSender<T>);

/// `tokio::sync::mpsc::UnboundedReceiver`, the receiving half of a queue.
/// Nothing is known of what is inside.
#[verifier::external_type_specification]
#[verifier::external_body]
#[verifier::reject_recursive_types(T)]
pub struct ExUnboundedReceiver<T>(tokio::sync::mpsc::UnboundedReceiver<T>);

/// `tokio::sync::mpsc::error::SendError`, the error of a queue whose receiving
/// half is gone. Nothing is known of what is inside.
#[verifier::external_type_specification]
#[verifier::external_body]
#[verifier::reject_recursive_types(T)]
pub struct ExSendError<T>(tokio::sync::mpsc::error::SendError<T>);

/// `tokio::sync::watch::Sender`, the sending half of the shutdown signal.
/// Nothing is known of what is inside.
#[verifier::external_type_specification]
#[verifier::external_body]
#[verifier::reject_recursive_types(T)]
pub struct ExWatchSender<T>(tokio::sync::watch::Sender<T>);

/// `tokio::sync::watch::Receiver`, the receiving half of the shutdown signal.
/// Nothing is known of what is inside.
#[verifier::external_type_specification]
#[verifier::external_body]
#[verifier::reject_recursive_types(T)]
pub struct ExWatchReceiver<T>(tokio::sync::watch::Receiver<T>);

/// `tokio::sync::mpsc::unbounded_channel` makes the two halves of a queue
/// without a bound. Trusted: nothing is claimed of the halves.
pub assume_specification<T>[ tokio::sync::mpsc::unbounded_channel::<T> ]() -> (halves: (
    tokio::sync::mpsc::UnboundedSender<T>,
    tokio::sync::mpsc::UnboundedReceiver<T>,
))
;

/// `UnboundedSender::send` puts a message on the queue without waiting, and
/// gives an error where the receiving half is closed or dropped. Trusted:
/// nothing is claimed of the result, which depends on what became of the
/// receiving half.
pub assume_specification<T>[ tokio::sync::mpsc::UnboundedSender::<T>::send ](
    sender: &tokio::sync::mpsc::UnboundedSender<T>,
    message: T,
) -> (sent: Result<(), tokio::sync::mpsc::error::SendError<T>>)
;

/// `tokio::sync::watch::channel` makes the two halves of a channel that holds
/// one value. Trusted: nothing is claimed of the halves.
pub assume_specification<T>[ tokio::sync::watch::channel::<T> ](init: T) -> (halves: (
    tokio::sync::watch::Sender<T>,
    tokio::sync::watch::Receiver<T>,
))
;

} // verus!
