//! The channel types that carry responses and streamed bodies.
//!
//! The channels are tokio's. What comes out of a receiving end depends on
//! what another task did with the sending end, so the contracts here promise
//! nothing about it: the library's logic is verified for every outcome.

use vstd::prelude::*;
use tokio::sync::mpsc;
use tokio::sync::oneshot;

verus! {

/// `tokio::sync::oneshot::Sender`, carried as an opaque value.
#[verifier::external_type_specification]
#[verifier::external_body]
#[verifier::reject_recursive_types(T)]
pub struct ExOneshotSender<T>(oneshot::Sender<T>);

/// `tokio::sync::oneshot::Receiver`, carried as an opaque value.
#[verifier::external_type_specification]
#[verifier::external_body]
#[verifier::reject_recursive_types(T)]
pub struct ExOneshotReceiver<T>(oneshot::Receiver<T>);

/// `tokio::sync::oneshot::error::RecvError`. The library never handles one:
/// the receiving end yields it when it is awaited after its sender was
/// dropped, and Verus wants every type declared that the receiving
/// end's `Future` impl names.
#[verifier::external_type_specification]
#[verifier::external_body]
pub struct ExOneshotRecvError(oneshot::error::RecvError);

/// `tokio::sync::mpsc::Sender`, carried as an opaque value.
#[verifier::external_type_specification]
#[verifier::external_body]
#[verifier::reject_recursive_types(T)]
pub struct ExMpscSender<T>(mpsc::Sender<T>);

/// `tokio::sync::mpsc::Receiver`, carried as an opaque value.
#[verifier::external_type_specification]
#[verifier::external_body]
#[verifier::reject_recursive_types(T)]
pub struct ExMpscReceiver<T>(mpsc::Receiver<T>);

/// What a receiving end hands out when it is asked without waiting.
#[derive(Debug)]
pub enum Polled<T> {
    /// A value was waiting.
    Item(T),
    /// Nothing is waiting, but the sending end is still there.
    Empty,
    /// Nothing is waiting and the sending end is gone.
    Closed,
}

/// What became of a value that was offered to a sending end without waiting.
#[derive(Debug)]
pub enum Pushed<T> {
    /// The value is in the queue.
    Queued,
    /// The queue is full: the value comes back.
    Full(T),
    /// The receiving end is gone or closed: the value comes back.
    Closed(T),
}

/// The largest depth that a bounded queue can have.
pub open spec fn max_depth() -> int {
    (usize::MAX as int) / 8
}

/// Calls `mpsc::channel`, which makes a bounded queue of the given depth
/// with its two ends. It panics on a depth of zero and on one above
/// `usize::MAX >> 3`, so those are left out. Nothing is claimed of the pair.
#[verifier::external_body]
pub(crate) fn stream_channel<T>(depth: usize) -> (ends: (mpsc::Sender<T>, mpsc::Receiver<T>))
    requires
        0 < depth <= max_depth(),
{
    mpsc::channel(depth)
}

/// Calls `mpsc::Sender::try_send` and names its three outcomes. Which one
/// comes depends on the receiving end; a value that was not taken comes back
/// as it was.
#[verifier::external_body]
pub(crate) fn push_stream<T>(sender: &mpsc::Sender<T>, value: T) -> (pushed: Pushed<T>)
    ensures
        pushed matches Pushed::Full(returned) ==> returned == value,
        pushed matches Pushed::Closed(returned) ==> returned == value,
{
    match sender.try_send(value) {
        Ok(()) => Pushed::Queued,
        Err(mpsc::error::TrySendError::Full(value)) => Pushed::Full(value),
        Err(mpsc::error::TrySendError::Closed(value)) => Pushed::Closed(value),
    }
}

/// Calls `mpsc::Sender::is_closed`, which tells whether the receiving end is
/// gone or closed. The answer depends on the receiving end, so nothing is
/// claimed of it.
#[verifier::external_body]
pub(crate) fn stream_is_closed<T>(sender: &mpsc::Sender<T>) -> (closed: bool) {
    sender.is_closed()
}

/// Calls `oneshot::channel`, which makes a connected pair of ends. Nothing
/// is claimed of the pair.
#[verifier::external_body]
pub(crate) fn completion_channel<T>() -> (ends: (oneshot::Sender<T>, oneshot::Receiver<T>)) {
    oneshot::channel()
}

/// Calls `oneshot::Receiver::try_recv` and names its three outcomes. Which
/// one comes depends on the sending end, so nothing is claimed of it.
#[verifier::external_body]
pub(crate) fn poll_completion<T>(receiver: &mut oneshot::Receiver<T>) -> (polled: Polled<T>) {
    match receiver.try_recv() {
        Ok(value) => Polled::Item(value),
        Err(oneshot::error::TryRecvError::Empty) => Polled::Empty,
        Err(oneshot::error::TryRecvError::Closed) => Polled::Closed,
    }
}

/// Calls `mpsc::Receiver::try_recv` and names its three outcomes. Which one
/// comes depends on the sending end, so nothing is claimed of it.
#[verifier::external_body]
pub(crate) fn poll_stream<T>(receiver: &mut mpsc::Receiver<T>) -> (polled: Polled<T>) {
    match receiver.try_recv() {
        Ok(value) => Polled::Item(value),
        Err(mpsc::error::TryRecvError::Empty) => Polled::Empty,
        Err(mpsc::error::TryRecvError::Disconnected) => Polled::Closed,
    }
}

} // verus!
