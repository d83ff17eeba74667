//! The trusted boundary to `std::sync::mpsc`, the channel implementation the
//! runtime is built on. Channels carry values between threads, so nothing can
//! be promised here about which message a poll yields or whether a peer is
//! still alive: every wrapper states only what holds of every outcome, and
//! the verified loop takes the poll results as they come.

use vstd::prelude::*;

use crate::protocol::Poll;

verus! {

/// `std::sync::mpsc::Sender`: the sending half of an unbounded
/// multi-producer, single-consumer queue.
#[verifier::external_type_specification]
#[verifier::external_body]
#[verifier::reject_recursive_types(T)]
pub struct ExSender<T>(std::sync::mpsc::Sender<T>);

/// `std::sync::mpsc::SyncSender`: the sending half of a bounded
/// multi-producer, single-consumer queue.
#[verifier::external_type_specification]
#[verifier::external_body]
#[verifier::reject_recursive_types(T)]
pub struct ExSyncSender<T>(std::sync::mpsc::SyncSender<T>);

/// `std::sync::mpsc::Receiver`: the receiving half of either queue.
#[verifier::external_type_specification]
#[verifier::external_body]
#[verifier::reject_recursive_types(T)]
pub struct ExReceiver<T>(std::sync::mpsc::Receiver<T>);

/// Relies on `std::sync::mpsc::channel`: a fresh unbounded queue; sends on
/// the returned sender never block.
#[verifier::external_body]
pub(crate) fn channel<T>() -> (std::sync::mpsc::Sender<T>, std::sync::mpsc::Receiver<T>) {
    std::sync::mpsc::channel()
}

/// Relies on `std::sync::mpsc::sync_channel`: a fresh bounded queue holding
/// at most `bound` buffered messages.
#[verifier::external_body]
pub(crate) fn sync_channel<T>(bound: usize) -> (std::sync::mpsc::SyncSender<T>, std::sync::mpsc::Receiver<T>) {
    std::sync::mpsc::sync_channel(bound)
}

/// Relies on `std::sync::mpsc::Sender::send`: never blocks, and fails
/// exactly when the receiving half has been dropped. Whether that has
/// happened depends on another thread, so nothing is promised of the result.
#[verifier::external_body]
pub(crate) fn send<T>(sender: &std::sync::mpsc::Sender<T>, message: T) -> (delivered: bool) {
    sender.send(message).is_ok()
}

/// Relies on `std::sync::mpsc::SyncSender::try_send`: never blocks, and
/// fails exactly when the bounded buffer is full or the receiving half has
/// been dropped. Which of the outcomes happens depends on other threads, so
/// nothing is promised of the result.
#[verifier::external_body]
pub(crate) fn try_sync_send<T>(sender: &std::sync::mpsc::SyncSender<T>, message: T) -> (delivered: bool) {
    sender.try_send(message).is_ok()
}

/// Relies on `std::sync::mpsc::Receiver::try_recv`: never blocks; yields a
/// pending message, or says that none is pending, or that every sender is
/// gone. Which of the three happens depends on other threads, so nothing is
/// promised of the result.
#[verifier::external_body]
pub(crate) fn try_recv<T>(receiver: &std::sync::mpsc::Receiver<T>) -> (poll: Poll<T>) {
    match receiver.try_recv() {
        Ok(message) => Poll::Item(message),
        Err(std::sync::mpsc::TryRecvError::Empty) => Poll::Empty,
        Err(std::sync::mpsc::TryRecvError::Disconnected) => Poll::Disconnected,
    }
}

/// Relies on `std::sync::mpsc::Sender::clone`: an independent sender feeding
/// the same queue.
#[verifier::external_body]
pub(crate) fn clone_sender<T>(sender: &std::sync::mpsc::Sender<T>) -> std::sync::mpsc::Sender<T> {
    sender.clone()
}

/// Relies on `std::sync::mpsc::SyncSender::clone`: an independent sender
/// feeding the same queue.
#[verifier::external_body]
pub(crate) fn clone_sync_sender<T>(sender: &std::sync::mpsc::SyncSender<T>) -> std::sync::mpsc::SyncSender<T> {
    sender.clone()
}

} // verus!
