use vstd::prelude::*;

verus! {

/// The terminal error a host call gets once the render loop is gone:
/// one of the two channels backing it has closed.
#[derive(Clone, Copy, PartialEq, Eq, Structural, Debug)]
pub struct ChannelClosed;

/// What one non-blocking receive attempt found.
pub enum TryRecv<T> {
    /// The oldest queued message.
    Got(T),
    /// Nothing queued right now; the channel is still open.
    Empty,
    /// Nothing queued and every sender is gone.
    Closed,
}

#[verifier::external_type_specification]
#[verifier::external_body]
#[verifier::reject_recursive_types(T)]
pub struct ExSender<T>(async_channel::Sender<T>);

#[verifier::external_type_specification]
#[verifier::external_body]
#[verifier::reject_recursive_types(T)]
pub struct ExReceiver<T>(async_channel::Receiver<T>);

/// Relies on async_channel::unbounded: a fresh unbounded FIFO queue,
/// handed out as its sending and receiving half.
#[verifier::external_body]
pub(crate) fn channel_pair<T>() -> (r: (async_channel::Sender<T>, async_channel::Receiver<T>)) {
    async_channel::unbounded()
}

/// Relies on async_channel::Sender::try_send: it never blocks, and on an
/// unbounded channel it fails only when the channel is closed.
#[verifier::external_body]
pub(crate) fn try_send<T>(tx: &async_channel::Sender<T>, value: T) -> (accepted: bool) {
    tx.try_send(value).is_ok()
}

/// Relies on async_channel::Receiver::try_recv: a non-blocking dequeue of
/// the oldest message that tells an empty channel apart from a closed one.
#[verifier::external_body]
pub(crate) fn try_recv<T>(rx: &async_channel::Receiver<T>) -> (r: TryRecv<T>) {
    match rx.try_recv() {
        Ok(v) => TryRecv::Got(v),
        Err(async_channel::TryRecvError::Empty) => TryRecv::Empty,
        Err(async_channel::TryRecvError::Closed) => TryRecv::Closed,
    }
}

/// Relies on Clone for async_channel::Sender: another handle onto the
/// same queue.
#[verifier::external_body]
pub(crate) fn clone_sender<T>(tx: &async_channel::Sender<T>) -> (r: async_channel::Sender<T>) {
    tx.clone()
}

/// Relies on Clone for async_channel::Receiver: another handle onto the
/// same queue.
#[verifier::external_body]
pub(crate) fn clone_receiver<T>(rx: &async_channel::Receiver<T>) -> (r: async_channel::Receiver<T>) {
    rx.clone()
}

} // verus!
