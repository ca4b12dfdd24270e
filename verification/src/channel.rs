use vstd::prelude::*;

verus! {

/// The sending endpoint of the command channel (`std::sync::mpsc::Sender`),
/// opaque to verification: what a send does to the queue depends on the
/// other thread, so nothing is assumed of it beyond its interface.
#[verifier::external_type_specification]
#[verifier::external_body]
#[verifier::reject_recursive_types(T)]
pub struct ExSender<T>(std::sync::mpsc::Sender<T>);

/// The receiving endpoint of the command channel
/// (`std::sync::mpsc::Receiver`), opaque to verification.
#[verifier::external_type_specification]
#[verifier::external_body]
#[verifier::reject_recursive_types(T)]
pub struct ExReceiver<T>(std::sync::mpsc::Receiver<T>);

/// What a non-blocking receive found on the channel.
#[derive(Clone, Copy, Debug, PartialEq, Eq)]
pub enum Recv<T> {
    /// The next queued value, in send order.
    Got(T),
    /// Nothing is queued right now; the sender may still send.
    Empty,
    /// Nothing is queued and the sending end has been dropped: nothing will
    /// ever arrive, permanently for the process lifetime.
    Disconnected,
}

/// Relies on std::sync::mpsc::channel: creates a connected
/// sender/receiver pair carrying values of one type, first-in first-out.
#[verifier::external_body]
fn mpsc_channel<T>() -> (r: (std::sync::mpsc::Sender<T>, std::sync::mpsc::Receiver<T>)) {
    std::sync::mpsc::channel()
}

/// Relies on std::sync::mpsc::Sender::send: queues the value without
/// blocking and returns whether the receiving end still exists; a value sent
/// to a dropped receiver is discarded.
#[verifier::external_body]
fn mpsc_send<T>(tx: &std::sync::mpsc::Sender<T>, value: T) -> (r: bool) {
    match tx.send(value) {
        Ok(()) => true,
        Err(_) => false,
    }
}

/// Relies on std::sync::mpsc::Receiver::try_recv: returns the next queued
/// value if one is pending, and otherwise reports, without ever blocking,
/// whether the queue is merely empty or the sending end is gone.
#[verifier::external_body]
fn mpsc_try_recv<T>(rx: &std::sync::mpsc::Receiver<T>) -> (r: Recv<T>) {
    match rx.try_recv() {
        Ok(value) => Recv::Got(value),
        Err(std::sync::mpsc::TryRecvError::Empty) => Recv::Empty,
        Err(std::sync::mpsc::TryRecvError::Disconnected) => Recv::Disconnected,
    }
}

/// Relies on std::sync::mpsc::Receiver::recv: blocks until a value is
/// queued and returns it, or returns `None` once the sending end is gone
/// and the queue is exhausted.
#[verifier::external_body]
fn mpsc_recv<T>(rx: &std::sync::mpsc::Receiver<T>) -> (r: Option<T>) {
    match rx.recv() {
        Ok(value) => Some(value),
        Err(_) => None,
    }
}

/// Opens one direction of the command channel: an unbounded, ordered,
/// single-producer/single-consumer cross-thread queue. Values are received
/// in the exact order they were sent.
pub fn open_channel<T>() -> (r: (std::sync::mpsc::Sender<T>, std::sync::mpsc::Receiver<T>)) {
    mpsc_channel()
}

/// Sends a value. Never blocks; returns false exactly when the receiving
/// end has been dropped, which is permanent.
pub fn channel_send<T>(tx: &std::sync::mpsc::Sender<T>, value: T) -> (r: bool) {
    mpsc_send(tx, value)
}

/// Receives the next value if one is pending, without blocking.
pub fn channel_try_recv<T>(rx: &std::sync::mpsc::Receiver<T>) -> (r: Recv<T>) {
    mpsc_try_recv(rx)
}

/// Receives the next value, blocking indefinitely until one arrives;
/// returns `None` only once the sending end is gone.
pub fn channel_recv<T>(rx: &std::sync::mpsc::Receiver<T>) -> (r: Option<T>) {
    mpsc_recv(rx)
}

} // verus!
