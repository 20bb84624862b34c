//! The queue between submitters and workers: endpoints over
//! `std::sync::mpsc`, with the single consumer shared among the workers
//! behind a mutex.
//!
//! The standard channel has many producers and one consumer; the pool needs
//! many consumers, so the receiving end is kept in an `Arc<Mutex<..>>` and
//! every worker locks it to take the next message. That serializes dequeue
//! only, not execution.

use std::sync::mpsc;
use std::sync::{Arc, Mutex, MutexGuard};
use vstd::prelude::*;

verus! {

/// Declares std::sync::mpsc::Sender, the unbounded producer endpoint.
#[verifier::external_type_specification]
#[verifier::external_body]
#[verifier::reject_recursive_types(T)]
pub struct ExSender<T>(mpsc::Sender<T>);

/// Declares std::sync::mpsc::SyncSender, the bounded producer endpoint.
#[verifier::external_type_specification]
#[verifier::external_body]
#[verifier::reject_recursive_types(T)]
pub struct ExSyncSender<T>(mpsc::SyncSender<T>);

/// Declares std::sync::mpsc::Receiver, the consumer endpoint.
#[verifier::external_type_specification]
#[verifier::external_body]
#[verifier::reject_recursive_types(T)]
pub struct ExReceiver<T>(mpsc::Receiver<T>);

/// Declares std::sync::mpsc::SendError with its public field: the message
/// that could not be delivered.
#[verifier::external_type_specification]
pub struct ExSendError<T>(mpsc::SendError<T>);

/// Declares std::sync::mpsc::RecvError, the "every sender is gone" failure.
#[verifier::external_type_specification]
#[verifier::external_body]
pub struct ExRecvError(mpsc::RecvError);

/// Declares std::sync::Mutex, which serializes the workers' access to the
/// single receiver.
#[verifier::external_type_specification]
#[verifier::external_body]
#[verifier::reject_recursive_types(T)]
pub struct ExMutex<T: ?Sized>(Mutex<T>);

/// Declares std::sync::MutexGuard, the proof of exclusive access that
/// `Mutex::lock` hands out.
#[verifier::external_type_specification]
#[verifier::external_body]
#[verifier::reject_recursive_types(T)]
pub struct ExMutexGuard<'a, T: ?Sized + 'a>(MutexGuard<'a, T>);

/// Relies on std::sync::mpsc::sync_channel: the pair is connected, the
/// queue holds at most `bound` undelivered messages, and a send on a full
/// queue blocks until a message is taken out.
#[verifier::external_body]
fn raw_sync_channel<T>(bound: usize) -> (pair: (mpsc::SyncSender<T>, mpsc::Receiver<T>)) {
    mpsc::sync_channel(bound)
}

/// Relies on std::sync::mpsc::channel: the pair is connected and the queue
/// is unbounded, so a send never blocks.
#[verifier::external_body]
fn raw_channel<T>() -> (pair: (mpsc::Sender<T>, mpsc::Receiver<T>)) {
    mpsc::channel()
}

/// Relies on std::sync::Mutex::new: the mutex starts unlocked, owning `t`.
#[verifier::external_body]
fn new_mutex<T>(t: T) -> (m: Mutex<T>) {
    Mutex::new(t)
}

/// Relies on std::sync::Mutex::lock: blocks until the mutex is free and
/// returns the guard that gives exclusive access until dropped. A poisoned
/// mutex (a previous holder panicked) is taken anyway: the receiver inside
/// is still a valid endpoint, and the pool must keep serving.
#[verifier::external_body]
fn lock_queue<'a, T>(m: &'a Arc<Mutex<mpsc::Receiver<T>>>) -> (g: MutexGuard<
    'a,
    mpsc::Receiver<T>,
>) {
    m.lock().unwrap_or_else(|e| e.into_inner())
}

/// Relies on std::sync::mpsc::Receiver::recv: blocks until a message is
/// available and takes it out, delivering each sent message to exactly one
/// caller; fails only when the queue is empty and every sender is gone.
#[verifier::external_body]
fn recv_locked<T>(g: &MutexGuard<'_, mpsc::Receiver<T>>) -> (r: Result<T, mpsc::RecvError>) {
    g.recv()
}

/// Relies on std::sync::mpsc::SyncSender::send: blocks while the bounded
/// queue is full; delivers the message in first-in-first-out order per
/// sender, unless every receiver is gone, in which case the message comes
/// back inside the error.
#[verifier::external_body]
fn send_bounded<T>(s: &mpsc::SyncSender<T>, t: T) -> (r: Result<(), mpsc::SendError<T>>)
    ensures
        r matches Err(e) ==> e.0 == t,
{
    s.send(t)
}

/// Relies on std::sync::mpsc::Sender::send: never blocks; delivers the
/// message in first-in-first-out order per sender, unless the receiver is
/// gone, in which case the message comes back inside the error.
#[verifier::external_body]
fn send_unbounded<T>(s: &mpsc::Sender<T>, t: T) -> (r: Result<(), mpsc::SendError<T>>)
    ensures
        r matches Err(e) ==> e.0 == t,
{
    s.send(t)
}

/// Relies on Arc::clone: the returned handle is the same shared allocation.
#[verifier::external_body]
fn share_queue<T>(q: &Arc<Mutex<mpsc::Receiver<T>>>) -> (r: Arc<Mutex<mpsc::Receiver<T>>>)
    ensures
        r == *q,
{
    Arc::clone(q)
}

/// Creates a bounded queue: the producer blocks once `bound` messages are
/// waiting.
pub fn sync_channel<T>(bound: usize) -> (pair: (SenderWrapper<T>, ReceiverWrapper<T>))
    ensures
        pair.0 is Bounded,
{
    let (s, r) = raw_sync_channel(bound);
    (SenderWrapper::Bounded(s), ReceiverWrapper(Arc::new(new_mutex(r))))
}

/// Creates an unbounded queue: the producer never blocks.
pub fn channel<T>() -> (pair: (SenderWrapper<T>, ReceiverWrapper<T>))
    ensures
        pair.0 is Unbounded,
{
    let (s, r) = raw_channel();
    (SenderWrapper::Unbounded(s), ReceiverWrapper(Arc::new(new_mutex(r))))
}

/// Opens the queue a configuration asks for: bounded to
/// `incoming_buf_size` when that is set, unbounded otherwise.
pub fn open_queue<T>(config: &crate::config::PoolConfig) -> (pair: (
    SenderWrapper<T>,
    ReceiverWrapper<T>,
))
    ensures
        pair.0 is Bounded <==> config.incoming_buf_size is Some,
{
    match config.incoming_buf_size {
        Some(max) => sync_channel(max as usize),
        None => channel(),
    }
}

/// The submitting half of the queue. The two variants differ only in
/// whether a send can block.
#[verifier::reject_recursive_types(T)]
pub enum SenderWrapper<T> {
    Bounded(mpsc::SyncSender<T>),
    Unbounded(mpsc::Sender<T>),
}

impl<T> SenderWrapper<T> {
    /// Hands one message to the queue; on a bounded queue this blocks while
    /// the queue is full. Fails only when every consumer is gone, and then
    /// gives the message back inside the error.
    pub fn send(&self, t: T) -> (r: Result<(), mpsc::SendError<T>>)
        ensures
            r matches Err(e) ==> e.0 == t,
    {
        match self {
            SenderWrapper::Bounded(s) => send_bounded(s, t),
            SenderWrapper::Unbounded(s) => send_unbounded(s, t),
        }
    }
}

/// The consuming half of the queue: the channel's single receiver, shared
/// by every worker behind a mutex.
#[verifier::reject_recursive_types(T)]
pub struct ReceiverWrapper<T>(pub Arc<Mutex<mpsc::Receiver<T>>>);

impl<T> Clone for ReceiverWrapper<T> {
    /// Another handle on the same shared receiver.
    fn clone(&self) -> (r: Self)
        ensures
            r == *self,
    {
        ReceiverWrapper(share_queue(&self.0))
    }
}

impl<T> ReceiverWrapper<T> {
    /// Takes the next message out of the queue, blocking while it is empty.
    /// Each message reaches exactly one caller. Fails only when the queue is
    /// empty and every producer is gone; a worker treats that as shutdown.
    pub fn recv(&self) -> (r: Result<T, mpsc::RecvError>) {
        let guard = lock_queue(&self.0);
        recv_locked(&guard)
    }
}

} // verus!
