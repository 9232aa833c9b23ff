//! The decoder channel: bounded hand-off of sample chunks from a decoder
//! thread to its deck, and the flag that tells the decoder to give up.

use vstd::prelude::*;
use crossbeam_channel::{Receiver, Sender, TryRecvError};
use std::sync::Arc;
use std::sync::atomic::AtomicBool;

verus! {

#[verifier::external_type_specification]
#[verifier::external_body]
#[verifier::reject_recursive_types(T)]
pub struct ExReceiver<T>(Receiver<T>);

#[verifier::external_type_specification]
#[verifier::external_body]
#[verifier::reject_recursive_types(T)]
pub struct ExSender<T>(Sender<T>);

/// What one non-blocking look at a decoder channel found.
pub enum Polled {
    /// A chunk of samples was waiting.
    Chunk(Vec<i16>),
    /// Nothing is waiting, but the decoder is still attached.
    Empty,
    /// Nothing is waiting and the decoder has gone.
    Disconnected,
}

/// `crossbeam_channel::Receiver::try_recv`. The outcome depends on what the
/// decoder thread has sent so far, so nothing is claimed of it.
#[verifier::external_body]
pub(crate) fn try_receive(rx: &Receiver<Vec<i16>>) -> (polled: Polled) {
    match rx.try_recv() {
        Ok(chunk) => Polled::Chunk(chunk),
        Err(TryRecvError::Empty) => Polled::Empty,
        Err(TryRecvError::Disconnected) => Polled::Disconnected,
    }
}

/// `crossbeam_channel::bounded`, which panics on a capacity too large for
/// its index arithmetic; small capacities are always accepted.
#[verifier::external_body]
pub(crate) fn open_channel(capacity: usize) -> (ends: (Sender<Vec<i16>>, Receiver<Vec<i16>>))
    requires
        capacity <= 0x10000,
{
    crossbeam_channel::bounded(capacity)
}

/// Raises a cancellation flag: the decoder that watches it is to give up.
/// What a flag holds is shared with that decoder's threads and is no part of
/// any contract.
pub fn probe(t: &Arc<AtomicBool>) {
    t.store(true, std::sync::atomic::Ordering::Relaxed);
}

/// A new cancellation flag, not raised. What a flag holds is shared memory
/// and no part of any contract, so nothing is said of the flag here.
pub fn probe2() -> (flag: Arc<AtomicBool>) {
    Arc::new(AtomicBool::new(false))
}

/// Another handle to the same cancellation flag, for the decoder that is to
/// watch it: raising the flag through either handle raises it for both.
pub fn probe3(t: &Arc<AtomicBool>) -> (shared: Arc<AtomicBool>)
    ensures
        shared == *t,
{
    t.clone()
}

} // verus!
