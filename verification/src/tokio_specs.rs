//! What this crate assumes of the `tokio` synchronisation primitives that it
//! creates and hands on. Nothing here is proved.
//!
//! The crate creates a lock and a bounded channel, and clones the sending
//! half of the channel. It never locks, sends or receives: those suspend.

use crate::connector::OutboundItem;
use tokio::sync::mpsc::{Receiver, Sender};
use tokio::sync::Mutex;
use vstd::prelude::*;

verus! {

/// `tokio::sync::Mutex`, an exclusive lock whose `lock` suspends instead of
/// blocking.
#[verifier::external_type_specification]
#[verifier::external_body]
#[verifier::reject_recursive_types(T)]
pub struct ExMutex<T: ?Sized>(Mutex<T>);

/// `tokio::sync::mpsc::Sender`, a sending half of a bounded channel.
#[verifier::external_type_specification]
#[verifier::external_body]
#[verifier::reject_recursive_types(T)]
pub struct ExSender<T>(Sender<T>);

/// `tokio::sync::mpsc::Receiver`, the receiving half of a bounded channel.
#[verifier::external_type_specification]
#[verifier::external_body]
#[verifier::reject_recursive_types(T)]
pub struct ExReceiver<T>(Receiver<T>);

/// Which channel this sending half belongs to. What is sent through halves
/// of one channel arrives at the receiving half of that channel.
pub uninterp spec fn sender_channel(sender: Sender<OutboundItem>) -> int;

/// Which channel this receiving half belongs to.
pub uninterp spec fn receiver_channel(receiver: Receiver<OutboundItem>) -> int;

/// How many items a channel buffers at most: what `max_capacity` returns on
/// each of its halves. It is fixed when the channel is made.
pub uninterp spec fn channel_bound(channel: int) -> nat;

/// Puts a value behind a new, unlocked lock.
///
/// Trusted: calls `tokio::sync::Mutex::new`. Nothing is claimed of the lock.
#[verifier::external_body]
pub(crate) fn new_lock<T>(value: T) -> Mutex<T> {
    Mutex::new(value)
}

/// Makes a channel that buffers up to `buffer` items.
///
/// Trusted: calls `tokio::sync::mpsc::channel`, which panics when `buffer`
/// is 0 or more than `usize::MAX >> 3`, and otherwise returns the two
/// halves of one new channel with that bound.
#[verifier::external_body]
pub(crate) fn bounded_channel(buffer: usize) -> (halves: (
    Sender<OutboundItem>,
    Receiver<OutboundItem>,
))
    requires
        0 < buffer <= usize::MAX / 8,
    ensures
        sender_channel(halves.0) == receiver_channel(halves.1),
        channel_bound(sender_channel(halves.0)) == buffer,
{
    tokio::sync::mpsc::channel(buffer)
}

/// Another sending half of the same channel.
///
/// Trusted: calls `Sender::clone`, which returns a handle on the channel of
/// `sender`.
#[verifier::external_body]
pub(crate) fn clone_sender(sender: &Sender<OutboundItem>) -> (copy: Sender<OutboundItem>)
    ensures
        sender_channel(copy) == sender_channel(*sender),
{
    sender.clone()
}

} // verus!
