//! The `tokio` channels that services publish on, declared for Verus.
//!
//! A service publishes through an `EventChannel` or offers values through
//! an `OfferChannel`; each keeps, as ghost state, every value handed to the
//! channel, in order. Only the trusted sending functions below add to
//! those logs, and each adds exactly the value it hands to `tokio`. What a
//! receiver then gets is `tokio`'s delivery, which is not modelled.

use vstd::prelude::*;

verus! {

#[verifier::external_type_specification]
#[verifier::external_body]
#[verifier::reject_recursive_types(T)]
pub struct ExBroadcastSender<T>(tokio::sync::broadcast::Sender<T>);

#[verifier::external_type_specification]
#[verifier::external_body]
#[verifier::reject_recursive_types(T)]
pub struct ExBroadcastReceiver<T>(tokio::sync::broadcast::Receiver<T>);

#[verifier::external_type_specification]
#[verifier::external_body]
#[verifier::reject_recursive_types(T)]
pub struct ExMpscSender<T>(tokio::sync::mpsc::Sender<T>);

#[verifier::external_type_specification]
#[verifier::external_body]
#[verifier::reject_recursive_types(T)]
pub struct ExOneshotSender<T>(tokio::sync::oneshot::Sender<T>);

/// `tokio::sync::broadcast::channel`: the sending half of a new broadcast
/// channel of the given capacity (its first receiver is dropped). The crate
/// panics for a capacity of 0 or over `usize::MAX / 2`.
#[verifier::external_body]
fn broadcast_sender<T: Clone>(capacity: usize) -> tokio::sync::broadcast::Sender<T>
    requires
        0 < capacity <= usize::MAX / 2,
{
    tokio::sync::broadcast::channel(capacity).0
}

/// `tokio::sync::broadcast::Sender::subscribe`: a receiver of the values
/// sent from now on.
#[verifier::external_body]
fn broadcast_subscribe<T>(tx: &tokio::sync::broadcast::Sender<T>) -> tokio::sync::broadcast::Receiver<T> {
    tx.subscribe()
}

/// `tokio::sync::mpsc::channel`: the sending half of a new bounded channel
/// (its receiver is dropped). The crate panics for a buffer of 0, and for
/// one above `usize::MAX >> 3` (the most permits its semaphore holds).
#[verifier::external_body]
fn mpsc_sender<T>(buffer: usize) -> tokio::sync::mpsc::Sender<T>
    requires
        0 < buffer <= usize::MAX / 8,
{
    tokio::sync::mpsc::channel(buffer).0
}

/// A broadcast channel that events are published on, with the log of
/// every value handed to it.
#[verifier::reject_recursive_types(T)]
pub struct EventChannel<T> {
    tx: tokio::sync::broadcast::Sender<T>,
    sent: Ghost<Seq<T>>,
}

impl<T> EventChannel<T> {
    /// Every value handed to the channel, oldest first.
    pub closed spec fn sent(&self) -> Seq<T> {
        self.sent@
    }

    /// A new channel of the given capacity; nothing is sent yet.
    pub(crate) fn new(capacity: usize) -> (r: EventChannel<T>)
        where
            T: Clone,
        requires
            0 < capacity <= usize::MAX / 2,
        ensures
            r.sent() == Seq::<T>::empty(),
    {
        EventChannel { tx: broadcast_sender(capacity), sent: Ghost(Seq::empty()) }
    }

    /// `tokio::sync::broadcast::Sender::send`: hands the value to every
    /// current receiver (with none, it is dropped); the value is added to
    /// the log of values sent.
    #[verifier::external_body]
    pub(crate) fn send(&mut self, value: T)
        ensures
            final(self).sent() == old(self).sent().push(value),
    {
        let _ = self.tx.send(value);
    }

    /// A receiver of the values sent from now on.
    pub(crate) fn subscribe(&self) -> tokio::sync::broadcast::Receiver<T> {
        broadcast_subscribe(&self.tx)
    }
}

/// A bounded channel that values are offered on, with the log of every
/// value offered (whether or not it was queued).
#[verifier::reject_recursive_types(T)]
pub struct OfferChannel<T> {
    tx: tokio::sync::mpsc::Sender<T>,
    offered: Ghost<Seq<T>>,
}

impl<T> OfferChannel<T> {
    /// Every value offered to the channel, oldest first.
    pub closed spec fn offered(&self) -> Seq<T> {
        self.offered@
    }

    /// A new channel with room for `buffer` values; nothing is offered yet.
    pub(crate) fn new(buffer: usize) -> (r: OfferChannel<T>)
        requires
            0 < buffer <= usize::MAX / 8,
        ensures
            r.offered() == Seq::<T>::empty(),
    {
        OfferChannel { tx: mpsc_sender(buffer), offered: Ghost(Seq::empty()) }
    }

    /// `tokio::sync::mpsc::Sender::try_send`: offers the value, which is
    /// added to the log of values offered; gives whether it was queued (it
    /// is not when the channel is full or its receiver is gone).
    #[verifier::external_body]
    pub(crate) fn try_offer(&mut self, value: T) -> (r: bool)
        ensures
            final(self).offered() == old(self).offered().push(value),
    {
        self.tx.try_send(value).is_ok()
    }
}

} // verus!
