//! The bounded broadcast channel through which every event fans out.
//!
//! Publishing never waits and never fails for want of subscribers; a
//! subscriber that falls more than the capacity behind misses the oldest
//! messages and is told how many it lost.
use vstd::prelude::*;
use tokio::sync::broadcast::error::SendError;
use tokio::sync::broadcast::{Receiver, Sender};

verus! {

#[verifier::external_type_specification]
#[verifier::external_body]
#[verifier::reject_recursive_types(T)]
pub struct ExSender<T>(Sender<T>);

#[verifier::external_type_specification]
#[verifier::external_body]
#[verifier::reject_recursive_types(T)]
pub struct ExReceiver<T>(Receiver<T>);

#[verifier::external_type_specification]
#[verifier::external_body]
#[verifier::reject_recursive_types(T)]
pub struct ExSendError<T>(SendError<T>);

/// Relies on `Clone` for `broadcast::Sender`: another handle to the same
/// channel.
pub assume_specification<T>[ <Sender<T> as Clone>::clone ](s: &Sender<T>) -> Sender<T>;

/// Relies on `broadcast::Sender::new`, which panics on a capacity of zero or
/// above `usize::MAX / 2`.
#[verifier::external_body]
fn new_sender<T>(capacity: usize) -> (r: Sender<T>)
    requires
        0 < capacity,
        capacity as int <= usize::MAX / 2,
{
    Sender::new(capacity)
}

/// Relies on `broadcast::Sender::subscribe`: a receiver of the values sent
/// from now on.
#[verifier::external_body]
fn new_receiver<T>(sender: &Sender<T>) -> Receiver<T> {
    sender.subscribe()
}

/// Relies on `broadcast::Sender::receiver_count`.
#[verifier::external_body]
fn count_receivers<T>(sender: &Sender<T>) -> usize {
    sender.receiver_count()
}

/// What became of a published message.
#[derive(Clone, Copy, Debug, PartialEq, Eq, Structural)]
pub enum PublishOutcome {
    /// This many subscribers will see the message.
    Delivered(usize),
    /// Nobody was subscribed; the message was dropped. This is the idle state,
    /// not a failure.
    NoSubscribers,
}

/// The count of recipients that an outcome reports.
pub open spec fn recipients(o: PublishOutcome) -> nat {
    match o {
        PublishOutcome::Delivered(n) => n as nat,
        PublishOutcome::NoSubscribers => 0,
    }
}

/// The producer side of the channel; cloning it shares the channel.
///
/// Each handle keeps, as a model, the messages that were published through
/// it, in order.
#[verifier::reject_recursive_types(T)]
pub struct EventChannel<T> {
    sender: Sender<T>,
    log: Ghost<Seq<T>>,
    bound: Ghost<nat>,
}

/// One subscriber's cursor into the channel.
#[verifier::reject_recursive_types(T)]
pub struct Subscription<T> {
    pub receiver: Receiver<T>,
    from: Ghost<nat>,
}

impl<T> Subscription<T> {
    /// How many messages the publishing handle had sent when this
    /// subscription opened: it sees only those after them.
    pub closed spec fn starts_after(&self) -> nat {
        self.from@
    }
}

/// Relies on `broadcast::Sender::send`, handed exactly `value`: it fails only
/// when no receiver is attached, and otherwise reports how many receivers will
/// see the value. The handle's log of published messages gains `value`.
#[verifier::external_body]
fn send_value<T>(channel: &mut EventChannel<T>, value: T) -> (r: Result<usize, SendError<T>>)
    ensures
        final(channel).published() == old(channel).published().push(value),
        final(channel).capacity() == old(channel).capacity(),
        r is Ok ==> r->Ok_0 >= 1,
{
    channel.sender.send(value)
}

impl<T> EventChannel<T> {
    /// The messages published through this handle, oldest first.
    pub closed spec fn published(&self) -> Seq<T> {
        self.log@
    }

    /// The most unread messages the channel was asked to keep per subscriber.
    pub closed spec fn capacity(&self) -> nat {
        self.bound@
    }

    /// A channel that keeps at most `capacity` unread messages per subscriber
    /// (rounded up to a power of two).
    pub fn new(capacity: usize) -> (r: Self)
        requires
            0 < capacity,
            capacity as int <= usize::MAX / 2,
        ensures
            r.published() == Seq::<T>::empty(),
            r.capacity() == capacity,
    {
        EventChannel {
            sender: new_sender(capacity),
            log: Ghost(Seq::empty()),
            bound: Ghost(capacity as nat),
        }
    }

    /// Hands `message` to every current subscriber without waiting. Having no
    /// subscriber is not an error.
    pub fn publish(&mut self, message: T) -> (r: PublishOutcome)
        ensures
            final(self).published() == old(self).published().push(message),
            final(self).capacity() == old(self).capacity(),
            r is Delivered ==> recipients(r) >= 1,
    {
        match send_value(self, message) {
            Ok(n) => PublishOutcome::Delivered(n),
            Err(_) => PublishOutcome::NoSubscribers,
        }
    }

    /// A new subscription that sees only what is published after this call.
    pub fn subscribe(&self) -> (r: Subscription<T>)
        ensures
            r.starts_after() == self.published().len(),
    {
        Subscription { receiver: new_receiver(&self.sender), from: Ghost(self.log@.len()) }
    }

    /// How many subscriptions are open.
    pub fn receiver_count(&self) -> usize {
        count_receivers(&self.sender)
    }
}

impl<T> Clone for EventChannel<T> {
    /// Another handle to the same channel, with an empty log of its own.
    fn clone(&self) -> (r: Self)
        ensures
            r.published() == Seq::<T>::empty(),
            r.capacity() == self.capacity(),
    {
        EventChannel { sender: self.sender.clone(), log: Ghost(Seq::empty()), bound: self.bound }
    }
}

} // verus!
