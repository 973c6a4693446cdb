//! The hub: one broadcast channel that every session publishes into and
//! every session reads from.
//!
//! The channel itself is `tokio::sync::broadcast`. Its ring of pending
//! messages is shared by every task that holds a handle, so what a call
//! finds there depends on what other tasks did in the meantime. The
//! contracts below therefore state only what holds of every outcome.
use tokio::sync::broadcast::Receiver;
use tokio::sync::broadcast::Sender;
use vstd::prelude::*;

use crate::message::Message;
use crate::message::MessageView;

verus! {

/// The sending half of tokio's broadcast channel.
#[verifier::external_type_specification]
#[verifier::external_body]
#[verifier::reject_recursive_types(T)]
pub struct ExSender<T>(Sender<T>);

/// The receiving half of tokio's broadcast channel.
#[verifier::external_type_specification]
#[verifier::external_body]
#[verifier::reject_recursive_types(T)]
pub struct ExReceiver<T>(Receiver<T>);

/// The capacity of the hub that a relay is started with.
pub const DEFAULT_CAPACITY: usize = 100;

/// The largest capacity that a hub can be made with.
pub const MAX_CAPACITY: usize = usize::MAX / 2;

/// The hub is shut down: no subscription is left that could take a message.
#[derive(Clone, Copy, Debug, PartialEq, Eq, Structural)]
pub struct HubClosed;

/// What a subscription yields when it is asked for its next message.
#[derive(Debug, PartialEq, Eq)]
pub enum Delivery {
    /// The next message, in the order in which the hub accepted it.
    Message(Message),
    /// The subscriber fell behind and this many messages, one at least, were
    /// dropped for it. The next read resumes at the oldest message that the
    /// hub still holds.
    Lagged(u64),
    /// The hub is shut down and nothing is left to read.
    Closed,
}

/// A delivery with its message as plain values.
pub enum DeliveryView {
    Message(MessageView),
    Lagged(u64),
    Closed,
}

impl View for Delivery {
    type V = DeliveryView;

    open spec fn view(&self) -> DeliveryView {
        match *self {
            Delivery::Message(m) => DeliveryView::Message(m@),
            Delivery::Lagged(n) => DeliveryView::Lagged(n),
            Delivery::Closed => DeliveryView::Closed,
        }
    }
}

/// `tokio::sync::broadcast::channel`: a new channel and its first receiver.
/// The call panics on a capacity of zero or of more than `usize::MAX / 2`,
/// which `requires` leaves out. Nothing is claimed of the two handles.
#[verifier::external_body]
fn channel_open(capacity: usize) -> (ends: (Sender<Message>, Receiver<Message>))
    requires
        1 <= capacity <= MAX_CAPACITY,
{
    tokio::sync::broadcast::channel(capacity)
}

/// `Sender::send`: queues the message for every receiver that is alive. With
/// at least one receiver the call returns their number; with none it hands
/// the message back.
#[verifier::external_body]
fn channel_send(tx: &Sender<Message>, m: Message) -> (sent: Result<usize, Message>)
    ensures
        match sent {
            Ok(n) => n >= 1,
            Err(back) => back == m,
        },
{
    tx.send(m).map_err(|e| e.0)
}

/// `Sender::subscribe`: a new receiver that starts behind the last message
/// sent so far. Nothing is claimed of it. The call panics only when the
/// channel already has `usize::MAX / 4` receivers, more than an address space
/// holds.
#[verifier::external_body]
fn channel_subscribe(tx: &Sender<Message>) -> (rx: Receiver<Message>) {
    tx.subscribe()
}

/// `Receiver::try_recv`: the receiver's next message if one is pending,
/// without waiting. A lag is reported only when at least one message was
/// missed.
#[verifier::external_body]
fn channel_try_recv(rx: &mut Receiver<Message>) -> (got: Option<Delivery>)
    ensures
        got matches Some(Delivery::Lagged(n)) ==> n >= 1,
{
    match rx.try_recv() {
        Ok(m) => Some(Delivery::Message(m)),
        Err(tokio::sync::broadcast::error::TryRecvError::Lagged(n)) => Some(Delivery::Lagged(n)),
        Err(tokio::sync::broadcast::error::TryRecvError::Closed) => Some(Delivery::Closed),
        Err(tokio::sync::broadcast::error::TryRecvError::Empty) => None,
    }
}

/// What publishing returns for each outcome of the channel's send: the
/// number of open subscriptions where the message was queued, `HubClosed`
/// where the channel handed it back.
pub open spec fn publish_outcome(sent: Result<usize, Message>) -> Result<usize, HubClosed> {
    match sent {
        Ok(n) => Ok(n),
        Err(_) => Err(HubClosed),
    }
}

/// Turns the outcome of the channel's send into the outcome of a publish.
pub fn settle_publish(sent: Result<usize, Message>) -> (r: Result<usize, HubClosed>)
    ensures
        r == publish_outcome(sent),
{
    match sent {
        Ok(n) => Ok(n),
        Err(_) => Err(HubClosed),
    }
}

/// The relay's broadcast channel.
///
/// A hub is made once and lives as long as the relay. It holds one
/// subscription of its own that it never reads, so that a message published
/// while no client listens is accepted, and later overwritten in the ring,
/// instead of being refused.
pub struct Hub {
    tx: Sender<Message>,
    keep: Receiver<Message>,
    capacity: usize,
}

impl Hub {
    /// The capacity that the hub was made with.
    pub closed spec fn spec_capacity(&self) -> usize {
        self.capacity
    }

    /// A hub whose ring holds at least `capacity` messages.
    pub fn new(capacity: usize) -> (hub: Hub)
        requires
            1 <= capacity <= MAX_CAPACITY,
        ensures
            hub.spec_capacity() == capacity,
    {
        let (tx, keep) = channel_open(capacity);
        Hub { tx, keep, capacity }
    }

    /// The capacity that the hub was made with.
    #[verifier::when_used_as_spec(spec_capacity)]
    pub fn capacity(&self) -> (c: usize)
        ensures
            c == self.spec_capacity(),
    {
        self.capacity
    }

    /// Queues `m` for every open subscription and returns at once, however
    /// far behind a subscriber is. On success the result is the number of
    /// subscriptions that were open, the hub's own among them.
    pub fn publish(&self, m: Message) -> (r: Result<usize, HubClosed>)
        ensures
            r matches Ok(n) ==> n >= 1,
    {
        settle_publish(channel_send(&self.tx, m))
    }

    /// A new subscription. It yields the messages published after this
    /// call, none of those published before.
    pub fn subscribe(&self) -> (sub: Subscription) {
        Subscription { rx: channel_subscribe(&self.tx) }
    }
}

/// One subscriber's place in the hub's stream of messages.
pub struct Subscription {
    rx: Receiver<Message>,
}

impl Subscription {
    /// The next delivery if one is pending, `None` if the subscriber has
    /// read everything published so far. Never waits.
    pub fn try_recv(&mut self) -> (got: Option<Delivery>)
        ensures
            got matches Some(Delivery::Lagged(n)) ==> n >= 1,
    {
        channel_try_recv(&mut self.rx)
    }

    /// Gives up the subscription for the channel's receiver, for a task
    /// that waits on it.
    pub fn into_receiver(self) -> (rx: Receiver<Message>)
        ensures
            rx == self.receiver(),
    {
        self.rx
    }

    /// The channel's receiver that the subscription reads through. It
    /// holds the subscriber's place, so whoever takes it over reads on
    /// where the subscription stopped.
    pub closed spec fn receiver(&self) -> Receiver<Message> {
        self.rx
    }
}

} // verus!
