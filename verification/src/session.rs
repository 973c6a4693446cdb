//! One client's connection: who the client is, what its inbound stream
//! feeds into the hub, and what the hub's deliveries become on its outbound
//! stream.
//!
//! Reading the inbound stream and waiting on the subscription are the
//! caller's part. The functions here decide, for each thing that the caller
//! read, what is to be done with it.
use tonic::metadata::MetadataMap;
use vstd::prelude::*;
use vstd::string::*;

use crate::hub::Delivery;
use crate::hub::DeliveryView;
use crate::hub::Hub;
use crate::hub::HubClosed;
use crate::hub::Subscription;
use crate::message::attributed;
use crate::message::reply_text;
use crate::message::ChatReply;
use crate::message::Message;
use crate::message::MessageView;
use crate::message::UNKNOWN_SENDER;

verus! {

/// The metadata that tonic attaches to a call.
#[verifier::external_type_specification]
#[verifier::external_body]
pub struct ExMetadataMap(MetadataMap);

/// The metadata key under which a client gives its display name.
pub const NAME_KEY: &'static str = "name";

/// What a lookup finds in a call's metadata, key by key: nothing where the
/// key is absent, `None` where its first value is not printable text, and
/// that text otherwise.
pub uninterp spec fn metadata_texts(md: MetadataMap) -> Map<Seq<char>, Option<Seq<char>>>;

/// A lookup's result as it stands in `metadata_texts`.
pub open spec fn found_text(found: Option<Option<String>>) -> Option<Option<Seq<char>>> {
    match found {
        None => None,
        Some(None) => Some(None),
        Some(Some(text)) => Some(Some(text@)),
    }
}

/// `MetadataMap::get` with a text key, and `MetadataValue::to_str` on the
/// value found: the first value stored under `key`, read as text. The value
/// is read where it is found, because its type is bounded by a trait that
/// tonic keeps private. Both calls are pure lookups, so the result is the
/// map's entry for the key; nothing else is claimed of it.
#[verifier::external_body]
fn metadata_text(md: &MetadataMap, key: &str) -> (found: Option<Option<String>>)
    ensures
        found_text(found) == metadata_texts(*md).get(key@),
{
    match md.get(key) {
        None => None,
        Some(value) => match value.to_str() {
            Ok(text) => Some(Some(text.to_owned())),
            Err(_) => Some(None),
        },
    }
}

/// The identity of a session for what its metadata holds under the name
/// key: the name where there is one that reads as text, the unknown sender
/// where the key is absent or its value is not text.
pub open spec fn identity_for(found: Option<Option<Seq<char>>>) -> Seq<char> {
    match found {
        Some(Some(name)) => name,
        _ => UNKNOWN_SENDER@,
    }
}

/// The identity for the outcome of looking up the name key.
pub fn resolve_identity(found: Option<Option<String>>) -> (identity: String)
    ensures
        identity@ == identity_for(found_text(found)),
{
    match found {
        Some(Some(name)) => name,
        _ => String::from_str(UNKNOWN_SENDER),
    }
}

/// The identity that a call's metadata gives its session.
pub fn identity_of(md: &MetadataMap) -> (identity: String)
    ensures
        identity@ == identity_for(metadata_texts(*md).get(NAME_KEY@)),
{
    resolve_identity(metadata_text(md, NAME_KEY))
}

/// What a client's inbound stream yielded when it was last read.
#[derive(Debug, PartialEq, Eq)]
pub enum Inbound {
    /// An item. Its sender is empty where the client named none.
    Item(Message),
    /// The transport reported an error.
    Failed,
    /// The client closed the stream.
    Finished,
}

/// An inbound event with its message as plain values.
pub enum InboundView {
    Item(MessageView),
    Failed,
    Finished,
}

impl View for Inbound {
    type V = InboundView;

    open spec fn view(&self) -> InboundView {
        match *self {
            Inbound::Item(m) => InboundView::Item(m@),
            Inbound::Failed => InboundView::Failed,
            Inbound::Finished => InboundView::Finished,
        }
    }
}

/// Why one of a session's two tasks came to its end.
#[derive(Clone, Copy, Debug, PartialEq, Eq, Structural)]
pub enum EndReason {
    /// The inbound stream failed.
    StreamRead,
    /// The inbound stream was closed by the client.
    StreamClosed,
    /// The hub is shut down.
    HubClosed,
}

/// What the ingestion task of a session with the given identity does with
/// an inbound event: it publishes an item, signed with the identity where
/// the item names no sender, and ends on an error or on the stream's end.
pub open spec fn ingest_action(identity: Seq<char>, inbound: InboundView) -> Result<
    MessageView,
    EndReason,
> {
    match inbound {
        InboundView::Item(m) => Ok(attributed(m, identity)),
        InboundView::Failed => Err(EndReason::StreamRead),
        InboundView::Finished => Err(EndReason::StreamClosed),
    }
}

/// The message to publish for an inbound event, or the reason to stop.
pub fn to_publish(identity: &str, inbound: Inbound) -> (action: Result<Message, EndReason>)
    ensures
        match action {
            Ok(m) => ingest_action(identity@, inbound@) == Ok::<MessageView, EndReason>(m@),
            Err(reason) => ingest_action(identity@, inbound@) == Err::<MessageView, EndReason>(
                reason,
            ),
        },
{
    match inbound {
        Inbound::Item(m) => Ok(m.attributed_to(identity)),
        Inbound::Failed => Err(EndReason::StreamRead),
        Inbound::Finished => Err(EndReason::StreamClosed),
    }
}

/// How the ingestion task goes on after a publish: it continues where the
/// hub took the message and ends, for good, where the hub is shut down.
pub open spec fn publish_step(published: Result<usize, HubClosed>) -> Result<usize, EndReason> {
    match published {
        Ok(n) => Ok(n),
        Err(_) => Err(EndReason::HubClosed),
    }
}

/// The ingestion task's step for the outcome of a publish.
pub fn after_publish(published: Result<usize, HubClosed>) -> (step: Result<usize, EndReason>)
    ensures
        step == publish_step(published),
{
    match published {
        Ok(n) => Ok(n),
        Err(_) => Err(EndReason::HubClosed),
    }
}

/// One step of a session's ingestion task: publishes what the inbound
/// stream yielded, if it yielded an item. `Ok` means that the task goes on
/// reading, `Err` that it has ended and why.
///
/// An error or the end of the stream ends the task with that reason and
/// nothing is published. For an item the hub decides: the step is `Ok` with
/// the number of open subscriptions, or the task ends because the hub is
/// shut down.
pub fn ingest(hub: &Hub, identity: &str, inbound: Inbound) -> (step: Result<usize, EndReason>)
    ensures
        match ingest_action(identity@, inbound@) {
            Ok(_) => step is Ok || step == Err::<usize, EndReason>(EndReason::HubClosed),
            Err(reason) => step == Err::<usize, EndReason>(reason),
        },
        step matches Ok(n) ==> n >= 1,
{
    match to_publish(identity, inbound) {
        Ok(m) => after_publish(hub.publish(m)),
        Err(reason) => Err(reason),
    }
}

/// What the fan-out task does for one delivery.
#[derive(Debug, PartialEq, Eq)]
pub enum FanOutAction {
    /// Write this reply to the client and read on.
    Emit(ChatReply),
    /// Write nothing and read on: this many messages were lost to the
    /// subscriber, who is not told.
    Skip(u64),
    /// End the outbound stream.
    End,
}

/// A fan-out action with its reply as plain text.
pub enum FanOutActionView {
    Emit(Seq<char>),
    Skip(u64),
    End,
}

impl View for FanOutAction {
    type V = FanOutActionView;

    open spec fn view(&self) -> FanOutActionView {
        match *self {
            FanOutAction::Emit(reply) => FanOutActionView::Emit(reply@),
            FanOutAction::Skip(n) => FanOutActionView::Skip(n),
            FanOutAction::End => FanOutActionView::End,
        }
    }
}

/// The fan-out task's action for a delivery: a message becomes its reply,
/// whoever sent it; a lag is passed over; a closed hub ends the stream.
pub open spec fn fan_out_action(delivery: DeliveryView) -> FanOutActionView {
    match delivery {
        DeliveryView::Message(m) => FanOutActionView::Emit(reply_text(m.text)),
        DeliveryView::Lagged(n) => FanOutActionView::Skip(n),
        DeliveryView::Closed => FanOutActionView::End,
    }
}

/// One step of a session's fan-out task: what to do with a delivery.
pub fn fan_out(delivery: Delivery) -> (action: FanOutAction)
    ensures
        action@ == fan_out_action(delivery@),
{
    match delivery {
        Delivery::Message(m) => FanOutAction::Emit(ChatReply::to(&m)),
        Delivery::Lagged(n) => FanOutAction::Skip(n),
        Delivery::Closed => FanOutAction::End,
    }
}

/// What a fan-out task writes to its client over a run of deliveries, when
/// it takes the action of `fan_out_action` for each in turn: the replies that
/// the actions emit, up to the first action that ends the stream.
pub open spec fn outbound(run: Seq<DeliveryView>) -> Seq<Seq<char>>
    decreases run.len(),
{
    if run.len() == 0 {
        Seq::empty()
    } else {
        match fan_out_action(run[0]) {
            FanOutActionView::Emit(reply) => seq![reply] + outbound(run.drop_first()),
            FanOutActionView::Skip(_) => outbound(run.drop_first()),
            FanOutActionView::End => Seq::empty(),
        }
    }
}

/// The deliveries of a run of messages, one delivery for each.
pub open spec fn delivered(messages: Seq<MessageView>) -> Seq<DeliveryView> {
    messages.map_values(|m: MessageView| DeliveryView::Message(m))
}

/// The replies to a run of messages, one reply for each.
pub open spec fn replies(messages: Seq<MessageView>) -> Seq<Seq<char>> {
    messages.map_values(|m: MessageView| reply_text(m.text))
}

/// A fan-out task that is delivered a run of messages writes the reply to
/// each of them, all of them and in the order of delivery.
pub proof fn lemma_every_delivered_message_is_replied_in_order(messages: Seq<MessageView>)
    ensures
        outbound(delivered(messages)) == replies(messages),
    decreases messages.len(),
{
    if messages.len() > 0 {
        let rest = messages.drop_first();
        lemma_every_delivered_message_is_replied_in_order(rest);
        assert(delivered(messages).drop_first() =~= delivered(rest));
        assert(replies(messages) =~= seq![reply_text(messages[0].text)] + replies(rest));
    } else {
        assert(replies(messages) =~= Seq::<Seq<char>>::empty());
    }
}

/// What comes before the first end of the stream is written whatever comes
/// after it: the outbound stream of two runs on end begins with that of the
/// first, and is the two streams on end if the first run does not end the
/// stream.
pub proof fn lemma_outbound_of_runs_on_end(before: Seq<DeliveryView>, after: Seq<DeliveryView>)
    ensures
        before.contains(DeliveryView::Closed) ==> outbound(before + after) == outbound(before),
        !before.contains(DeliveryView::Closed) ==> outbound(before + after) == outbound(before)
            + outbound(after),
    decreases before.len(),
{
    if before.len() == 0 {
        assert(before + after =~= after);
        assert(outbound(before) + outbound(after) =~= outbound(after));
    } else {
        let rest = before.drop_first();
        lemma_outbound_of_runs_on_end(rest, after);
        assert((before + after).drop_first() =~= rest + after);
        assert((before + after)[0] == before[0]);
        assert(before =~= seq![before[0]] + rest);
        if before[0] == DeliveryView::Closed {
            assert(before.contains(DeliveryView::Closed));
        } else {
            assert(before.contains(DeliveryView::Closed) <==> rest.contains(DeliveryView::Closed))
                by {
                if before.contains(DeliveryView::Closed) {
                    let i = choose|i: int| 0 <= i < before.len() && before[i] == DeliveryView::Closed;
                    assert(rest[i - 1] == DeliveryView::Closed);
                }
                if rest.contains(DeliveryView::Closed) {
                    let i = choose|i: int| 0 <= i < rest.len() && rest[i] == DeliveryView::Closed;
                    assert(before[i + 1] == DeliveryView::Closed);
                }
            }
            match fan_out_action(before[0]) {
                FanOutActionView::Emit(reply) => {
                    assert(outbound(before) + outbound(after) =~= seq![reply] + (outbound(rest)
                        + outbound(after)));
                },
                _ => {},
            }
        }
    }
}

/// A lag is silent: a subscriber that fell behind is written nothing for
/// it, and its outbound stream goes on with what is delivered next.
pub proof fn lemma_lag_is_passed_over(
    before: Seq<DeliveryView>,
    missed: u64,
    after: Seq<DeliveryView>,
)
    ensures
        outbound(before + seq![DeliveryView::Lagged(missed)] + after) == outbound(before + after),
        fan_out_action(DeliveryView::Lagged(missed)) == FanOutActionView::Skip(missed),
{
    let lag = seq![DeliveryView::Lagged(missed)];
    assert(before + lag + after =~= before + (lag + after));
    assert((lag + after).drop_first() =~= after);
    assert(outbound(lag + after) == outbound(after));
    lemma_outbound_of_runs_on_end(before, lag + after);
    lemma_outbound_of_runs_on_end(before, after);
}

/// What a session publishes comes back to it: the fan-out action for a
/// message that the session's own ingestion published is the reply to that
/// message. No delivery is held back on account of its sender.
pub proof fn lemma_own_message_is_echoed(identity: Seq<char>, item: MessageView)
    ensures
        ingest_action(identity, InboundView::Item(item)) matches Ok(m) && fan_out_action(
            DeliveryView::Message(m),
        ) == FanOutActionView::Emit(reply_text(item.text)),
{
}

/// A client's session: its identity and its subscription to the hub.
///
/// Sessions share nothing but the hub. The identity goes to the ingestion
/// task, the subscription to the fan-out task; either task can end without
/// the other.
pub struct Session {
    identity: String,
    subscription: Subscription,
}

impl Session {
    /// The session's identity.
    pub closed spec fn spec_identity(&self) -> Seq<char> {
        self.identity@
    }

    /// Opens a session for a call with the given metadata: takes the
    /// identity from the metadata and subscribes to the hub.
    pub fn open(hub: &Hub, md: &MetadataMap) -> (session: Session)
        ensures
            session.spec_identity() == identity_for(metadata_texts(*md).get(NAME_KEY@)),
    {
        Session { identity: identity_of(md), subscription: hub.subscribe() }
    }

    /// Opens a session under a given identity.
    pub fn named(hub: &Hub, identity: String) -> (session: Session)
        ensures
            session.spec_identity() == identity@,
    {
        Session { identity, subscription: hub.subscribe() }
    }

    /// The session's identity.
    pub fn identity(&self) -> (identity: &str)
        ensures
            identity@ == self.spec_identity(),
    {
        self.identity.as_str()
    }

    /// The session's next fan-out action if a delivery is pending, `None`
    /// if its subscription has nothing to read yet. Never waits.
    pub fn poll(&mut self) -> (action: Option<FanOutAction>)
        ensures
            final(self).spec_identity() == old(self).spec_identity(),
            action matches Some(FanOutAction::Skip(n)) ==> n >= 1,
    {
        match self.subscription.try_recv() {
            Some(delivery) => Some(fan_out(delivery)),
            None => None,
        }
    }

    /// Parts the session into what its two tasks need: the identity for
    /// ingestion, the subscription for fan-out.
    pub fn into_parts(self) -> (parts: (String, Subscription))
        ensures
            parts.0@ == self.spec_identity(),
    {
        (self.identity, self.subscription)
    }
}

} // verus!
