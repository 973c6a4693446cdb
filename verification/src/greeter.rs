//! The relay's service: a greeting, the chat sessions and the direct-mail
//! gateway, all on one hub.
use tonic::metadata::MetadataMap;
use vstd::prelude::*;
use vstd::string::*;

use crate::hub::Hub;
use crate::hub::HubClosed;
use crate::hub::DEFAULT_CAPACITY;
use crate::message::Message;
use crate::message::MessageView;
use crate::session::identity_for;
use crate::session::ingest_action;
use crate::session::metadata_texts;
use crate::session::EndReason;
use crate::session::InboundView;
use crate::session::Session;
use crate::session::NAME_KEY;

verus! {

/// What a greeting says before the name.
pub const GREETING_OPENING: &'static str = "Hello ";

/// What a greeting says after the name.
pub const GREETING_CLOSING: &'static str = "!";

/// The acknowledgment of a direct mail.
pub const DIRECT_MAIL_ACK: &'static str = "Hello";

/// The greeting for `name`.
pub open spec fn greeting(name: Seq<char>) -> Seq<char> {
    GREETING_OPENING@ + name + GREETING_CLOSING@
}

/// The message that a direct mail from `sender` with `text` puts into the
/// hub.
pub open spec fn direct_mail_message(sender: Seq<char>, text: Seq<char>) -> MessageView {
    MessageView { sender, text }
}

/// Makes the message of a direct mail.
pub fn mail(sender: String, text: String) -> (m: Message)
    ensures
        m@ == direct_mail_message(sender@, text@),
{
    Message::new(sender, text)
}

/// The answer to a direct mail for each outcome of publishing it: the
/// acknowledgment where the hub took the message, the hub's failure where it
/// is shut down.
pub open spec fn direct_mail_answer(published: Result<usize, HubClosed>) -> Result<
    Seq<char>,
    HubClosed,
> {
    match published {
        Ok(_) => Ok(DIRECT_MAIL_ACK@),
        Err(closed) => Err(closed),
    }
}

/// Answers a direct mail whose publish had the given outcome.
pub fn acknowledge(published: Result<usize, HubClosed>) -> (answer: Result<String, HubClosed>)
    ensures
        match answer {
            Ok(ack) => direct_mail_answer(published) == Ok::<Seq<char>, HubClosed>(ack@),
            Err(closed) => direct_mail_answer(published) == Err::<Seq<char>, HubClosed>(closed),
        },
{
    match published {
        Ok(_) => Ok(String::from_str(DIRECT_MAIL_ACK)),
        Err(closed) => Err(closed),
    }
}

/// The relay's service. It owns the hub that all its sessions share.
pub struct MyGreeter {
    hub: Hub,
}

impl MyGreeter {
    /// The service's hub.
    pub closed spec fn spec_hub(&self) -> Hub {
        self.hub
    }

    /// A service with a hub of the default capacity.
    pub fn new() -> (greeter: MyGreeter)
        ensures
            greeter.spec_hub().spec_capacity() == DEFAULT_CAPACITY,
    {
        MyGreeter { hub: Hub::new(DEFAULT_CAPACITY) }
    }

    /// The service's hub.
    pub fn hub(&self) -> (hub: &Hub)
        ensures
            *hub == self.spec_hub(),
    {
        &self.hub
    }

    /// Greets `name`.
    pub fn say_hello(&self, name: &str) -> (reply: String)
        ensures
            reply@ == greeting(name@),
    {
        String::from_str(GREETING_OPENING).concat(name).concat(GREETING_CLOSING)
    }

    /// Opens the session of a chat call with the given metadata.
    pub fn chat(&self, md: &MetadataMap) -> (session: Session)
        ensures
            session.spec_identity() == identity_for(metadata_texts(*md).get(NAME_KEY@)),
    {
        Session::open(&self.hub, md)
    }

    /// Publishes one message from `sender` that says `text`, as a session's
    /// ingestion would, and acknowledges it. The call fails only where the
    /// hub does not take the message.
    pub fn direct_mail(&self, sender: String, text: String) -> (answer: Result<String, HubClosed>)
        ensures
            answer matches Ok(ack) ==> ack@ == DIRECT_MAIL_ACK@,
    {
        acknowledge(self.hub.publish(mail(sender, text)))
    }
}

/// A direct mail puts into the hub the message that a session's ingestion
/// publishes for an inbound item with the same sender and text, whatever
/// the session's identity. The item has to name its sender: an item that
/// names none is published under the session's identity.
pub proof fn lemma_direct_mail_is_published_as_ingested(
    sender: Seq<char>,
    text: Seq<char>,
    identity: Seq<char>,
)
    requires
        sender.len() > 0,
    ensures
        ingest_action(identity, InboundView::Item(MessageView { sender, text })) == Ok::<
            MessageView,
            EndReason,
        >(direct_mail_message(sender, text)),
{
}

} // verus!
