//! The values that travel through the relay.
use vstd::prelude::*;
use vstd::string::*;

verus! {

/// The sender that a message gets when nothing names one.
pub const UNKNOWN_SENDER: &'static str = "unknown";

/// The words that open every reply.
pub const REPLY_PREFIX: &'static str = "Reply: ";

/// A message as a pair of character sequences.
pub struct MessageView {
    pub sender: Seq<char>,
    pub text: Seq<char>,
}

/// A chat message: who sent it and what it says.
///
/// A message is never changed once it is made; the hub hands each subscriber
/// a copy of its own.
#[derive(Debug, PartialEq, Eq)]
pub struct Message {
    sender: String,
    text: String,
}

impl View for Message {
    type V = MessageView;

    closed spec fn view(&self) -> MessageView {
        MessageView { sender: self.sender@, text: self.text@ }
    }
}

impl Clone for Message {
    /// A copy with the same sender and the same text.
    fn clone(&self) -> (copy: Message)
        ensures
            copy@ == self@,
    {
        Message { sender: self.sender.clone(), text: self.text.clone() }
    }
}

/// The message that a session with the given identity publishes for an
/// inbound item: the item's own sender where it names one, the session's
/// identity where it does not.
pub open spec fn attributed(item: MessageView, identity: Seq<char>) -> MessageView {
    if item.sender.len() == 0 {
        MessageView { sender: identity, text: item.text }
    } else {
        item
    }
}

impl Message {
    /// A message from `sender` that says `text`.
    pub fn new(sender: String, text: String) -> (m: Message)
        ensures
            m@ == (MessageView { sender: sender@, text: text@ }),
    {
        Message { sender, text }
    }

    /// Who sent the message; empty where the message names nobody.
    pub fn sender(&self) -> (s: &str)
        ensures
            s@ == self@.sender,
    {
        self.sender.as_str()
    }

    /// What the message says.
    pub fn text(&self) -> (s: &str)
        ensures
            s@ == self@.text,
    {
        self.text.as_str()
    }

    /// Takes the message apart into its sender and its text.
    pub fn into_parts(self) -> (parts: (String, String))
        ensures
            parts.0@ == self@.sender,
            parts.1@ == self@.text,
    {
        (self.sender, self.text)
    }

    /// The same message, signed with `identity` if it names no sender.
    pub fn attributed_to(self, identity: &str) -> (m: Message)
        ensures
            m@ == attributed(self@, identity@),
    {
        if self.sender.as_str().is_empty() {
            Message { sender: String::from_str(identity), text: self.text }
        } else {
            self
        }
    }
}

/// The text of the reply to a message that says `text`.
pub open spec fn reply_text(text: Seq<char>) -> Seq<char> {
    REPLY_PREFIX@ + text
}

/// What a subscriber's client is sent for one message.
#[derive(Debug, PartialEq, Eq)]
pub struct ChatReply {
    message: String,
}

impl View for ChatReply {
    type V = Seq<char>;

    closed spec fn view(&self) -> Seq<char> {
        self.message@
    }
}

impl Clone for ChatReply {
    /// A copy with the same text.
    fn clone(&self) -> (copy: ChatReply)
        ensures
            copy@ == self@,
    {
        ChatReply { message: self.message.clone() }
    }
}

impl ChatReply {
    /// The reply to `m`: its text behind the reply prefix. The sender is not
    /// part of the reply.
    pub fn to(m: &Message) -> (r: ChatReply)
        ensures
            r@ == reply_text(m@.text),
    {
        let message = String::from_str(REPLY_PREFIX).concat(m.text.as_str());
        ChatReply { message }
    }

    /// The reply's text.
    pub fn message(&self) -> (s: &str)
        ensures
            s@ == self@,
    {
        self.message.as_str()
    }

    /// Gives up the reply for its text.
    pub fn into_message(self) -> (s: String)
        ensures
            s@ == self@,
    {
        self.message
    }
}

} // verus!
