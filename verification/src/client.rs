//! The client's side of a chat: the name it enters under and what each line
//! that its user types leads to.
use vstd::prelude::*;
use vstd::string::*;

use crate::message::Message;
use crate::message::MessageView;

verus! {

/// The first line that ends the chat.
pub const QUIT: &'static str = "quit";

/// The second line that ends the chat.
pub const BYE: &'static str = "bye";

/// The third line that ends the chat.
pub const EXIT: &'static str = "exit";

/// The line that asks for a direct mail.
pub const DIRECT_MAIL: &'static str = "dm";

/// The sender and the text of the direct mail that a client sends.
pub const PROBE: &'static str = "test";

/// `s` without the white space at its two ends, as `str::trim` gives it.
pub uninterp spec fn trimmed(s: Seq<char>) -> Seq<char>;

/// `str::trim`: the slice without leading and trailing white space, in
/// Unicode's sense of white space.
#[verifier::external_body]
fn trim(s: &str) -> (t: &str)
    ensures
        t@ == trimmed(s@),
{
    s.trim()
}

/// The name that a client chats under: what its user entered, without the
/// white space around it.
pub fn display_name(entered: &str) -> (name: String)
    ensures
        name@ == trimmed(entered@),
{
    String::from_str(trim(entered))
}

/// The name to attach to the chat call as metadata: the client's name,
/// unless it is empty.
pub fn name_to_attach(name: &str) -> (attached: Option<String>)
    ensures
        match attached {
            Some(value) => name@.len() > 0 && value@ == name@,
            None => name@.len() == 0,
        },
{
    if name.is_empty() {
        None
    } else {
        Some(String::from_str(name))
    }
}

/// What a line of input leads to.
#[derive(Debug, PartialEq, Eq)]
pub enum LineAction {
    /// The chat ends.
    Quit,
    /// Nothing is sent for this line.
    Skip,
    /// The message is sent to the relay.
    Say(Message),
}

/// A line's action with its message as plain values.
pub enum LineActionView {
    Quit,
    Skip,
    Say(MessageView),
}

impl View for LineAction {
    type V = LineActionView;

    open spec fn view(&self) -> LineActionView {
        match *self {
            LineAction::Quit => LineActionView::Quit,
            LineAction::Skip => LineActionView::Skip,
            LineAction::Say(m) => LineActionView::Say(m@),
        }
    }
}

/// What the client named `name` does with a line: one of the three parting
/// words ends the chat, the request for a direct mail sends nothing, and
/// any other line is sent as a message under the client's name.
pub open spec fn line_action(name: Seq<char>, line: Seq<char>) -> LineActionView {
    if line == QUIT@ || line == BYE@ || line == EXIT@ {
        LineActionView::Quit
    } else if line == DIRECT_MAIL@ {
        LineActionView::Skip
    } else {
        LineActionView::Say(MessageView { sender: name, text: line })
    }
}

/// Decides what a line of input leads to.
pub fn interpret_line(name: &str, line: String) -> (action: LineAction)
    ensures
        action@ == line_action(name@, line@),
{
    if line == String::from_str(QUIT) || line == String::from_str(BYE) || line == String::from_str(
        EXIT,
    ) {
        LineAction::Quit
    } else if line == String::from_str(DIRECT_MAIL) {
        LineAction::Skip
    } else {
        LineAction::Say(Message::new(String::from_str(name), line))
    }
}

/// The direct mail that a client sends once its chat is set up.
pub fn probe_mail() -> (m: Message)
    ensures
        m@ == (MessageView { sender: PROBE@, text: PROBE@ }),
{
    Message::new(String::from_str(PROBE), String::from_str(PROBE))
}

} // verus!
