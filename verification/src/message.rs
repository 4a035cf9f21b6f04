//! What comes in from a chat and what goes back to it.

use vstd::prelude::*;

verus! {

/// How the chat platform is to read an outgoing text.
#[derive(Clone, Copy, Debug, PartialEq, Eq, Structural)]
pub enum Markup {
    /// As it stands.
    Plain,
    /// With the platform's emphasis and code-quoting marks.
    Markdown,
}

/// A message as the chat transport delivers it. A message may lack a text
/// (a photo, a sticker) or a sender (a channel post).
#[derive(Clone, Debug, PartialEq, Eq)]
pub struct Inbound {
    pub text: Option<String>,
    pub sender: Option<i64>,
    pub chat: i64,
}

/// An [`Inbound`] with its text as a sequence of characters.
pub struct InboundModel {
    pub text: Option<Seq<char>>,
    pub sender: Option<i64>,
    pub chat: i64,
}

impl View for Inbound {
    type V = InboundModel;

    open spec fn view(&self) -> InboundModel {
        InboundModel { text: text_view(self.text), sender: self.sender, chat: self.chat }
    }
}

/// One text to send to one chat.
#[derive(Clone, Debug, PartialEq, Eq)]
pub struct Outbound {
    pub chat: i64,
    pub text: String,
    pub markup: Markup,
}

/// An [`Outbound`] with its text as a sequence of characters.
pub struct OutboundModel {
    pub chat: i64,
    pub text: Seq<char>,
    pub markup: Markup,
}

impl View for Outbound {
    type V = OutboundModel;

    open spec fn view(&self) -> OutboundModel {
        OutboundModel { chat: self.chat, text: self.text@, markup: self.markup }
    }
}

/// The characters of an optional text.
pub open spec fn text_view(text: Option<String>) -> Option<Seq<char>> {
    match text {
        Some(t) => Some(t@),
        None => None,
    }
}

} // verus!
