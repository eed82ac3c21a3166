//! The events that the controller consumes.

use vstd::prelude::*;

verus! {

/// A discrete notification of something that happened: user input or the
/// completion of a request. Each one is consumed exactly once.
#[derive(Debug, Clone, PartialEq, Eq)]
pub enum Message {
    /// The URL field now holds this text.
    UrlChanged(String),
    /// The send button was activated.
    SendPressed,
    /// A request succeeded with this body.
    ResponseReceived(String),
    /// A request failed; this is the text to show.
    ErrorReceived(String),
}

/// The mathematical value of a [`Message`].
pub enum MessageView {
    UrlChanged(Seq<char>),
    SendPressed,
    ResponseReceived(Seq<char>),
    ErrorReceived(Seq<char>),
}

impl View for Message {
    type V = MessageView;

    open spec fn view(&self) -> MessageView {
        match self {
            Message::UrlChanged(text) => MessageView::UrlChanged(text@),
            Message::SendPressed => MessageView::SendPressed,
            Message::ResponseReceived(body) => MessageView::ResponseReceived(body@),
            Message::ErrorReceived(text) => MessageView::ErrorReceived(text@),
        }
    }
}

impl MessageView {
    /// Whether the message reports the end of a request, successful or not.
    pub open spec fn is_completion(self) -> bool {
        self is ResponseReceived || self is ErrorReceived
    }

    /// The text that a completion carries; empty for the other messages.
    pub open spec fn completion_text(self) -> Seq<char> {
        match self {
            MessageView::ResponseReceived(body) => body,
            MessageView::ErrorReceived(text) => text,
            _ => Seq::empty(),
        }
    }
}

} // verus!
