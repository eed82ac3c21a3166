//! The controller: the transition from a state and an event to the next
//! state and the work to schedule.

use vstd::prelude::*;
use crate::message::{Message, MessageView};
use crate::state::{PostmanClone, StateView};

verus! {

/// What the caller of [`update`] has to set in motion after a transition.
#[derive(Debug, Clone)]
pub enum Effect {
    /// Nothing to do.
    Nothing,
    /// Issue a GET request to `url` through `client`, read the whole body as
    /// text, and deliver the outcome as a completion message.
    Fetch { url: String, client: reqwest::Client },
}

/// The mathematical value of an [`Effect`].
pub enum EffectView {
    Nothing,
    Fetch { url: Seq<char> },
}

impl View for Effect {
    type V = EffectView;

    open spec fn view(&self) -> EffectView {
        match self {
            Effect::Nothing => EffectView::Nothing,
            Effect::Fetch { url, client } => EffectView::Fetch { url: url@ },
        }
    }
}

/// The state after message `m` is consumed in state `s`.
///
/// An edit replaces the URL, a completion of either kind replaces the
/// response, and a press of the send button changes nothing: no request in
/// flight is tracked.
pub open spec fn step(s: StateView, m: MessageView) -> StateView {
    match m {
        MessageView::UrlChanged(text) => StateView { url: text, response: s.response },
        MessageView::SendPressed => s,
        MessageView::ResponseReceived(body) => StateView { url: s.url, response: body },
        MessageView::ErrorReceived(text) => StateView { url: s.url, response: text },
    }
}

/// The work that message `m` schedules in state `s`: a press of the send
/// button fetches the URL as it stands at that moment, whatever it holds and
/// whatever is already in flight; no other message schedules anything.
pub open spec fn effect_of(s: StateView, m: MessageView) -> EffectView {
    match m {
        MessageView::SendPressed => EffectView::Fetch { url: s.url },
        _ => EffectView::Nothing,
    }
}

/// The state after the messages `ms` are consumed in order, starting in `s`.
pub open spec fn run(s: StateView, ms: Seq<MessageView>) -> StateView
    decreases ms.len(),
{
    if ms.len() == 0 {
        s
    } else {
        step(run(s, ms.drop_last()), ms.last())
    }
}

/// Consumes one message: changes the state as [`step`] says and returns the
/// effect that [`effect_of`] says. The client handle is never replaced.
pub fn update(state: &mut PostmanClone, message: Message) -> (effect: Effect)
    ensures
        final(state)@ == step(old(state)@, message@),
        final(state).client == old(state).client,
        effect@ == effect_of(old(state)@, message@),
{
    match message {
        Message::UrlChanged(new_url) => {
            state.url = new_url;
            Effect::Nothing
        },
        Message::SendPressed => {
            let url = state.url.clone();
            let client = state.client.clone();
            Effect::Fetch { url, client }
        },
        Message::ResponseReceived(body) => {
            state.response = body;
            Effect::Nothing
        },
        Message::ErrorReceived(error_message) => {
            state.response = error_message;
            Effect::Nothing
        },
    }
}

} // verus!
