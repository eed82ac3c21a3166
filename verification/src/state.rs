//! The application state and its mathematical model.

use vstd::prelude::*;

verus! {

/// Everything the tool remembers between events.
pub struct PostmanClone {
    /// The current content of the URL field.
    pub url: String,
    /// The body or error text of the request that completed last.
    pub response: String,
    /// The handle through which requests are issued; set once, never changed.
    pub client: reqwest::Client,
}

/// The part of the state that the window shows and the controller decides on.
pub struct StateView {
    pub url: Seq<char>,
    pub response: Seq<char>,
}

impl StateView {
    /// The state at start-up: both texts empty.
    pub open spec fn initial() -> StateView {
        StateView { url: Seq::empty(), response: Seq::empty() }
    }
}

impl View for PostmanClone {
    type V = StateView;

    open spec fn view(&self) -> StateView {
        StateView { url: self.url@, response: self.response@ }
    }
}

impl PostmanClone {
    /// The start-up state around a client handle that the caller has made.
    pub fn new(client: reqwest::Client) -> (state: PostmanClone)
        ensures
            state@ == StateView::initial(),
            state.client == client,
    {
        PostmanClone { url: String::new(), response: String::new(), client }
    }
}

} // verus!
