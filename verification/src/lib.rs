//! The controller of a small HTTP request tool: a URL field, a send button
//! and a response area, modelled as a state machine from events to state
//! changes and effects, together with a declarative description of the
//! window it shows.

pub mod laws;
pub mod message;
pub mod outcome;
pub mod state;
pub mod transport;
pub mod update;
pub mod view;

pub use message::Message;
pub use outcome::{completion, completion_message, error_text};
pub use state::PostmanClone;
pub use update::{update, Effect};
pub use view::{on_input, view, Column, Widget};
