//! From the outcome of a request to the message that reports it.

use vstd::prelude::*;
use vstd::string::StringExecFns;
use crate::message::{Message, MessageView};
use crate::transport::{debug_text, failure_name};

verus! {

/// The marker that every error text starts with.
pub open spec fn error_prefix() -> Seq<char> {
    "Error: "@
}

/// The text shown for a failure whose debug representation is `debug`.
pub open spec fn error_text_of(debug: Seq<char>) -> Seq<char> {
    error_prefix() + debug
}

/// Whether `text` is the error text of some failure.
pub open spec fn is_error_text(text: Seq<char>) -> bool {
    error_prefix().is_prefix_of(text)
}

/// The message that reports `outcome`: the body of a success as it is, the
/// debug representation of a failure behind the error marker.
pub open spec fn completion_of(outcome: Result<Seq<char>, Seq<char>>) -> MessageView {
    match outcome {
        Ok(body) => MessageView::ResponseReceived(body),
        Err(debug) => MessageView::ErrorReceived(error_text_of(debug)),
    }
}

/// The mathematical value of an outcome whose failure is already text.
pub open spec fn outcome_view(outcome: Result<String, String>) -> Result<Seq<char>, Seq<char>> {
    match outcome {
        Ok(body) => Ok(body@),
        Err(debug) => Err(debug@),
    }
}

/// Builds the text shown for a failure from its debug representation.
pub fn error_text(debug: &str) -> (text: String)
    ensures
        text@ == error_text_of(debug@),
{
    let mut text = String::from_str("Error: ");
    text.append(debug);
    text
}

/// Turns the outcome of a request, its failure given as debug text, into the
/// message that reports it. The body of a success is passed on untouched.
pub fn completion_message(outcome: Result<String, String>) -> (message: Message)
    ensures
        message@ == completion_of(outcome_view(outcome)),
{
    match outcome {
        Ok(body) => Message::ResponseReceived(body),
        Err(debug) => Message::ErrorReceived(error_text(debug.as_str())),
    }
}

/// Turns the outcome of a request into the message that reports it.
///
/// A success gives exactly its body. A failure, of whatever kind, gives an
/// error message whose text is the error marker followed by what the client
/// library prints for the failure, which starts with its type name.
pub fn completion(outcome: Result<String, reqwest::Error>) -> (message: Message)
    ensures
        match outcome {
            Ok(body) => message@ == completion_of(Ok(body@)),
            Err(_) => exists|rest: Seq<char>|
                message@ == completion_of(Err(#[trigger] (failure_name() + rest))),
        },
{
    match outcome {
        Ok(body) => completion_message(Ok(body)),
        Err(error) => {
            let debug = debug_text(&error);
            proof {
                let rest = debug@.subrange(failure_name().len() as int, debug@.len() as int);
                assert(failure_name() + rest =~= debug@);
            }
            completion_message(Err(debug))
        },
    }
}

} // verus!
