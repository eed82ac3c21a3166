//! What holds of the controller over whole sequences of events.

use vstd::prelude::*;
use crate::message::MessageView;
use crate::outcome::{completion_of, error_prefix, error_text_of, is_error_text};
use crate::state::StateView;
use crate::update::{effect_of, run, step, EffectView};
use crate::view::layout;

verus! {

/// After an edit the URL is exactly the text typed, the response is
/// untouched, and the same edit once more changes nothing.
pub proof fn lemma_edit_sets_url(s: StateView, text: Seq<char>)
    ensures
        step(s, MessageView::UrlChanged(text)).url == text,
        step(s, MessageView::UrlChanged(text)).response == s.response,
        step(step(s, MessageView::UrlChanged(text)), MessageView::UrlChanged(text)) == step(
            s,
            MessageView::UrlChanged(text),
        ),
{
}

/// Of two edits in a row the later one decides the URL.
pub proof fn lemma_last_edit_wins(s: StateView, first: Seq<char>, second: Seq<char>)
    ensures
        step(step(s, MessageView::UrlChanged(first)), MessageView::UrlChanged(second)) == step(
            s,
            MessageView::UrlChanged(second),
        ),
{
}

/// A press of the send button leaves the state as it is and asks for a fetch
/// of the URL held at that moment, the empty one included.
pub proof fn lemma_send_fetches_current_url(s: StateView)
    ensures
        step(s, MessageView::SendPressed) == s,
        effect_of(s, MessageView::SendPressed) == (EffectView::Fetch { url: s.url }),
{
}

/// A request that succeeds with body `body` makes the response exactly
/// `body`, and leaves the URL alone.
pub proof fn lemma_success_shows_body(s: StateView, body: Seq<char>)
    ensures
        step(s, completion_of(Ok(body))).response == body,
        step(s, completion_of(Ok(body))).url == s.url,
{
}

/// An error text is never empty, starts with the error marker and ends with
/// the failure's debug representation.
pub proof fn lemma_error_text_shape(debug: Seq<char>)
    ensures
        error_prefix().len() == 7,
        error_text_of(debug).len() == 7 + debug.len(),
        is_error_text(error_text_of(debug)),
        error_text_of(debug).subrange(7, error_text_of(debug).len() as int) == debug,
{
    reveal_strlit("Error: ");
    assert(error_text_of(debug).subrange(0, 7) =~= error_prefix());
    assert(error_text_of(debug).subrange(7, error_text_of(debug).len() as int) =~= debug);
}

/// A request that fails makes the response a non-empty text that starts with
/// the error marker; where nothing was shown before, the response has
/// therefore changed.
pub proof fn lemma_failure_shows_error(s: StateView, debug: Seq<char>)
    ensures
        step(s, completion_of(Err(debug))).response == error_text_of(debug),
        step(s, completion_of(Err(debug))).response.len() > 0,
        is_error_text(step(s, completion_of(Err(debug))).response),
        s.response.len() == 0 ==> step(s, completion_of(Err(debug))).response != s.response,
{
    lemma_error_text_shape(debug);
}

/// Consuming one more message after `ms` is one more step.
pub proof fn lemma_run_push(s: StateView, ms: Seq<MessageView>, m: MessageView)
    ensures
        run(s, ms.push(m)) == step(run(s, ms), m),
{
    assert(ms.push(m).drop_last() =~= ms);
}

/// A whole request, from the press of the button to the delivery of its
/// outcome: the response ends as the body of a success or as the error
/// text of a failure, and the URL is as it was.
pub proof fn lemma_request_shows_outcome(s: StateView, outcome: Result<Seq<char>, Seq<char>>)
    ensures
        run(s, seq![MessageView::SendPressed, completion_of(outcome)]).url == s.url,
        run(s, seq![MessageView::SendPressed, completion_of(outcome)]).response == match outcome {
            Ok(body) => body,
            Err(debug) => error_text_of(debug),
        },
{
    lemma_run_push(s, Seq::empty(), MessageView::SendPressed);
    lemma_run_push(s, seq![MessageView::SendPressed], completion_of(outcome));
    assert(Seq::<MessageView>::empty().push(MessageView::SendPressed) =~= seq![
        MessageView::SendPressed,
    ]);
    assert(seq![MessageView::SendPressed].push(completion_of(outcome)) =~= seq![
        MessageView::SendPressed,
        completion_of(outcome),
    ]);
}

/// The response is decided by the completion that was delivered last: if
/// `ms` ends in a completion, the response after `ms` is the text of that
/// completion, whatever came before it and in whatever order.
pub proof fn lemma_last_completion_wins(s: StateView, ms: Seq<MessageView>)
    requires
        ms.len() > 0,
        ms.last().is_completion(),
    ensures
        run(s, ms).response == ms.last().completion_text(),
{
}

/// Messages that are no completions leave the response as it was.
pub proof fn lemma_response_changes_only_on_completion(s: StateView, ms: Seq<MessageView>)
    requires
        forall|i: int| 0 <= i < ms.len() ==> !(#[trigger] ms[i]).is_completion(),
    ensures
        run(s, ms).response == s.response,
    decreases ms.len(),
{
    if ms.len() > 0 {
        lemma_response_changes_only_on_completion(s, ms.drop_last());
    }
}

/// Two presses of the send button before either request completes: each
/// asks for a fetch, and the response ends as the text of whichever
/// completion is delivered last, in either order of delivery.
pub proof fn lemma_back_to_back_sends(s: StateView, a: MessageView, b: MessageView)
    requires
        a.is_completion(),
        b.is_completion(),
    ensures
        effect_of(s, MessageView::SendPressed) == (EffectView::Fetch { url: s.url }),
        effect_of(step(s, MessageView::SendPressed), MessageView::SendPressed)
            == (EffectView::Fetch { url: s.url }),
        run(s, seq![MessageView::SendPressed, MessageView::SendPressed, a, b]).response
            == b.completion_text(),
        run(s, seq![MessageView::SendPressed, MessageView::SendPressed, b, a]).response
            == a.completion_text(),
{
    let ab = seq![MessageView::SendPressed, MessageView::SendPressed, a, b];
    let ba = seq![MessageView::SendPressed, MessageView::SendPressed, b, a];
    assert(ab.last() == b);
    assert(ba.last() == a);
    lemma_last_completion_wins(s, ab);
    lemma_last_completion_wins(s, ba);
}

/// The window always holds five widgets, and only the value of the URL
/// field and the content of the response text depend on the state.
pub proof fn lemma_layout_is_fixed(s: StateView, t: StateView)
    ensures
        layout(s).children.len() == 5,
        layout(s).padding == layout(t).padding,
        layout(s).spacing == layout(t).spacing,
        forall|i: int|
            0 <= i < 5 && i != 1 && i != 4 ==> layout(s).children[i] == layout(t).children[i],
        s.url == t.url ==> layout(s).children[1] == layout(t).children[1],
        s.response == t.response ==> layout(s).children[4] == layout(t).children[4],
{
}

} // verus!
