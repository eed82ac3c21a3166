use postman_clone::{
    completion, completion_message, error_text, update, Effect, Message, PostmanClone,
};

fn fresh() -> PostmanClone {
    PostmanClone::new(reqwest::Client::new())
}

fn builder_error(url: &str) -> reqwest::Error {
    match reqwest::Client::new().get(url).build() {
        Ok(_) => panic!("{:?} was accepted as a URL", url),
        Err(error) => error,
    }
}

fn fetched_url(effect: Effect) -> String {
    match effect {
        Effect::Fetch { url, .. } => url,
        Effect::Nothing => panic!("no fetch was scheduled"),
    }
}

#[test]
fn initial_state_is_empty() {
    let state = fresh();
    assert_eq!(state.url, "");
    assert_eq!(state.response, "");
}

#[test]
fn edit_sets_url_to_the_text_typed() {
    for text in ["h", "https://example.com/a?b=c#d", "  spaced  ", "", "ünï©ødé\n"] {
        let mut state = fresh();
        let effect = update(&mut state, Message::UrlChanged(text.to_string()));
        assert!(matches!(effect, Effect::Nothing));
        assert_eq!(state.url, text);
        assert_eq!(state.response, "");
    }
}

#[test]
fn last_edit_wins_and_repeating_it_changes_nothing() {
    let mut state = fresh();
    update(&mut state, Message::UrlChanged("first".to_string()));
    update(&mut state, Message::UrlChanged("second".to_string()));
    assert_eq!(state.url, "second");
    update(&mut state, Message::UrlChanged("second".to_string()));
    assert_eq!(state.url, "second");
    assert_eq!(state.response, "");
}

#[test]
fn edit_keeps_the_response() {
    let mut state = fresh();
    update(&mut state, Message::ResponseReceived("body".to_string()));
    update(&mut state, Message::UrlChanged("next".to_string()));
    assert_eq!(state.url, "next");
    assert_eq!(state.response, "body");
}

#[test]
fn send_schedules_a_fetch_of_the_current_url() {
    let mut state = fresh();
    update(&mut state, Message::UrlChanged("https://httpbin.org/get".to_string()));
    let effect = update(&mut state, Message::SendPressed);
    assert_eq!(fetched_url(effect), "https://httpbin.org/get");
    assert_eq!(state.url, "https://httpbin.org/get");
    assert_eq!(state.response, "");
}

#[test]
fn send_captures_the_url_at_the_time_of_the_press() {
    let mut state = fresh();
    update(&mut state, Message::UrlChanged("one".to_string()));
    let first = update(&mut state, Message::SendPressed);
    update(&mut state, Message::UrlChanged("two".to_string()));
    let second = update(&mut state, Message::SendPressed);
    assert_eq!(fetched_url(first), "one");
    assert_eq!(fetched_url(second), "two");
}

#[test]
fn send_is_allowed_with_an_empty_url() {
    let mut state = fresh();
    let effect = update(&mut state, Message::SendPressed);
    assert_eq!(fetched_url(effect), "");
}

#[test]
fn success_sets_the_response_to_the_body_untouched() {
    for body in ["plain", "  padded \r\n\t", "", "{\"a\": [1, 2]}\n", "naïve ☃"] {
        let mut state = fresh();
        update(&mut state, Message::UrlChanged("u".to_string()));
        let message = completion(Ok(body.to_string()));
        assert_eq!(message, Message::ResponseReceived(body.to_string()));
        let effect = update(&mut state, message);
        assert!(matches!(effect, Effect::Nothing));
        assert_eq!(state.response, body);
        assert_eq!(state.url, "u");
    }
}

#[test]
fn round_trip_with_a_canned_success() {
    let mut state = fresh();
    update(&mut state, Message::UrlChanged("https://httpbin.org/get".to_string()));
    let effect = update(&mut state, Message::SendPressed);
    assert_eq!(fetched_url(effect), "https://httpbin.org/get");
    let delivered = completion_message(Ok("{\"ok\":true}".to_string()));
    update(&mut state, delivered);
    assert_eq!(state.response, "{\"ok\":true}");
}

#[test]
fn error_text_puts_the_marker_before_the_debug_text() {
    assert_eq!(error_text("boom"), "Error: boom");
    assert_eq!(error_text(""), "Error: ");
    assert_eq!(error_text("Error: nested"), "Error: Error: nested");
}

#[test]
fn completion_message_reports_each_outcome() {
    assert_eq!(
        completion_message(Ok("body".to_string())),
        Message::ResponseReceived("body".to_string())
    );
    assert_eq!(
        completion_message(Err("Timeout".to_string())),
        Message::ErrorReceived("Error: Timeout".to_string())
    );
}

#[test]
fn failure_is_reported_with_the_debug_text_of_the_error() {
    let expected = format!("Error: {:?}", builder_error("not a url"));
    let message = completion(Err(builder_error("not a url")));
    assert_eq!(message, Message::ErrorReceived(expected));
    match message {
        Message::ErrorReceived(text) => {
            assert!(text.starts_with("Error: reqwest::Error"));
            assert!(text.len() > "Error: reqwest::Error".len());
        }
        other => panic!("unexpected message {:?}", other),
    }
}

#[test]
fn failure_replaces_an_empty_response_with_an_error_text() {
    let mut state = fresh();
    update(&mut state, Message::UrlChanged("http://unreachable.invalid/".to_string()));
    update(&mut state, Message::SendPressed);
    let before = state.response.clone();
    let delivered = completion_message(Err("ConnectError(\"dns error\")".to_string()));
    update(&mut state, delivered);
    assert_ne!(state.response, before);
    assert!(!state.response.is_empty());
    assert_eq!(state.response, "Error: ConnectError(\"dns error\")");
    assert_eq!(state.url, "http://unreachable.invalid/");
}

#[test]
fn empty_url_and_send_end_in_an_error_text() {
    let mut state = fresh();
    let url = fetched_url(update(&mut state, Message::SendPressed));
    assert_eq!(url, "");
    let delivered = completion(Err(builder_error(&url)));
    assert!(matches!(delivered, Message::ErrorReceived(_)));
    update(&mut state, delivered);
    assert!(state.response.starts_with("Error: reqwest::Error"));
    assert_ne!(state.response, "");
}

#[test]
fn the_completion_delivered_last_wins() {
    let first_issued = Message::ResponseReceived("from the first press".to_string());
    let second_issued = Message::ErrorReceived("Error: from the second press".to_string());

    let mut in_order = fresh();
    update(&mut in_order, Message::SendPressed);
    update(&mut in_order, Message::SendPressed);
    update(&mut in_order, first_issued.clone());
    update(&mut in_order, second_issued.clone());
    assert_eq!(in_order.response, "Error: from the second press");

    let mut out_of_order = fresh();
    update(&mut out_of_order, Message::SendPressed);
    update(&mut out_of_order, Message::SendPressed);
    update(&mut out_of_order, second_issued);
    update(&mut out_of_order, first_issued);
    assert_eq!(out_of_order.response, "from the first press");
}

#[test]
fn an_error_overwrites_an_earlier_body_and_the_reverse() {
    let mut state = fresh();
    update(&mut state, Message::ResponseReceived("body".to_string()));
    update(&mut state, Message::ErrorReceived("Error: late".to_string()));
    assert_eq!(state.response, "Error: late");
    update(&mut state, Message::ResponseReceived("later body".to_string()));
    assert_eq!(state.response, "later body");
}
