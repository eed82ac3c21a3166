//! The window, as a pure function of the state.

use vstd::prelude::*;
use vstd::string::StringExecFns;
use crate::message::{Message, MessageView};
use crate::state::{PostmanClone, StateView};

verus! {

/// The text of the label above the URL field.
pub open spec fn url_label() -> Seq<char> {
    "Enter URL:"@
}

/// The text that the URL field shows while it is empty.
pub open spec fn url_placeholder() -> Seq<char> {
    "https://httpbin.org/get"@
}

/// The text on the send button.
pub open spec fn send_label() -> Seq<char> {
    "Send"@
}

/// The text of the label above the response.
pub open spec fn response_label() -> Seq<char> {
    "Response:"@
}

/// The padding inside the URL field and the button.
pub const CONTROL_PADDING: u16 = 10;

/// The padding around the whole column.
pub const COLUMN_PADDING: u16 = 20;

/// The space between two widgets of the column.
pub const COLUMN_SPACING: u16 = 10;

/// The text size of the response.
pub const RESPONSE_SIZE: u16 = 16;

/// One widget of the window.
#[derive(Debug, Clone, PartialEq, Eq)]
pub enum Widget {
    /// Read-only text, in the default size where `size` is `None`.
    Text { content: String, size: Option<u16> },
    /// A single-line editable field; every change of its content is
    /// reported through [`on_input`].
    TextInput { placeholder: String, value: String, padding: u16 },
    /// A button that is always enabled and emits `on_press` when activated.
    Button { label: String, padding: u16, on_press: Message },
}

/// The mathematical value of a [`Widget`].
pub enum WidgetView {
    Text { content: Seq<char>, size: Option<u16> },
    TextInput { placeholder: Seq<char>, value: Seq<char>, padding: u16 },
    Button { label: Seq<char>, padding: u16, on_press: MessageView },
}

impl View for Widget {
    type V = WidgetView;

    open spec fn view(&self) -> WidgetView {
        match self {
            Widget::Text { content, size } => WidgetView::Text { content: content@, size: *size },
            Widget::TextInput { placeholder, value, padding } => WidgetView::TextInput {
                placeholder: placeholder@,
                value: value@,
                padding: *padding,
            },
            Widget::Button { label, padding, on_press } => WidgetView::Button {
                label: label@,
                padding: *padding,
                on_press: on_press@,
            },
        }
    }
}

/// Widgets laid out from top to bottom.
#[derive(Debug, Clone, PartialEq, Eq)]
pub struct Column {
    pub children: Vec<Widget>,
    pub padding: u16,
    pub spacing: u16,
}

/// The mathematical value of a [`Column`].
pub struct ColumnView {
    pub children: Seq<WidgetView>,
    pub padding: u16,
    pub spacing: u16,
}

impl View for Column {
    type V = ColumnView;

    open spec fn view(&self) -> ColumnView {
        ColumnView {
            children: Seq::new(self.children@.len(), |i: int| self.children@[i]@),
            padding: self.padding,
            spacing: self.spacing,
        }
    }
}

/// The window for state `s`: always the same five widgets in the same order,
/// whatever the state holds and whether or not a request is in flight.
pub open spec fn layout(s: StateView) -> ColumnView {
    ColumnView {
        children: seq![
            WidgetView::Text { content: url_label(), size: None },
            WidgetView::TextInput {
                placeholder: url_placeholder(),
                value: s.url,
                padding: CONTROL_PADDING,
            },
            WidgetView::Button {
                label: send_label(),
                padding: CONTROL_PADDING,
                on_press: MessageView::SendPressed,
            },
            WidgetView::Text { content: response_label(), size: None },
            WidgetView::Text { content: s.response, size: Some(RESPONSE_SIZE) },
        ],
        padding: COLUMN_PADDING,
        spacing: COLUMN_SPACING,
    }
}

/// The message by which the URL field reports that it now holds `text`.
pub fn on_input(text: String) -> (message: Message)
    ensures
        message@ == MessageView::UrlChanged(text@),
{
    Message::UrlChanged(text)
}

/// Describes the window for the current state.
pub fn view(state: &PostmanClone) -> (column: Column)
    ensures
        column@ == layout(state@),
{
    let mut children: Vec<Widget> = Vec::new();
    children.push(Widget::Text { content: String::from_str("Enter URL:"), size: None });
    children.push(
        Widget::TextInput {
            placeholder: String::from_str("https://httpbin.org/get"),
            value: state.url.clone(),
            padding: CONTROL_PADDING,
        },
    );
    children.push(
        Widget::Button {
            label: String::from_str("Send"),
            padding: CONTROL_PADDING,
            on_press: Message::SendPressed,
        },
    );
    children.push(Widget::Text { content: String::from_str("Response:"), size: None });
    children.push(Widget::Text { content: state.response.clone(), size: Some(RESPONSE_SIZE) });
    let column = Column { children, padding: COLUMN_PADDING, spacing: COLUMN_SPACING };
    proof {
        assert(column@.children =~= layout(state@).children);
    }
    column
}

} // verus!
