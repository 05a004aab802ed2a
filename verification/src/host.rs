//! What passes between the widget and the page that hosts it: the events the
//! page reports, and the work the widget hands back to it.

use crate::request::{Request, RequestView};
use vstd::prelude::*;
use vstd::string::StringExecFns;

verus! {

/// Identifier of the element that shows the feed.
pub const FEED_ID: &'static str = "messages";

/// Identifier of the text input a message is typed into.
pub const INPUT_ID: &'static str = "message-input";

/// Identifier of the button that sends what was typed.
pub const SEND_BUTTON_ID: &'static str = "send-button";

/// The key that sends what was typed.
pub const SUBMIT_KEY: &'static str = "Enter";

/// Milliseconds between two polls.
pub const POLL_INTERVAL_MS: u32 = 1_000;

/// A kind of event an element reports.
#[derive(Clone, Copy, Debug, PartialEq, Eq, Structural)]
pub enum Trigger {
    Click,
    KeyPress,
}

/// A request to be told of one kind of event on one element.
#[derive(Debug)]
pub struct Binding {
    pub element_id: String,
    pub trigger: Trigger,
}

/// The mathematical value of a [`Binding`].
pub struct BindingView {
    pub element_id: Seq<char>,
    pub trigger: Trigger,
}

impl View for Binding {
    type V = BindingView;

    open spec fn view(&self) -> BindingView {
        BindingView { element_id: self.element_id@, trigger: self.trigger }
    }
}

impl DeepView for Binding {
    type V = BindingView;

    open spec fn deep_view(&self) -> BindingView {
        self@
    }
}

/// The events the widget asks for: clicks on the send button and key
/// presses in the text input, in this order.
pub open spec fn ui_bindings() -> Seq<BindingView> {
    seq![
        BindingView { element_id: SEND_BUTTON_ID@, trigger: Trigger::Click },
        BindingView { element_id: INPUT_ID@, trigger: Trigger::KeyPress },
    ]
}

/// An event reported by the page.
#[derive(Debug)]
pub enum UiEvent {
    /// The send button was clicked.
    Click,
    /// A key, given by its name, was pressed in the text input.
    KeyPress(String),
}

/// The mathematical value of a [`UiEvent`].
pub enum UiEventView {
    Click,
    KeyPress(Seq<char>),
}

impl View for UiEvent {
    type V = UiEventView;

    open spec fn view(&self) -> UiEventView {
        match self {
            UiEvent::Click => UiEventView::Click,
            UiEvent::KeyPress(key) => UiEventView::KeyPress(key@),
        }
    }
}

impl UiEventView {
    /// Whether the event asks for what was typed to be sent: every click on
    /// the button does, and of the key presses those of the submit key.
    pub open spec fn submits(self) -> bool {
        match self {
            UiEventView::Click => true,
            UiEventView::KeyPress(key) => key == SUBMIT_KEY@,
        }
    }
}

impl UiEvent {
    /// Decides [`UiEventView::submits`].
    pub fn submits(&self) -> (yes: bool)
        ensures
            yes == self@.submits(),
    {
        match self {
            UiEvent::Click => true,
            UiEvent::KeyPress(key) => *key == String::from_str(SUBMIT_KEY),
        }
    }
}

/// One piece of work for the page.
#[derive(Debug)]
pub enum Action {
    /// Empty the text input.
    ClearInput,
    /// Issue the request and forget about it: whether it succeeds is of no
    /// concern, and no response is read.
    Send(Request),
    /// Redraw the feed from the store and scroll it.
    Render,
}

/// The mathematical value of an [`Action`].
pub enum ActionView {
    ClearInput,
    Send(RequestView),
    Render,
}

impl View for Action {
    type V = ActionView;

    open spec fn view(&self) -> ActionView {
        match self {
            Action::ClearInput => ActionView::ClearInput,
            Action::Send(request) => ActionView::Send(request@),
            Action::Render => ActionView::Render,
        }
    }
}

impl DeepView for Action {
    type V = ActionView;

    open spec fn deep_view(&self) -> ActionView {
        self@
    }
}

/// A redraw of the feed: the markup that replaces whatever the feed element
/// held, and where the element is scrolled to afterwards.
#[derive(Debug)]
pub struct FeedUpdate {
    pub element_id: String,
    pub html: String,
    /// Whether the element is scrolled to its very end once the markup is in
    /// place.
    pub scroll_to_bottom: bool,
}

/// When to poll.
#[derive(Clone, Copy, Debug, PartialEq, Eq, Structural)]
pub struct PollSchedule {
    /// Milliseconds from one poll to the next.
    pub interval_ms: u32,
}

} // verus!
