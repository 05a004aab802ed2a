//! One client session: who the viewer is, the messages known so far, and what
//! happens to them when the viewer sends a message or the server answers a
//! poll.

use crate::clock::ClockTime;
use crate::endpoint::messages_endpoint;
use crate::host::{
    ui_bindings, Action, ActionView, Binding, FeedUpdate, PollSchedule, Trigger, UiEvent,
    UiEventView, FEED_ID, INPUT_ID, POLL_INTERVAL_MS, SEND_BUTTON_ID,
};
use crate::message::{ChatResponse, Message, MessageView};
use crate::render::{feed_html, nodes_of, render_nodes, view_nodes};
use crate::request::{
    poll_request, send_request, Header, HeaderView, Method, Request, CONTENT_TYPE, JSON,
};
use crate::text::{is_blank, lemma_trimmed_empty_iff_blank, trim, trimmed};
use vstd::prelude::*;
use vstd::string::StringExecFns;

verus! {

/// The mathematical value of a session.
pub struct ChatView {
    /// The messages known to the client, in the order they arrived.
    pub messages: Seq<MessageView>,
    /// The viewer's display name.
    pub current_user: Seq<char>,
    /// The number given to the message the viewer sent last; zero before the
    /// first.
    pub last_id: nat,
}

impl ChatView {
    /// The session of `username` before anything has happened.
    pub open spec fn initial(username: Seq<char>) -> ChatView {
        ChatView { messages: Seq::empty(), current_user: username, last_id: 0 }
    }

    /// The message the viewer authors by sending `content` at `now`.
    pub open spec fn authored(self, content: Seq<char>, now: nat) -> MessageView {
        MessageView {
            id: self.last_id + 1,
            content: trimmed(content),
            timestamp: now,
            sender: self.current_user,
        }
    }

    /// The session with `message` added at the end of the store.
    pub open spec fn append(self, message: MessageView) -> ChatView {
        ChatView { messages: self.messages.push(message), ..self }
    }

    /// The session with the store given up for `messages`.
    pub open spec fn replace(self, messages: Seq<MessageView>) -> ChatView {
        ChatView { messages, ..self }
    }

    /// The session after the viewer sent `content` at `now`: unchanged where
    /// the content is blank, and with the authored message at the end of the
    /// store otherwise.
    pub open spec fn send(self, content: Seq<char>, now: nat) -> ChatView {
        if is_blank(content) {
            self
        } else {
            ChatView { last_id: self.last_id + 1, ..self.append(self.authored(content, now)) }
        }
    }

    /// What is left to the page after the viewer sent `content`: nothing
    /// where the content is blank; otherwise to hand the authored message to
    /// the server and then to redraw.
    pub open spec fn send_actions(
        self,
        content: Seq<char>,
        now: nat,
        host: Seq<char>,
    ) -> Seq<ActionView> {
        if is_blank(content) {
            Seq::empty()
        } else {
            seq![
                ActionView::Send(send_request(self.authored(content, now), host)),
                ActionView::Render,
            ]
        }
    }

    /// The session after a poll ended: with the server's list for a store
    /// where the poll brought one, and unchanged where it failed.
    pub open spec fn receive(self, response: Option<Seq<MessageView>>) -> ChatView {
        match response {
            Some(messages) => self.replace(messages),
            None => self,
        }
    }

    /// What is left to the page after a poll ended: to redraw where the poll
    /// brought a list, and nothing where it failed.
    pub open spec fn receive_actions(response: Option<Seq<MessageView>>) -> Seq<ActionView> {
        match response {
            Some(_) => seq![ActionView::Render],
            None => Seq::empty(),
        }
    }

    /// Whether `event`, reported while the text input held `input` (nothing,
    /// if the page has no such input), sends a message.
    pub open spec fn takes_input(event: UiEventView, input: Option<Seq<char>>) -> bool {
        event.submits() && input is Some
    }

    /// The session after `event`.
    pub open spec fn after_ui_event(
        self,
        event: UiEventView,
        input: Option<Seq<char>>,
        now: nat,
    ) -> ChatView {
        if Self::takes_input(event, input) {
            self.send(input->0, now)
        } else {
            self
        }
    }

    /// What is left to the page after `event`: where it sends a message, to
    /// empty the input and then whatever the send asks for; nothing
    /// otherwise.
    pub open spec fn ui_actions(
        self,
        event: UiEventView,
        input: Option<Seq<char>>,
        now: nat,
        host: Seq<char>,
    ) -> Seq<ActionView> {
        if Self::takes_input(event, input) {
            seq![ActionView::ClearInput] + self.send_actions(input->0, now, host)
        } else {
            Seq::empty()
        }
    }
}

/// One thing that happens to a session.
pub enum Step {
    /// The viewer sends `content` at `now`.
    Send { content: Seq<char>, now: nat },
    /// A poll ends, with the server's list or with nothing.
    Poll { response: Option<Seq<MessageView>> },
    /// The page reports `event` at `now`, with what the text input held.
    Ui { event: UiEventView, input: Option<Seq<char>>, now: nat },
}

impl ChatView {
    /// The session after `step`.
    pub open spec fn step(self, step: Step) -> ChatView {
        match step {
            Step::Send { content, now } => self.send(content, now),
            Step::Poll { response } => self.receive(response),
            Step::Ui { event, input, now } => self.after_ui_event(event, input, now),
        }
    }

    /// The session after `steps`, taken in order.
    pub open spec fn run(self, steps: Seq<Step>) -> ChatView
        decreases steps.len(),
    {
        if steps.len() == 0 {
            self
        } else {
            self.run(steps.drop_last()).step(steps.last())
        }
    }
}

/// A client session.
pub struct ChatApp {
    messages: Vec<Message>,
    current_user: String,
    last_id: u32,
}

impl View for ChatApp {
    type V = ChatView;

    closed spec fn view(&self) -> ChatView {
        ChatView {
            messages: self.messages.deep_view(),
            current_user: self.current_user@,
            last_id: self.last_id as nat,
        }
    }
}

impl ChatApp {
    /// Starts the session of `username`.
    pub fn new(username: String) -> (app: ChatApp)
        ensures
            app@ == ChatView::initial(username@),
    {
        let app = ChatApp { messages: Vec::new(), current_user: username, last_id: 0 };
        assert(app.messages.deep_view() =~= Seq::<MessageView>::empty());
        app
    }

    /// The viewer's display name.
    pub fn current_user(&self) -> (name: &String)
        ensures
            name@ == self@.current_user,
    {
        &self.current_user
    }

    /// The messages known to the client, in the order they arrived.
    pub fn messages(&self) -> (messages: &Vec<Message>)
        ensures
            messages.deep_view() == self@.messages,
    {
        &self.messages
    }

    /// The number given to the message the viewer sent last; zero before the
    /// first.
    pub fn last_id(&self) -> (id: u32)
        ensures
            id == self@.last_id,
    {
        self.last_id
    }

    /// Adds `message` at the end of the store.
    pub fn append(&mut self, message: Message)
        ensures
            final(self)@ == old(self)@.append(message@),
    {
        self.messages.push(message);
        assert(self.messages.deep_view() =~= old(self).messages.deep_view().push(message@));
    }

    /// Gives the store up for `messages`, which are taken as they are.
    pub fn replace(&mut self, messages: Vec<Message>)
        ensures
            final(self)@ == old(self)@.replace(messages.deep_view()),
    {
        self.messages = messages;
    }

    /// The viewer sends `content` at `now` milliseconds since the epoch, from
    /// a page served by `host`.
    ///
    /// Blank content is dropped without a trace. Any other content, trimmed,
    /// becomes a message of the viewer's with the next number; the message
    /// goes to the end of the store at once, before the server has seen it.
    /// What is returned is left to the caller to carry out, in the order
    /// given.
    pub fn send_message(&mut self, content: String, now: u64, host: &str) -> (actions: Vec<
        Action,
    >)
        requires
            !is_blank(content@) ==> old(self)@.last_id < u32::MAX,
        ensures
            final(self)@ == old(self)@.send(content@, now as nat),
            actions.deep_view() == old(self)@.send_actions(content@, now as nat, host@),
    {
        let mut actions: Vec<Action> = Vec::new();
        let text = trim(content.as_str());
        proof {
            lemma_trimmed_empty_iff_blank(content@);
        }
        if text.is_empty() {
            return actions;
        }
        self.last_id = self.last_id + 1;
        let message = Message {
            id: self.last_id,
            content: String::from_str(text),
            timestamp: now,
            sender: self.current_user.clone(),
        };
        let request = self.send_to_server(&message, host);
        self.append(message);
        actions.push(Action::Send(request));
        actions.push(Action::Render);
        actions
    }

    /// The request that hands `message` to the server, for a page served by
    /// `host`.
    pub fn send_to_server(&self, message: &Message, host: &str) -> (request: Request)
        ensures
            request@ == send_request(message@, host@),
    {
        let mut headers: Vec<Header> = Vec::new();
        headers.push(
            Header { name: String::from_str(CONTENT_TYPE), value: String::from_str(JSON) },
        );
        let request = Request {
            method: Method::Post,
            url: messages_endpoint(host),
            headers,
            body: Some(message.clone()),
        };
        assert(request.headers.deep_view() =~= seq![
            HeaderView { name: CONTENT_TYPE@, value: JSON@ },
        ]);
        request
    }

    /// The request that fetches the server's message list, for a page served
    /// by `host`. The caller issues it and reports how it ended to
    /// [`ChatApp::receive_poll`].
    pub fn poll_messages(&self, host: &str) -> (request: Request)
        ensures
            request@ == poll_request(host@),
    {
        let request = Request {
            method: Method::Get,
            url: messages_endpoint(host),
            headers: Vec::new(),
            body: None,
        };
        assert(request.headers.deep_view() =~= Seq::<HeaderView>::empty());
        request
    }

    /// A poll ended: with the server's list, or, where the request failed or
    /// its answer was not a message list, with nothing.
    ///
    /// The server's list replaces the store as it is; a failed poll leaves
    /// the store alone.
    pub fn receive_poll(&mut self, response: Option<ChatResponse>) -> (actions: Vec<Action>)
        ensures
            final(self)@ == old(self)@.receive(response.deep_view()),
            actions.deep_view() == ChatView::receive_actions(response.deep_view()),
    {
        let mut actions: Vec<Action> = Vec::new();
        match response {
            Some(list) => {
                self.replace(list.messages);
                actions.push(Action::Render);
            },
            None => {},
        }
        actions
    }

    /// The feed as it is to be shown now: the markup of every stored message
    /// in store order, each marked as the viewer's own or not, with
    /// `times[i]` for the time of day of the message at position `i`; and the
    /// order to scroll to the end, which is given on every redraw.
    pub fn render_messages(&self, times: &Vec<ClockTime>) -> (update: FeedUpdate)
        requires
            times.len() == self@.messages.len(),
        ensures
            update.element_id@ == FEED_ID@,
            update.html@ == feed_html(nodes_of(self@.messages, self@.current_user, times@)),
            update.scroll_to_bottom,
    {
        let nodes = view_nodes(&self.messages, &self.current_user, times);
        FeedUpdate {
            element_id: String::from_str(FEED_ID),
            html: render_nodes(&nodes),
            scroll_to_bottom: true,
        }
    }

    /// The events the session wants to hear of. The caller reports each to
    /// [`ChatApp::on_ui_event`].
    pub fn setup_ui(&self) -> (bindings: Vec<Binding>)
        ensures
            bindings.deep_view() == ui_bindings(),
    {
        let mut bindings: Vec<Binding> = Vec::new();
        bindings.push(
            Binding { element_id: String::from_str(SEND_BUTTON_ID), trigger: Trigger::Click },
        );
        bindings.push(
            Binding { element_id: String::from_str(INPUT_ID), trigger: Trigger::KeyPress },
        );
        bindings
    }

    /// The page reports `event`, at `now` milliseconds since the epoch, with
    /// what the text input held at that moment (`None` if the page has no
    /// such input).
    ///
    /// A click on the send button and a press of the submit key send what
    /// the input held; the input is emptied first, whatever it held. Any
    /// other event is ignored.
    pub fn on_ui_event(
        &mut self,
        event: &UiEvent,
        input: Option<String>,
        now: u64,
        host: &str,
    ) -> (actions: Vec<Action>)
        requires
            ChatView::takes_input(event@, input.deep_view()) && !is_blank(input.deep_view()->0)
                ==> old(self)@.last_id < u32::MAX,
        ensures
            final(self)@ == old(self)@.after_ui_event(event@, input.deep_view(), now as nat),
            actions.deep_view() == old(self)@.ui_actions(
                event@,
                input.deep_view(),
                now as nat,
                host@,
            ),
    {
        let mut actions: Vec<Action> = Vec::new();
        if !event.submits() {
            return actions;
        }
        match input {
            Some(content) => {
                actions.push(Action::ClearInput);
                let mut rest = self.send_message(content, now, host);
                actions.append(&mut rest);
            },
            None => {},
        }
        actions
    }

    /// When to poll: again and again, a fixed time apart, for as long as the
    /// page lives. At each of those moments the caller issues
    /// [`ChatApp::poll_messages`].
    pub fn start_polling(&self) -> (schedule: PollSchedule)
        ensures
            schedule.interval_ms == POLL_INTERVAL_MS,
    {
        PollSchedule { interval_ms: POLL_INTERVAL_MS }
    }
}

} // verus!
