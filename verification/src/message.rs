//! The chat message and the list of messages a server answers a poll with.

use vstd::prelude::*;

verus! {

/// One chat message, as it is stored, shown and put on the wire.
///
/// A message is a plain record: none of its fields is validated here, so a
/// message that came from the server is kept exactly as it was received.
#[derive(Debug, PartialEq, Eq)]
pub struct Message {
    /// Number the authoring client gave the message.
    pub id: u32,
    /// The text of the message.
    pub content: String,
    /// Milliseconds since the epoch, taken on the authoring client.
    pub timestamp: u64,
    /// Display name of the author.
    pub sender: String,
}

/// The mathematical value of a [`Message`].
pub struct MessageView {
    pub id: nat,
    pub content: Seq<char>,
    pub timestamp: nat,
    pub sender: Seq<char>,
}

impl View for Message {
    type V = MessageView;

    open spec fn view(&self) -> MessageView {
        MessageView {
            id: self.id as nat,
            content: self.content@,
            timestamp: self.timestamp as nat,
            sender: self.sender@,
        }
    }
}

impl DeepView for Message {
    type V = MessageView;

    open spec fn deep_view(&self) -> MessageView {
        self@
    }
}

impl Message {
    /// A message with the given fields, each taken as it is.
    pub fn new(id: u32, content: String, timestamp: u64, sender: String) -> (message: Message)
        ensures
            message@ == (MessageView {
                id: id as nat,
                content: content@,
                timestamp: timestamp as nat,
                sender: sender@,
            }),
    {
        Message { id, content, timestamp, sender }
    }
}

impl Clone for Message {
    fn clone(&self) -> (copy: Message)
        ensures
            copy@ == self@,
    {
        Message {
            id: self.id,
            content: self.content.clone(),
            timestamp: self.timestamp,
            sender: self.sender.clone(),
        }
    }
}

/// What the server answers a poll with: its full message history, oldest
/// first.
#[derive(Debug, PartialEq, Eq)]
pub struct ChatResponse {
    pub messages: Vec<Message>,
}

impl View for ChatResponse {
    type V = Seq<MessageView>;

    open spec fn view(&self) -> Seq<MessageView> {
        self.messages.deep_view()
    }
}

impl DeepView for ChatResponse {
    type V = Seq<MessageView>;

    open spec fn deep_view(&self) -> Seq<MessageView> {
        self@
    }
}

impl ChatResponse {
    /// A response that holds `messages` in the given order.
    pub fn new(messages: Vec<Message>) -> (response: ChatResponse)
        ensures
            response@ == messages.deep_view(),
    {
        ChatResponse { messages }
    }
}

} // verus!
