//! The message feed: one view node per stored message, in store order, and
//! the markup that shows them.
//!
//! Sender names and message texts go into the markup as they are, without
//! escaping.

use crate::clock::{clock_text, format_timestamp, ClockTime};
use crate::message::{Message, MessageView};
use vstd::prelude::*;
use vstd::string::StringExecFns;

verus! {

/// Whose message a view node shows.
#[derive(Clone, Copy, Debug, PartialEq, Eq, Structural)]
pub enum Ownership {
    /// The viewer wrote it.
    Own,
    /// Somebody else wrote it.
    Other,
}

/// A message is the viewer's own exactly when its sender is the viewer.
pub open spec fn ownership_of(sender: Seq<char>, current_user: Seq<char>) -> Ownership {
    if sender == current_user {
        Ownership::Own
    } else {
        Ownership::Other
    }
}

/// The value of the `class` attribute of a node.
pub open spec fn class_name(ownership: Ownership) -> Seq<char> {
    match ownership {
        Ownership::Own => "message own"@,
        Ownership::Other => "message other"@,
    }
}

/// One entry of the feed.
#[derive(Debug, PartialEq, Eq)]
pub struct ViewNode {
    pub ownership: Ownership,
    pub sender: String,
    pub content: String,
    /// The time of day the message was written at, on the viewer's clock.
    pub time: String,
}

/// The mathematical value of a [`ViewNode`].
pub struct ViewNodeView {
    pub ownership: Ownership,
    pub sender: Seq<char>,
    pub content: Seq<char>,
    pub time: Seq<char>,
}

impl View for ViewNode {
    type V = ViewNodeView;

    open spec fn view(&self) -> ViewNodeView {
        ViewNodeView {
            ownership: self.ownership,
            sender: self.sender@,
            content: self.content@,
            time: self.time@,
        }
    }
}

impl DeepView for ViewNode {
    type V = ViewNodeView;

    open spec fn deep_view(&self) -> ViewNodeView {
        self@
    }
}

/// The node that shows `message` to `current_user`, whose clock read `time`
/// when the message was written.
pub open spec fn node_of(
    message: MessageView,
    current_user: Seq<char>,
    time: ClockTime,
) -> ViewNodeView {
    ViewNodeView {
        ownership: ownership_of(message.sender, current_user),
        sender: message.sender,
        content: message.content,
        time: clock_text(time.hours as nat, time.minutes as nat),
    }
}

/// The nodes of a feed: one per message, in the order of the messages.
pub open spec fn nodes_of(
    messages: Seq<MessageView>,
    current_user: Seq<char>,
    times: Seq<ClockTime>,
) -> Seq<ViewNodeView>
    recommends
        times.len() == messages.len(),
{
    Seq::new(messages.len(), |i: int| node_of(messages[i], current_user, times[i]))
}

/// The ownership of each message, in the order of the messages.
pub open spec fn ownerships_of(messages: Seq<MessageView>, current_user: Seq<char>) -> Seq<
    Ownership,
> {
    Seq::new(messages.len(), |i: int| ownership_of(messages[i].sender, current_user))
}

/// The markup of one node.
pub open spec fn node_html(node: ViewNodeView) -> Seq<char> {
    "<div class=\""@ + class_name(node.ownership)
        + "\">\n                    <div class=\"sender\">"@ + node.sender
        + "</div>\n                    <div class=\"content\">"@ + node.content
        + "</div>\n                    <div class=\"timestamp\">"@ + node.time
        + "</div>\n                </div>"@
}

/// The markup of a feed: the markup of its nodes, one after another.
pub open spec fn feed_html(nodes: Seq<ViewNodeView>) -> Seq<char>
    decreases nodes.len(),
{
    if nodes.len() == 0 {
        Seq::empty()
    } else {
        feed_html(nodes.drop_last()) + node_html(nodes.last())
    }
}

impl Ownership {
    /// Computes [`ownership_of`].
    pub fn classify(sender: &String, current_user: &String) -> (ownership: Ownership)
        ensures
            ownership == ownership_of(sender@, current_user@),
    {
        if *sender == *current_user {
            Ownership::Own
        } else {
            Ownership::Other
        }
    }

    /// Computes [`class_name`].
    pub fn class_name(&self) -> (name: &'static str)
        ensures
            name@ == class_name(*self),
    {
        match self {
            Ownership::Own => "message own",
            Ownership::Other => "message other",
        }
    }
}

/// Computes [`node_of`].
pub fn view_node(message: &Message, current_user: &String, time: ClockTime) -> (node: ViewNode)
    ensures
        node@ == node_of(message@, current_user@, time),
{
    ViewNode {
        ownership: Ownership::classify(&message.sender, current_user),
        sender: message.sender.clone(),
        content: message.content.clone(),
        time: format_timestamp(time),
    }
}

/// Computes [`nodes_of`].
pub fn view_nodes(messages: &Vec<Message>, current_user: &String, times: &Vec<ClockTime>) -> (nodes:
    Vec<ViewNode>)
    requires
        times.len() == messages.len(),
    ensures
        nodes.deep_view() == nodes_of(messages.deep_view(), current_user@, times@),
{
    let mut nodes: Vec<ViewNode> = Vec::new();
    let mut i: usize = 0;
    while i < messages.len()
        invariant
            i <= messages.len(),
            times.len() == messages.len(),
            nodes.len() == i,
            forall|j: int|
                0 <= j < i ==> nodes@[j]@ == node_of(messages@[j]@, current_user@, times@[j]),
        decreases messages.len() - i,
    {
        nodes.push(view_node(&messages[i], current_user, times[i]));
        i += 1;
    }
    nodes
}

/// Appends the markup of `node` to `out`.
pub fn push_node_html(out: &mut String, node: &ViewNode)
    ensures
        final(out)@ == old(out)@ + node_html(node@),
{
    out.append("<div class=\"");
    out.append(node.ownership.class_name());
    out.append("\">\n                    <div class=\"sender\">");
    out.append(node.sender.as_str());
    out.append("</div>\n                    <div class=\"content\">");
    out.append(node.content.as_str());
    out.append("</div>\n                    <div class=\"timestamp\">");
    out.append(node.time.as_str());
    out.append("</div>\n                </div>");
}

/// Computes [`feed_html`].
pub fn render_nodes(nodes: &Vec<ViewNode>) -> (html: String)
    ensures
        html@ == feed_html(nodes.deep_view()),
{
    let mut html = String::new();
    let mut i: usize = 0;
    while i < nodes.len()
        invariant
            i <= nodes.len(),
            html@ == feed_html(nodes.deep_view().take(i as int)),
        decreases nodes.len() - i,
    {
        push_node_html(&mut html, &nodes[i]);
        proof {
            let all = nodes.deep_view();
            let done = all.take(i + 1);
            assert(done.drop_last() =~= all.take(i as int));
        }
        i += 1;
    }
    assert(nodes.deep_view().take(nodes.len() as int) =~= nodes.deep_view());
    html
}

} // verus!
