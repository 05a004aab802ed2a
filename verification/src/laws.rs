//! What holds of every session, whatever happens to it.

use crate::clock::{clock_text, ClockTime};
use crate::host::{ActionView, UiEventView};
use crate::message::MessageView;
use crate::render::{feed_html, node_of, nodes_of, ownership_of, ownerships_of, Ownership};
use crate::session::{ChatView, Step};
use crate::text::{is_blank, lemma_trimmed_empty_iff_blank, lemma_trimmed_is_trim_free, trimmed};
use vstd::prelude::*;

verus! {

/// A text as the store holds it: not empty, and with no whitespace around it.
pub open spec fn is_trimmed_text(text: Seq<char>) -> bool {
    text.len() > 0 && trimmed(text) == text
}

/// Whether every message of `messages` has a trimmed text.
pub open spec fn all_trimmed(messages: Seq<MessageView>) -> bool {
    forall|i: int| 0 <= i < messages.len() ==> is_trimmed_text(#[trigger] messages[i].content)
}

/// Whether every list that a poll of `steps` brings has trimmed texts only.
pub open spec fn polls_bring_trimmed(steps: Seq<Step>) -> bool {
    forall|i: int|
        0 <= i < steps.len() ==> (#[trigger] steps[i] matches Step::Poll { response: Some(list) }
            ==> all_trimmed(list))
}

/// Sending content that is not blank adds exactly one message, at the end of
/// the store and with everything before it left as it was. The message holds
/// the content trimmed, is the viewer's, and has a number larger than that of
/// the viewer's last message, which it becomes.
pub proof fn law_send_appends_one(session: ChatView, content: Seq<char>, now: nat)
    requires
        !is_blank(content),
    ensures
        ({
            let after = session.send(content, now);
            &&& after.messages.len() == session.messages.len() + 1
            &&& after.messages.drop_last() == session.messages
            &&& after.messages.last().content == trimmed(content)
            &&& after.messages.last().sender == session.current_user
            &&& after.messages.last().timestamp == now
            &&& after.messages.last().id > session.last_id
            &&& after.last_id == after.messages.last().id
            &&& after.current_user == session.current_user
        }),
{
}

/// The number of the viewer's last message never goes down.
pub proof fn law_last_id_never_decreases(session: ChatView, steps: Seq<Step>)
    ensures
        session.run(steps).last_id >= session.last_id,
        session.run(steps).current_user == session.current_user,
    decreases steps.len(),
{
    if steps.len() > 0 {
        law_last_id_never_decreases(session, steps.drop_last());
    }
}

/// Of two messages the viewer sends in one session, the later has the larger
/// number, whatever happened between the two.
pub proof fn law_sent_ids_increase(
    session: ChatView,
    first: Seq<char>,
    first_now: nat,
    between: Seq<Step>,
    second: Seq<char>,
    second_now: nat,
)
    requires
        !is_blank(first),
        !is_blank(second),
    ensures
        ({
            let earlier = session.send(first, first_now);
            let later = earlier.run(between).send(second, second_now);
            &&& earlier.messages.last().id == session.authored(first, first_now).id
            &&& later.messages.last().id == earlier.run(between).authored(second, second_now).id
            &&& later.messages.last().id > earlier.messages.last().id
        }),
{
    let earlier = session.send(first, first_now);
    law_last_id_never_decreases(earlier, between);
}

/// Sending blank content changes nothing and asks for nothing.
pub proof fn law_blank_send_changes_nothing(
    session: ChatView,
    content: Seq<char>,
    now: nat,
    host: Seq<char>,
)
    requires
        is_blank(content),
    ensures
        session.send(content, now) == session,
        session.send_actions(content, now, host) == Seq::<ActionView>::empty(),
{
}

/// Blank is what trims to nothing: empty content, and content made of
/// whitespace only.
pub proof fn law_blank_is_empty_or_whitespace(content: Seq<char>)
    ensures
        is_blank(content) <==> trimmed(content).len() == 0,
        content.len() == 0 ==> is_blank(content),
{
    lemma_trimmed_empty_iff_blank(content);
}

/// Replacing the store twice with one list leaves what replacing it once
/// leaves, and so does a poll that ends twice in the same way.
pub proof fn law_replace_is_idempotent(session: ChatView, messages: Seq<MessageView>)
    ensures
        session.replace(messages).replace(messages) == session.replace(messages),
        session.replace(messages).messages == messages,
        session.receive(Some(messages)).receive(Some(messages)) == session.receive(Some(messages)),
        session.receive(None) == session,
{
}

/// Which messages are shown as the viewer's own is decided by the stored
/// messages and the viewer's name alone: not by the times of day they are
/// shown with, nor by anything else in the session. With the same times, the
/// whole markup is the same too.
pub proof fn law_rendering_depends_on_store_and_viewer(
    one: ChatView,
    other: ChatView,
    one_times: Seq<ClockTime>,
    other_times: Seq<ClockTime>,
)
    requires
        one.messages == other.messages,
        one.current_user == other.current_user,
        one_times.len() == one.messages.len(),
        other_times.len() == other.messages.len(),
    ensures
        forall|i: int|
            0 <= i < one.messages.len() ==> {
                &&& (#[trigger] nodes_of(one.messages, one.current_user, one_times)[i]).ownership
                    == nodes_of(other.messages, other.current_user, other_times)[i].ownership
                &&& nodes_of(one.messages, one.current_user, one_times)[i].ownership
                    == ownerships_of(one.messages, one.current_user)[i]
                &&& ownerships_of(one.messages, one.current_user)[i] == ownership_of(
                    one.messages[i].sender,
                    one.current_user,
                )
            },
        one_times == other_times ==> feed_html(nodes_of(one.messages, one.current_user, one_times))
            == feed_html(nodes_of(other.messages, other.current_user, other_times)),
{
}

/// A message the viewer sends has a trimmed text.
pub proof fn law_authored_text_is_trimmed(session: ChatView, content: Seq<char>, now: nat)
    requires
        !is_blank(content),
    ensures
        is_trimmed_text(session.authored(content, now).content),
{
    lemma_trimmed_empty_iff_blank(content);
    lemma_trimmed_is_trim_free(content);
}

/// As long as the server's lists hold trimmed texts only, so does the store.
pub proof fn law_store_holds_trimmed_texts(session: ChatView, steps: Seq<Step>)
    requires
        all_trimmed(session.messages),
        polls_bring_trimmed(steps),
    ensures
        all_trimmed(session.run(steps).messages),
    decreases steps.len(),
{
    if steps.len() > 0 {
        let before = steps.drop_last();
        law_store_holds_trimmed_texts(session, before);
        let earlier = session.run(before);
        match steps.last() {
            Step::Send { content, now } => {
                if !is_blank(content) {
                    law_authored_text_is_trimmed(earlier, content, now);
                }
            },
            Step::Poll { .. } => {},
            Step::Ui { event, input, now } => {
                if ChatView::takes_input(event, input) && !is_blank(input->0) {
                    law_authored_text_is_trimmed(earlier, input->0, now);
                }
            },
        }
    }
}

/// What a click or a press of the submit key does to the session is what
/// sending the text of the input does; any other event does nothing.
pub proof fn law_ui_event_is_a_send_or_nothing(
    session: ChatView,
    event: UiEventView,
    input: Option<Seq<char>>,
    now: nat,
    host: Seq<char>,
)
    ensures
        event.submits() && input is Some ==> {
            &&& session.after_ui_event(event, input, now) == session.send(input->0, now)
            &&& session.ui_actions(event, input, now, host) == seq![ActionView::ClearInput]
                + session.send_actions(input->0, now, host)
        },
        !event.submits() || input is None ==> {
            &&& session.after_ui_event(event, input, now) == session
            &&& session.ui_actions(event, input, now, host) == Seq::<ActionView>::empty()
        },
{
}

/// A message shows in the feed as soon as it is sent: the redraw that
/// follows the send ends with its node, marked as the viewer's own.
pub proof fn law_sent_message_shows_at_once(
    session: ChatView,
    content: Seq<char>,
    now: nat,
    times: Seq<ClockTime>,
)
    requires
        !is_blank(content),
        times.len() == session.messages.len() + 1,
    ensures
        ({
            let after = session.send(content, now);
            let nodes = nodes_of(after.messages, after.current_user, times);
            &&& nodes.len() == session.messages.len() + 1
            &&& nodes.last() == node_of(
                session.authored(content, now),
                session.current_user,
                times.last(),
            )
            &&& nodes.last().ownership == Ownership::Own
            &&& nodes.last().content == trimmed(content)
            &&& nodes.last().time == clock_text(
                times.last().hours as nat,
                times.last().minutes as nat,
            )
            &&& nodes.drop_last() == nodes_of(
                session.messages,
                session.current_user,
                times.drop_last(),
            )
        }),
{
}

/// The server has the last word: after a poll that brought a list the store
/// is that list, whatever it held before, be it messages the viewer sent or
/// the list of another poll.
pub proof fn law_last_poll_wins(session: ChatView, steps: Seq<Step>, messages: Seq<MessageView>)
    ensures
        session.run(steps).receive(Some(messages)).messages == messages,
        session.run(steps).receive(Some(messages)).last_id == session.run(steps).last_id,
        session.run(steps).receive(None) == session.run(steps),
{
}

} // verus!
