use chat_app::clock::ClockTime;
use chat_app::message::Message;
use chat_app::render::{render_nodes, view_node, view_nodes, Ownership, ViewNode};
use chat_app::session::ChatApp;

fn message(id: u32, content: &str, timestamp: u64, sender: &str) -> Message {
    Message::new(id, content.to_string(), timestamp, sender.to_string())
}

fn at(hours: u32, minutes: u32) -> ClockTime {
    ClockTime { hours, minutes }
}

fn node(class: &str, sender: &str, content: &str, time: &str) -> String {
    format!(
        "<div class=\"{}\">\n                    <div class=\"sender\">{}</div>\n                    <div class=\"content\">{}</div>\n                    <div class=\"timestamp\">{}</div>\n                </div>",
        class, sender, content, time
    )
}

fn two_party_session() -> ChatApp {
    let mut app = ChatApp::new("alice".to_string());
    app.replace(vec![
        message(1, "hi", 1_000, "alice"),
        message(2, "hey", 2_000, "bob"),
        message(3, "how are you?", 3_000, "alice"),
    ]);
    app
}

#[test]
fn ownership_goes_by_the_sender() {
    let alice = "alice".to_string();
    assert_eq!(Ownership::classify(&"alice".to_string(), &alice), Ownership::Own);
    assert_eq!(Ownership::classify(&"bob".to_string(), &alice), Ownership::Other);
    assert_eq!(Ownership::classify(&"Alice".to_string(), &alice), Ownership::Other);
    assert_eq!(Ownership::classify(&"alice ".to_string(), &alice), Ownership::Other);
    assert_eq!(Ownership::classify(&"".to_string(), &"".to_string()), Ownership::Own);
}

#[test]
fn class_names() {
    assert_eq!(Ownership::Own.class_name(), "message own");
    assert_eq!(Ownership::Other.class_name(), "message other");
}

#[test]
fn view_node_holds_what_is_shown() {
    let shown = view_node(&message(2, "hey", 2_000, "bob"), &"alice".to_string(), at(9, 5));
    assert_eq!(
        shown,
        ViewNode {
            ownership: Ownership::Other,
            sender: "bob".to_string(),
            content: "hey".to_string(),
            time: "09:05".to_string(),
        }
    );
}

#[test]
fn nodes_follow_the_store_order() {
    let app = two_party_session();
    let nodes = view_nodes(app.messages(), app.current_user(), &vec![at(0, 0), at(0, 1), at(0, 2)]);
    let shown: Vec<(Ownership, &str, &str)> =
        nodes.iter().map(|n| (n.ownership, n.content.as_str(), n.time.as_str())).collect();
    assert_eq!(
        shown,
        vec![
            (Ownership::Own, "hi", "00:00"),
            (Ownership::Other, "hey", "00:01"),
            (Ownership::Own, "how are you?", "00:02"),
        ]
    );
}

#[test]
fn rendering_twice_classifies_alike() {
    let app = two_party_session();
    let times = vec![at(22, 13), at(22, 14), at(22, 15)];
    let first = view_nodes(app.messages(), app.current_user(), &times);
    let second = view_nodes(app.messages(), app.current_user(), &times);
    assert_eq!(first, second);
    let other_times = vec![at(1, 1), at(2, 2), at(3, 3)];
    let third = view_nodes(app.messages(), app.current_user(), &other_times);
    let classes = |nodes: &Vec<ViewNode>| nodes.iter().map(|n| n.ownership).collect::<Vec<_>>();
    assert_eq!(classes(&first), classes(&third));
    assert_eq!(classes(&first), vec![Ownership::Own, Ownership::Other, Ownership::Own]);
    assert_eq!(app.render_messages(&times).html, app.render_messages(&times).html);
}

#[test]
fn classification_depends_on_the_viewer() {
    let list = vec![message(1, "hi", 1_000, "alice"), message(2, "hey", 2_000, "bob")];
    let times = vec![at(0, 0), at(0, 0)];
    let as_bob = view_nodes(&list, &"bob".to_string(), &times);
    assert_eq!(as_bob[0].ownership, Ownership::Other);
    assert_eq!(as_bob[1].ownership, Ownership::Own);
    let as_carol = view_nodes(&list, &"carol".to_string(), &times);
    assert_eq!(as_carol[0].ownership, Ownership::Other);
    assert_eq!(as_carol[1].ownership, Ownership::Other);
}

#[test]
fn empty_store_renders_to_nothing() {
    let app = ChatApp::new("alice".to_string());
    let update = app.render_messages(&Vec::new());
    assert_eq!(update.html, "");
    assert_eq!(update.element_id, "messages");
    assert!(update.scroll_to_bottom);
    assert_eq!(render_nodes(&Vec::new()), "");
}

#[test]
fn feed_markup_is_exact() {
    let app = two_party_session();
    let update = app.render_messages(&vec![at(22, 13), at(22, 14), at(7, 5)]);
    let expected = node("message own", "alice", "hi", "22:13")
        + &node("message other", "bob", "hey", "22:14")
        + &node("message own", "alice", "how are you?", "07:05");
    assert_eq!(update.html, expected);
    assert_eq!(update.element_id, "messages");
    assert!(update.scroll_to_bottom);
}

#[test]
fn single_node_markup_is_exact() {
    let mut app = ChatApp::new("alice".to_string());
    app.send_message("hi".to_string(), 1_700_000_000_000, "chat.example.com");
    let time = ClockTime::at_utc_offset(app.messages()[0].timestamp, 0);
    let update = app.render_messages(&vec![time]);
    assert_eq!(
        update.html,
        "<div class=\"message own\">\n                    <div class=\"sender\">alice</div>\n                    <div class=\"content\">hi</div>\n                    <div class=\"timestamp\">22:13</div>\n                </div>"
    );
}

#[test]
fn markup_is_not_escaped() {
    let mut app = ChatApp::new("<b>al</b>".to_string());
    app.send_message("<i>1 & 2</i>".to_string(), 0, "chat.example.com");
    let update = app.render_messages(&vec![at(0, 0)]);
    assert_eq!(update.html, node("message own", "<b>al</b>", "<i>1 & 2</i>", "00:00"));
}

#[test]
fn optimistic_message_shows_in_the_next_render() {
    let mut app = two_party_session();
    app.send_message(" new one ".to_string(), 4_000, "chat.example.com");
    let nodes = view_nodes(
        app.messages(),
        app.current_user(),
        &vec![at(0, 0), at(0, 0), at(0, 0), at(0, 4)],
    );
    assert_eq!(nodes.len(), 4);
    assert_eq!(nodes[3].content, "new one");
    assert_eq!(nodes[3].ownership, Ownership::Own);
    assert_eq!(nodes[3].time, "00:04");
}
