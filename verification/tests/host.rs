use chat_app::host::{
    Action, Trigger, UiEvent, FEED_ID, INPUT_ID, POLL_INTERVAL_MS, SEND_BUTTON_ID, SUBMIT_KEY,
};
use chat_app::message::Message;
use chat_app::session::ChatApp;

const HOST: &str = "chat.example.com";

fn message(id: u32, content: &str, timestamp: u64, sender: &str) -> Message {
    Message::new(id, content.to_string(), timestamp, sender.to_string())
}

#[test]
fn names_the_page_goes_by() {
    assert_eq!(FEED_ID, "messages");
    assert_eq!(INPUT_ID, "message-input");
    assert_eq!(SEND_BUTTON_ID, "send-button");
    assert_eq!(SUBMIT_KEY, "Enter");
    assert_eq!(POLL_INTERVAL_MS, 1_000);
}

#[test]
fn setup_asks_for_clicks_and_key_presses() {
    let app = ChatApp::new("alice".to_string());
    let bindings = app.setup_ui();
    assert_eq!(bindings.len(), 2);
    assert_eq!(bindings[0].element_id, "send-button");
    assert_eq!(bindings[0].trigger, Trigger::Click);
    assert_eq!(bindings[1].element_id, "message-input");
    assert_eq!(bindings[1].trigger, Trigger::KeyPress);
}

#[test]
fn only_clicks_and_enter_submit() {
    assert!(UiEvent::Click.submits());
    assert!(UiEvent::KeyPress("Enter".to_string()).submits());
    assert!(!UiEvent::KeyPress("a".to_string()).submits());
    assert!(!UiEvent::KeyPress("enter".to_string()).submits());
    assert!(!UiEvent::KeyPress("Enter ".to_string()).submits());
    assert!(!UiEvent::KeyPress("".to_string()).submits());
    assert!(!UiEvent::KeyPress("Escape".to_string()).submits());
}

#[test]
fn click_sends_what_was_typed() {
    let mut app = ChatApp::new("alice".to_string());
    let actions = app.on_ui_event(&UiEvent::Click, Some(" hi ".to_string()), 1_000, HOST);
    assert_eq!(actions.len(), 3);
    assert!(matches!(actions[0], Action::ClearInput));
    match &actions[1] {
        Action::Send(request) => {
            assert_eq!(request.url, "/api/messages");
            assert_eq!(request.body, Some(message(1, "hi", 1_000, "alice")));
        }
        other => panic!("unexpected action {:?}", other),
    }
    assert!(matches!(actions[2], Action::Render));
    assert_eq!(app.messages(), &vec![message(1, "hi", 1_000, "alice")]);
}

#[test]
fn enter_sends_what_was_typed() {
    let mut app = ChatApp::new("alice".to_string());
    let event = UiEvent::KeyPress("Enter".to_string());
    let actions = app.on_ui_event(&event, Some("hello".to_string()), 5, HOST);
    assert_eq!(actions.len(), 3);
    assert!(matches!(actions[0], Action::ClearInput));
    assert!(matches!(actions[1], Action::Send(_)));
    assert!(matches!(actions[2], Action::Render));
    assert_eq!(app.messages(), &vec![message(1, "hello", 5, "alice")]);
}

#[test]
fn other_keys_do_nothing() {
    let mut app = ChatApp::new("alice".to_string());
    for key in ["a", "Shift", "Escape", " ", "enter"] {
        let event = UiEvent::KeyPress(key.to_string());
        let actions = app.on_ui_event(&event, Some("hello".to_string()), 5, HOST);
        assert!(actions.is_empty(), "{:?}", key);
        assert!(app.messages().is_empty(), "{:?}", key);
        assert_eq!(app.last_id(), 0);
    }
}

#[test]
fn blank_input_is_cleared_and_not_sent() {
    let mut app = ChatApp::new("alice".to_string());
    let actions = app.on_ui_event(&UiEvent::Click, Some("   ".to_string()), 5, HOST);
    assert_eq!(actions.len(), 1);
    assert!(matches!(actions[0], Action::ClearInput));
    assert!(app.messages().is_empty());
    assert_eq!(app.last_id(), 0);
}

#[test]
fn page_without_an_input_sends_nothing() {
    let mut app = ChatApp::new("alice".to_string());
    assert!(app.on_ui_event(&UiEvent::Click, None, 5, HOST).is_empty());
    let enter = UiEvent::KeyPress("Enter".to_string());
    assert!(app.on_ui_event(&enter, None, 5, HOST).is_empty());
    assert!(app.messages().is_empty());
}
