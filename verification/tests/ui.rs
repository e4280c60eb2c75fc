use lm_studio_chat::chat_app::{ChatApp, Message};
use lm_studio_chat::conversation::{ChatMessage, SavedConversation};
use lm_studio_chat::ui::{
    create_chat_area, create_input_area, create_messages_view, create_save_dialog, create_screen,
    create_sidebar, Side, TextField,
};

fn message(content: &str, is_user: bool, timestamp: &str) -> ChatMessage {
    ChatMessage { content: content.to_string(), is_user, timestamp: timestamp.to_string() }
}

fn noon() -> String {
    "12:00".to_string()
}

fn sample() -> ChatApp {
    let mut app = ChatApp::new(Some(vec![
        SavedConversation { name: "first".to_string(), messages: vec![message("a", true, "01:00")] },
        SavedConversation { name: "second".to_string(), messages: Vec::new() },
    ]))
    .0;
    app.messages.push(message("hi", true, "10:00"));
    app.messages.push(message("hello", false, "10:01"));
    app.input_value = "draft".to_string();
    app.current_conversation_name = "current".to_string();
    app.save_name_input = "typed".to_string();
    app
}

#[test]
fn sidebar_lists_the_saved_conversations_in_order() {
    let sidebar = create_sidebar(&sample());
    assert!(matches!(sidebar.on_new, Message::NewConversation));
    assert_eq!(sidebar.rows.len(), 2);
    assert_eq!(sidebar.rows[0].name, "first");
    assert!(matches!(sidebar.rows[0].on_load, Message::LoadConversation(0)));
    assert!(matches!(sidebar.rows[0].on_delete, Message::DeleteConversation(0)));
    assert_eq!(sidebar.rows[1].name, "second");
    assert!(matches!(sidebar.rows[1].on_load, Message::LoadConversation(1)));
    assert!(matches!(sidebar.rows[1].on_delete, Message::DeleteConversation(1)));
}

#[test]
fn sidebar_of_no_conversation_has_no_row() {
    let sidebar = create_sidebar(&ChatApp::default());
    assert!(sidebar.rows.is_empty());
    assert!(matches!(sidebar.on_new, Message::NewConversation));
}

#[test]
fn sidebar_buttons_act_on_their_row() {
    let mut app = sample();
    let sidebar = create_sidebar(&app);
    app.update(sidebar.rows[0].on_load.clone(), noon());
    assert_eq!(app.current_conversation_name, "first");
    assert_eq!(app.messages.len(), 1);
    assert_eq!(app.messages[0].content, "a");
    app.update(sidebar.rows[0].on_delete.clone(), noon());
    assert_eq!(app.saved_conversations.len(), 1);
    assert_eq!(app.saved_conversations[0].name, "second");
}

#[test]
fn messages_view_puts_the_user_right_and_the_model_left() {
    let view = create_messages_view(&sample());
    assert_eq!(view.bubbles.len(), 2);
    assert_eq!(view.bubbles[0].content, "hi");
    assert_eq!(view.bubbles[0].timestamp, "10:00");
    assert_eq!(view.bubbles[0].side, Side::Right);
    assert_eq!(view.bubbles[1].content, "hello");
    assert_eq!(view.bubbles[1].timestamp, "10:01");
    assert_eq!(view.bubbles[1].side, Side::Left);
    assert!(create_messages_view(&ChatApp::default()).bubbles.is_empty());
}

#[test]
fn input_area_shows_the_pending_input() {
    let area = create_input_area(&sample());
    assert_eq!(area.value, "draft");
    assert_eq!(area.on_input, TextField::Input);
    assert!(matches!(area.on_submit, Message::SendMessage));
    assert!(matches!(area.on_send, Message::SendMessage));
}

#[test]
fn chat_area_has_header_transcript_and_input() {
    let area = create_chat_area(&sample());
    assert_eq!(area.title, "current");
    assert!(matches!(area.on_save, Message::ShowSaveDialog));
    assert!(matches!(area.on_clear, Message::ClearChat));
    assert_eq!(area.messages.bubbles.len(), 2);
    assert_eq!(area.messages.bubbles[1].content, "hello");
    assert_eq!(area.input.value, "draft");
}

#[test]
fn save_dialog_shows_the_typed_name() {
    let dialog = create_save_dialog(&sample());
    assert_eq!(dialog.name, "typed");
    assert_eq!(dialog.on_input, TextField::SaveName);
    assert!(matches!(dialog.on_submit, Message::ConfirmSave));
    assert!(matches!(dialog.on_cancel, Message::HideSaveDialog));
    assert!(matches!(dialog.on_confirm, Message::ConfirmSave));
}

#[test]
fn screen_has_the_dialog_only_while_it_is_open() {
    let mut app = sample();
    let closed = create_screen(&app);
    assert!(closed.save_dialog.is_none());
    assert_eq!(closed.sidebar.rows.len(), 2);
    assert_eq!(closed.chat_area.title, "current");
    app.update(Message::ShowSaveDialog, noon());
    let open = create_screen(&app);
    let dialog = open.save_dialog.expect("dialog");
    assert_eq!(dialog.name, "current");
    assert_eq!(open.sidebar.rows.len(), 2);
    assert_eq!(open.chat_area.messages.bubbles.len(), 2);
    app.update(Message::HideSaveDialog, noon());
    assert!(create_screen(&app).save_dialog.is_none());
}

#[test]
fn text_fields_raise_their_events() {
    match TextField::Input.changed("abc".to_string()) {
        Message::InputChanged(text) => assert_eq!(text, "abc"),
        other => panic!("unexpected event {:?}", other),
    }
    match TextField::SaveName.changed("name".to_string()) {
        Message::SaveNameChanged(text) => assert_eq!(text, "name"),
        other => panic!("unexpected event {:?}", other),
    }
}

#[test]
fn typing_and_pressing_send_goes_through_the_screen() {
    let mut app = ChatApp::default();
    let area = create_input_area(&app);
    app.update(area.on_input.changed("hi".to_string()), noon());
    assert_eq!(create_input_area(&app).value, "hi");
    app.update(area.on_send.clone(), noon());
    assert_eq!(create_messages_view(&app).bubbles.len(), 1);
    assert_eq!(create_input_area(&app).value, "");
}
