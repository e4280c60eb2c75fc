use lm_studio_chat::chat_app::{
    ChatApp, Command, Message, DEFAULT_CONVERSATION_NAME, FAILURE_PREFIX, MODEL, TITLE,
};
use lm_studio_chat::conversation::{ChatMessage, SavedConversation};

fn message(content: &str, is_user: bool, timestamp: &str) -> ChatMessage {
    ChatMessage { content: content.to_string(), is_user, timestamp: timestamp.to_string() }
}

fn conversation(name: &str, contents: &[&str]) -> SavedConversation {
    SavedConversation {
        name: name.to_string(),
        messages: contents.iter().map(|c| message(c, true, "09:00")).collect(),
    }
}

fn app_with(saved: Vec<SavedConversation>) -> ChatApp {
    ChatApp::new(Some(saved)).0
}

fn names(app: &ChatApp) -> Vec<String> {
    app.saved_conversations.iter().map(|c| c.name.clone()).collect()
}

fn contents(messages: &[ChatMessage]) -> Vec<(String, bool)> {
    messages.iter().map(|m| (m.content.clone(), m.is_user)).collect()
}

fn noon() -> String {
    "12:00".to_string()
}

#[test]
fn default_state_is_empty_and_unnamed() {
    let app = ChatApp::default();
    assert!(app.messages.is_empty());
    assert_eq!(app.input_value, "");
    assert_eq!(app.current_conversation_name, "Nowa rozmowa");
    assert_eq!(app.current_conversation_name, DEFAULT_CONVERSATION_NAME);
    assert!(app.saved_conversations.is_empty());
    assert!(!app.show_save_dialog);
    assert_eq!(app.save_name_input, "");
    assert_eq!(app.title(), "Chat z LM Studio");
    assert_eq!(TITLE, "Chat z LM Studio");
}

#[test]
fn new_takes_over_what_was_stored() {
    let (app, command) = ChatApp::new(Some(vec![conversation("a", &["x"]), conversation("b", &[])]));
    assert!(matches!(command, Command::Nothing));
    assert_eq!(names(&app), vec!["a", "b"]);
    assert_eq!(contents(&app.saved_conversations[0].messages), vec![("x".to_string(), true)]);
    assert!(app.messages.is_empty());
    assert_eq!(app.current_conversation_name, DEFAULT_CONVERSATION_NAME);
}

#[test]
fn unreadable_file_leaves_no_saved_conversation() {
    let (app, command) = ChatApp::new(None);
    assert!(matches!(command, Command::Nothing));
    assert!(app.saved_conversations.is_empty());
    assert!(app.messages.is_empty());
}

#[test]
fn load_conversations_replaces_the_collection() {
    let mut app = app_with(vec![conversation("old", &["x"])]);
    app.load_conversations(Some(vec![conversation("new", &["y"])]));
    assert_eq!(names(&app), vec!["new"]);
    app.load_conversations(None);
    assert!(app.saved_conversations.is_empty());
}

#[test]
fn loading_the_same_file_twice_gives_the_same_collection() {
    let stored = || Some(vec![conversation("a", &["x", "y"]), conversation("b", &["z"])]);
    let mut once = ChatApp::default();
    once.load_conversations(stored());
    let mut twice = ChatApp::default();
    twice.load_conversations(stored());
    twice.load_conversations(stored());
    assert_eq!(names(&once), names(&twice));
    for (a, b) in once.saved_conversations.iter().zip(twice.saved_conversations.iter()) {
        assert_eq!(contents(&a.messages), contents(&b.messages));
    }
}

#[test]
fn input_changed_replaces_the_buffer() {
    let mut app = ChatApp::default();
    let command = app.update(Message::InputChanged("he".to_string()), noon());
    assert!(matches!(command, Command::Nothing));
    assert_eq!(app.input_value, "he");
    app.update(Message::InputChanged("hello".to_string()), noon());
    assert_eq!(app.input_value, "hello");
    assert!(app.messages.is_empty());
}

#[test]
fn send_appends_one_user_message_and_empties_the_input() {
    let mut app = ChatApp::default();
    app.messages.push(message("earlier", false, "08:00"));
    app.update(Message::InputChanged("  hi there ".to_string()), noon());
    let command = app.update_at(Message::SendMessage, "10:15".to_string());
    assert_eq!(app.messages.len(), 2);
    assert_eq!(app.messages[1].content, "  hi there ");
    assert!(app.messages[1].is_user);
    assert_eq!(app.messages[1].timestamp, "10:15");
    assert_eq!(app.input_value, "");
    match command {
        Command::SendHistory { model, history } => {
            assert_eq!(model, "local-model");
            assert_eq!(model, MODEL);
            assert_eq!(history.len(), 2);
            assert_eq!(history[0].role, "assistant");
            assert_eq!(history[0].content, "earlier");
            assert_eq!(history[1].role, "user");
            assert_eq!(history[1].content, "  hi there ");
        }
        other => panic!("unexpected command {:?}", other),
    }
}

#[test]
fn send_with_blank_input_does_nothing() {
    for blank in ["", " ", "\t \n", "\u{3000}\u{a0}"] {
        let mut app = ChatApp::default();
        app.messages.push(message("earlier", true, "08:00"));
        app.update(Message::InputChanged(blank.to_string()), noon());
        let command = app.update(Message::SendMessage, noon());
        assert!(matches!(command, Command::Nothing), "{:?}", blank);
        assert_eq!(app.messages.len(), 1);
        assert_eq!(app.input_value, blank);
    }
}

#[test]
fn send_stamps_with_the_time_it_is_given() {
    let mut app = ChatApp::default();
    app.update(Message::InputChanged("hi".to_string()), String::new());
    assert!(app.stamps(&Message::SendMessage));
    let command = app.update(Message::SendMessage, "23:59".to_string());
    assert!(matches!(command, Command::SendHistory { .. }));
    assert_eq!(app.messages.len(), 1);
    assert_eq!(app.messages[0].timestamp, "23:59");
    app.update(Message::MessageReceived(Ok("yo".to_string())), "00:00".to_string());
    assert_eq!(app.messages[1].timestamp, "00:00");
}

#[test]
fn time_plays_no_part_where_nothing_is_stamped() {
    let mut app = app_with(vec![conversation("a", &["x"])]);
    assert!(!app.stamps(&Message::LoadConversation(0)));
    app.update(Message::LoadConversation(0), String::new());
    app.update(Message::ShowSaveDialog, "not a time".to_string());
    app.update(Message::SaveNameChanged("b".to_string()), String::new());
    let command = app.update(Message::ConfirmSave, String::new());
    assert!(matches!(command, Command::SaveConversations));
    assert_eq!(names(&app), vec!["a", "b"]);
    assert_eq!(app.messages.len(), 1);
    assert_eq!(app.messages[0].timestamp, "09:00");
    assert_eq!(app.saved_conversations[1].messages[0].timestamp, "09:00");
    let blank = app.update(Message::SendMessage, String::new());
    assert!(matches!(blank, Command::Nothing));
    assert_eq!(app.messages.len(), 1);
}

#[test]
fn update_and_update_at_agree() {
    let events = || {
        vec![
            Message::InputChanged("hi".to_string()),
            Message::SendMessage,
            Message::received(Ok("hello".to_string())),
            Message::ShowSaveDialog,
            Message::SaveNameChanged("kept".to_string()),
            Message::ConfirmSave,
            Message::ClearChat,
            Message::LoadConversation(0),
            Message::DeleteConversation(0),
        ]
    };
    let mut one = ChatApp::default();
    let mut other = ChatApp::default();
    for (a, b) in events().into_iter().zip(events()) {
        let left = one.update(a, "07:05".to_string());
        let right = other.update_at(b, "07:05".to_string());
        assert_eq!(format!("{:?}", left), format!("{:?}", right));
        assert_eq!(format!("{:?}", one), format!("{:?}", other));
    }
}

#[test]
fn reply_is_appended_as_the_assistant() {
    let mut app = ChatApp::default();
    app.update(Message::InputChanged("hi".to_string()), noon());
    app.update(Message::SendMessage, noon());
    let command = app.update(Message::received(Ok("hello".to_string())), noon());
    assert!(matches!(command, Command::Nothing));
    assert_eq!(
        contents(&app.messages),
        vec![("hi".to_string(), true), ("hello".to_string(), false)]
    );
    assert!(!app.messages[0].timestamp.is_empty());
    assert!(!app.messages[1].timestamp.is_empty());
    assert_eq!(app.messages[0].timestamp, "12:00");
    assert_eq!(app.messages[1].timestamp, "12:00");
}

#[test]
fn failure_is_shown_in_the_transcript() {
    let mut app = ChatApp::default();
    app.update(Message::InputChanged("hi".to_string()), noon());
    app.update(Message::SendMessage, noon());
    let command = app.update(Message::received(Err("connection refused".to_string())), noon());
    assert!(matches!(command, Command::Nothing));
    assert_eq!(app.messages.len(), 2);
    assert!(!app.messages[1].is_user);
    assert!(app.messages[1].content.contains("connection refused"));
    assert_eq!(app.messages[1].content, "Błąd komunikacji z LM Studio: connection refused");
    assert_eq!(app.messages[1].content, format!("{}connection refused", FAILURE_PREFIX));
}

#[test]
fn received_keeps_a_reply_and_reports_a_failure() {
    match Message::received(Ok("fine".to_string())) {
        Message::MessageReceived(Ok(reply)) => assert_eq!(reply, "fine"),
        other => panic!("unexpected event {:?}", other),
    }
    match Message::received(Err("timed out".to_string())) {
        Message::MessageReceived(Err(report)) => {
            assert_eq!(report, "Błąd komunikacji z LM Studio: timed out")
        }
        other => panic!("unexpected event {:?}", other),
    }
}

#[test]
fn raw_failure_text_is_appended_as_it_is() {
    let mut app = ChatApp::default();
    app.update_at(Message::MessageReceived(Err("boom".to_string())), "11:00".to_string());
    assert_eq!(contents(&app.messages), vec![("boom".to_string(), false)]);
    assert_eq!(app.messages[0].timestamp, "11:00");
}

#[test]
fn new_conversation_clears_transcript_and_name() {
    let mut app = app_with(vec![conversation("kept", &["x"])]);
    app.update(Message::LoadConversation(0), noon());
    app.update(Message::InputChanged("draft".to_string()), noon());
    let command = app.update(Message::NewConversation, noon());
    assert!(matches!(command, Command::Nothing));
    assert!(app.messages.is_empty());
    assert_eq!(app.current_conversation_name, "Nowa rozmowa");
    assert_eq!(app.input_value, "draft");
    assert_eq!(names(&app), vec!["kept"]);
}

#[test]
fn load_conversation_copies_transcript_and_name() {
    let mut app = app_with(vec![conversation("a", &["x"]), conversation("b", &["y", "z"])]);
    let command = app.update(Message::LoadConversation(1), noon());
    assert!(matches!(command, Command::Nothing));
    assert_eq!(app.current_conversation_name, "b");
    assert_eq!(contents(&app.messages), vec![("y".to_string(), true), ("z".to_string(), true)]);
    app.update(Message::received(Ok("more".to_string())), noon());
    assert_eq!(app.messages.len(), 3);
    assert_eq!(app.saved_conversations[1].messages.len(), 2);
}

#[test]
fn load_conversation_out_of_range_does_nothing() {
    let mut app = app_with(vec![conversation("a", &["x"])]);
    app.messages.push(message("current", true, "08:00"));
    for index in [1, 2, usize::MAX] {
        let command = app.update(Message::LoadConversation(index), noon());
        assert!(matches!(command, Command::Nothing));
        assert_eq!(contents(&app.messages), vec![("current".to_string(), true)]);
        assert_eq!(app.current_conversation_name, DEFAULT_CONVERSATION_NAME);
    }
}

#[test]
fn delete_conversation_removes_the_entry_and_asks_to_save() {
    let mut app =
        app_with(vec![conversation("a", &[]), conversation("b", &[]), conversation("c", &[])]);
    let command = app.update(Message::DeleteConversation(1), noon());
    assert!(matches!(command, Command::SaveConversations));
    assert_eq!(names(&app), vec!["a", "c"]);
    let command = app.update(Message::DeleteConversation(1), noon());
    assert!(matches!(command, Command::SaveConversations));
    assert_eq!(names(&app), vec!["a"]);
}

#[test]
fn delete_conversation_out_of_range_changes_nothing_and_saves_nothing() {
    let mut app = app_with(vec![conversation("a", &["x"]), conversation("b", &[])]);
    for index in [2, 3, usize::MAX] {
        let command = app.update(Message::DeleteConversation(index), noon());
        assert!(matches!(command, Command::Nothing));
        assert_eq!(names(&app), vec!["a", "b"]);
    }
    let mut empty = ChatApp::default();
    assert!(matches!(empty.update(Message::DeleteConversation(0), noon()), Command::Nothing));
    assert!(empty.saved_conversations.is_empty());
}

#[test]
fn show_save_dialog_prefills_the_name() {
    let mut app = app_with(vec![conversation("trip", &["x"])]);
    app.update(Message::LoadConversation(0), noon());
    let command = app.update(Message::ShowSaveDialog, noon());
    assert!(matches!(command, Command::Nothing));
    assert!(app.show_save_dialog);
    assert_eq!(app.save_name_input, "trip");
}

#[test]
fn hide_save_dialog_clears_the_name() {
    let mut app = ChatApp::default();
    app.update(Message::ShowSaveDialog, noon());
    app.update(Message::SaveNameChanged("draft".to_string()), noon());
    let command = app.update(Message::HideSaveDialog, noon());
    assert!(matches!(command, Command::Nothing));
    assert!(!app.show_save_dialog);
    assert_eq!(app.save_name_input, "");
}

#[test]
fn save_name_changed_replaces_the_buffer() {
    let mut app = ChatApp::default();
    app.update(Message::ShowSaveDialog, noon());
    assert_eq!(app.save_name_input, DEFAULT_CONVERSATION_NAME);
    let command = app.update(Message::SaveNameChanged("Test".to_string()), noon());
    assert!(matches!(command, Command::Nothing));
    assert_eq!(app.save_name_input, "Test");
    assert!(app.show_save_dialog);
    app.update(Message::HideSaveDialog, noon());
    app.update(Message::SaveNameChanged("typed anyway".to_string()), noon());
    assert_eq!(app.save_name_input, "typed anyway");
    assert!(!app.show_save_dialog);
}

#[test]
fn confirm_save_does_not_ask_whether_the_dialog_is_open() {
    let mut app = ChatApp::default();
    app.messages.push(message("hi", true, "08:00"));
    app.update(Message::SaveNameChanged("Test".to_string()), noon());
    let command = app.update(Message::ConfirmSave, noon());
    assert!(matches!(command, Command::SaveConversations));
    assert_eq!(names(&app), vec!["Test"]);
    assert_eq!(app.current_conversation_name, "Test");
}

#[test]
fn confirm_save_with_empty_transcript_adds_no_entry() {
    let mut app = ChatApp::default();
    app.update(Message::ShowSaveDialog, noon());
    app.update(Message::SaveNameChanged("Test".to_string()), noon());
    let command = app.update(Message::ConfirmSave, noon());
    assert!(matches!(command, Command::Nothing));
    assert!(app.saved_conversations.is_empty());
    assert!(app.show_save_dialog);
    assert_eq!(app.save_name_input, "Test");
    assert_eq!(app.current_conversation_name, DEFAULT_CONVERSATION_NAME);
}

#[test]
fn confirm_save_with_blank_name_adds_no_entry() {
    for blank in ["", "   ", "\n\t"] {
        let mut app = ChatApp::default();
        app.messages.push(message("hi", true, "08:00"));
        app.update(Message::ShowSaveDialog, noon());
        app.update(Message::SaveNameChanged(blank.to_string()), noon());
        let command = app.update(Message::ConfirmSave, noon());
        assert!(matches!(command, Command::Nothing));
        assert!(app.saved_conversations.is_empty());
        assert!(app.show_save_dialog);
    }
}

#[test]
fn confirm_save_appends_a_new_name() {
    let mut app = app_with(vec![conversation("a", &["x"])]);
    app.messages.push(message("hi", true, "08:00"));
    app.messages.push(message("hello", false, "08:01"));
    app.update(Message::ShowSaveDialog, noon());
    app.update(Message::SaveNameChanged(" Test ".to_string()), noon());
    let command = app.update(Message::ConfirmSave, noon());
    assert!(matches!(command, Command::SaveConversations));
    assert_eq!(names(&app), vec!["a", " Test "]);
    assert_eq!(
        contents(&app.saved_conversations[1].messages),
        vec![("hi".to_string(), true), ("hello".to_string(), false)]
    );
    assert_eq!(app.saved_conversations[1].messages[1].timestamp, "08:01");
    assert_eq!(app.current_conversation_name, " Test ");
    assert!(!app.show_save_dialog);
    assert_eq!(app.save_name_input, "");
    assert_eq!(app.messages.len(), 2);
}

#[test]
fn confirm_save_replaces_an_existing_name_in_place() {
    let mut app =
        app_with(vec![conversation("a", &["x"]), conversation("b", &["y"]), conversation("c", &[])]);
    app.messages.push(message("fresh", true, "08:00"));
    app.update(Message::ShowSaveDialog, noon());
    app.update(Message::SaveNameChanged("b".to_string()), noon());
    let command = app.update(Message::ConfirmSave, noon());
    assert!(matches!(command, Command::SaveConversations));
    assert_eq!(names(&app), vec!["a", "b", "c"]);
    assert_eq!(contents(&app.saved_conversations[1].messages), vec![("fresh".to_string(), true)]);
    assert_eq!(contents(&app.saved_conversations[0].messages), vec![("x".to_string(), true)]);
    assert_eq!(app.current_conversation_name, "b");
}

#[test]
fn clear_chat_clears_the_transcript_only() {
    let mut app = app_with(vec![conversation("a", &["x"])]);
    app.update(Message::LoadConversation(0), noon());
    app.update(Message::InputChanged("draft".to_string()), noon());
    let command = app.update(Message::ClearChat, noon());
    assert!(matches!(command, Command::Nothing));
    assert!(app.messages.is_empty());
    assert_eq!(app.current_conversation_name, "a");
    assert_eq!(names(&app), vec!["a"]);
    assert_eq!(app.saved_conversations[0].messages.len(), 1);
    assert_eq!(app.input_value, "draft");
}

#[test]
fn events_are_processed_while_the_dialog_is_open() {
    let mut app = ChatApp::default();
    app.update(Message::ShowSaveDialog, noon());
    app.update(Message::InputChanged("hi".to_string()), noon());
    let command = app.update(Message::SendMessage, noon());
    assert!(matches!(command, Command::SendHistory { .. }));
    assert_eq!(app.messages.len(), 1);
    assert!(app.show_save_dialog);
}

#[test]
fn stamps_tells_which_events_read_the_clock() {
    let mut app = ChatApp::default();
    assert!(!app.stamps(&Message::SendMessage));
    assert!(app.stamps(&Message::MessageReceived(Ok(String::new()))));
    assert!(app.stamps(&Message::MessageReceived(Err(String::new()))));
    assert!(!app.stamps(&Message::ClearChat));
    assert!(!app.stamps(&Message::ConfirmSave));
    app.update(Message::InputChanged("x".to_string()), noon());
    assert!(app.stamps(&Message::SendMessage));
}

#[test]
fn cloned_event_is_the_same_event() {
    let event = Message::MessageReceived(Err("e".to_string()));
    match event.clone() {
        Message::MessageReceived(Err(e)) => assert_eq!(e, "e"),
        other => panic!("unexpected event {:?}", other),
    }
    assert!(matches!(Message::LoadConversation(4).clone(), Message::LoadConversation(4)));
    match Message::InputChanged("t".to_string()).clone() {
        Message::InputChanged(t) => assert_eq!(t, "t"),
        other => panic!("unexpected event {:?}", other),
    }
}

#[test]
fn saved_conversations_survive_a_restart() {
    let mut before = app_with(vec![conversation("a", &["x"])]);
    before.messages.push(message("hi", true, "08:00"));
    before.messages.push(message("hello", false, "08:01"));
    before.update(Message::ShowSaveDialog, noon());
    before.update(Message::SaveNameChanged("b".to_string()), noon());
    assert!(matches!(before.update(Message::ConfirmSave, noon()), Command::SaveConversations));
    let written: Vec<SavedConversation> = before.saved_conversations.to_vec();
    let (after, _) = ChatApp::new(Some(written));
    assert_eq!(names(&after), names(&before));
    assert_eq!(names(&after), vec!["a", "b"]);
    for (kept, was) in after.saved_conversations.iter().zip(before.saved_conversations.iter()) {
        assert_eq!(contents(&kept.messages), contents(&was.messages));
        for (m, n) in kept.messages.iter().zip(was.messages.iter()) {
            assert_eq!(m.timestamp, n.timestamp);
        }
    }
    assert!(after.messages.is_empty());
}
