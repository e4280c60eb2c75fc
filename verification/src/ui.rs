//! The screen as a description: what each region shows and which event each
//! control raises. It is derived from the state alone; drawing it is left to
//! the caller.

use crate::chat_app::{step, ChatApp, ChatAppView, Message, MessageView};
use vstd::prelude::*;

verus! {

/// A text field, named by the event that typing into it raises.
#[derive(Debug, Clone, Copy, PartialEq, Eq, Structural)]
pub enum TextField {
    /// The message being written.
    Input,
    /// The name in the save dialog.
    SaveName,
}

impl TextField {
    /// The event that `text` typed into the field raises.
    pub open spec fn changed_to(self, text: Seq<char>) -> MessageView {
        match self {
            TextField::Input => MessageView::InputChanged(text),
            TextField::SaveName => MessageView::SaveNameChanged(text),
        }
    }

    /// The event that `text` typed into the field raises.
    pub fn changed(self, text: String) -> (event: Message)
        ensures
            event@ == self.changed_to(text@),
    {
        match self {
            TextField::Input => Message::InputChanged(text),
            TextField::SaveName => Message::SaveNameChanged(text),
        }
    }
}

/// The side of the transcript that a message is drawn on.
#[derive(Debug, Clone, Copy, PartialEq, Eq, Structural)]
pub enum Side {
    /// The model's side.
    Left,
    /// The user's side.
    Right,
}

/// One saved conversation in the sidebar, with its two buttons.
#[derive(Debug)]
pub struct ConversationRow {
    pub name: String,
    pub on_load: Message,
    pub on_delete: Message,
}

/// What a [`ConversationRow`] holds.
pub ghost struct ConversationRowView {
    pub name: Seq<char>,
    pub on_load: MessageView,
    pub on_delete: MessageView,
}

impl View for ConversationRow {
    type V = ConversationRowView;

    open spec fn view(&self) -> ConversationRowView {
        ConversationRowView {
            name: self.name@,
            on_load: self.on_load@,
            on_delete: self.on_delete@,
        }
    }
}

impl DeepView for ConversationRow {
    type V = ConversationRowView;

    open spec fn deep_view(&self) -> ConversationRowView {
        self@
    }
}

/// The list of saved conversations, under a button for a new one.
#[derive(Debug)]
pub struct Sidebar {
    pub on_new: Message,
    pub rows: Vec<ConversationRow>,
}

/// What a [`Sidebar`] holds.
#[verifier::ext_equal]
pub ghost struct SidebarView {
    pub on_new: MessageView,
    pub rows: Seq<ConversationRowView>,
}

impl View for Sidebar {
    type V = SidebarView;

    open spec fn view(&self) -> SidebarView {
        SidebarView { on_new: self.on_new@, rows: self.rows.deep_view() }
    }
}

/// One message of the transcript as it is drawn.
#[derive(Debug)]
pub struct Bubble {
    pub content: String,
    pub timestamp: String,
    pub side: Side,
}

/// What a [`Bubble`] holds.
pub ghost struct BubbleView {
    pub content: Seq<char>,
    pub timestamp: Seq<char>,
    pub side: Side,
}

impl View for Bubble {
    type V = BubbleView;

    open spec fn view(&self) -> BubbleView {
        BubbleView { content: self.content@, timestamp: self.timestamp@, side: self.side }
    }
}

impl DeepView for Bubble {
    type V = BubbleView;

    open spec fn deep_view(&self) -> BubbleView {
        self@
    }
}

/// The transcript as it is drawn: a scrollable column of bubbles.
#[derive(Debug)]
pub struct MessagesView {
    pub bubbles: Vec<Bubble>,
}

impl View for MessagesView {
    type V = Seq<BubbleView>;

    open spec fn view(&self) -> Seq<BubbleView> {
        self.bubbles.deep_view()
    }
}

/// The line where a message is written, and its send button.
#[derive(Debug)]
pub struct InputArea {
    pub value: String,
    pub on_input: TextField,
    pub on_submit: Message,
    pub on_send: Message,
}

/// What an [`InputArea`] holds.
pub ghost struct InputAreaView {
    pub value: Seq<char>,
    pub on_input: TextField,
    pub on_submit: MessageView,
    pub on_send: MessageView,
}

impl View for InputArea {
    type V = InputAreaView;

    open spec fn view(&self) -> InputAreaView {
        InputAreaView {
            value: self.value@,
            on_input: self.on_input,
            on_submit: self.on_submit@,
            on_send: self.on_send@,
        }
    }
}

/// The conversation: a header with its name and two buttons, the
/// transcript, and the input line.
#[derive(Debug)]
pub struct ChatArea {
    pub title: String,
    pub on_save: Message,
    pub on_clear: Message,
    pub messages: MessagesView,
    pub input: InputArea,
}

/// What a [`ChatArea`] holds.
#[verifier::ext_equal]
pub ghost struct ChatAreaView {
    pub title: Seq<char>,
    pub on_save: MessageView,
    pub on_clear: MessageView,
    pub messages: Seq<BubbleView>,
    pub input: InputAreaView,
}

impl View for ChatArea {
    type V = ChatAreaView;

    open spec fn view(&self) -> ChatAreaView {
        ChatAreaView {
            title: self.title@,
            on_save: self.on_save@,
            on_clear: self.on_clear@,
            messages: self.messages@,
            input: self.input@,
        }
    }
}

/// The dialog that asks for the name to save the conversation under.
#[derive(Debug)]
pub struct SaveDialog {
    pub name: String,
    pub on_input: TextField,
    pub on_submit: Message,
    pub on_cancel: Message,
    pub on_confirm: Message,
}

/// What a [`SaveDialog`] holds.
pub ghost struct SaveDialogView {
    pub name: Seq<char>,
    pub on_input: TextField,
    pub on_submit: MessageView,
    pub on_cancel: MessageView,
    pub on_confirm: MessageView,
}

impl View for SaveDialog {
    type V = SaveDialogView;

    open spec fn view(&self) -> SaveDialogView {
        SaveDialogView {
            name: self.name@,
            on_input: self.on_input,
            on_submit: self.on_submit@,
            on_cancel: self.on_cancel@,
            on_confirm: self.on_confirm@,
        }
    }
}

/// The whole screen: sidebar and conversation side by side, and the save
/// dialog over them while it is open.
#[derive(Debug)]
pub struct Screen {
    pub sidebar: Sidebar,
    pub chat_area: ChatArea,
    pub save_dialog: Option<SaveDialog>,
}

/// What a [`Screen`] holds.
#[verifier::ext_equal]
pub ghost struct ScreenView {
    pub sidebar: SidebarView,
    pub chat_area: ChatAreaView,
    pub save_dialog: Option<SaveDialogView>,
}

impl View for Screen {
    type V = ScreenView;

    open spec fn view(&self) -> ScreenView {
        ScreenView {
            sidebar: self.sidebar@,
            chat_area: self.chat_area@,
            save_dialog: match self.save_dialog {
                Some(dialog) => Some(dialog@),
                None => None,
            },
        }
    }
}

/// The sidebar of state `s`: one row for each saved conversation, in order,
/// whose buttons load and delete the conversation at the row's position.
pub open spec fn sidebar_of(s: ChatAppView) -> SidebarView {
    SidebarView {
        on_new: MessageView::NewConversation,
        rows: Seq::new(
            s.saved_conversations.len(),
            |i: int|
                ConversationRowView {
                    name: s.saved_conversations[i].name,
                    on_load: MessageView::LoadConversation(i),
                    on_delete: MessageView::DeleteConversation(i),
                },
        ),
    }
}

/// The side that a message is drawn on.
pub open spec fn side_of(is_user: bool) -> Side {
    if is_user {
        Side::Right
    } else {
        Side::Left
    }
}

/// The transcript of state `s` as bubbles: one for each message, in order,
/// the user's on the right and the model's on the left.
pub open spec fn bubbles_of(s: ChatAppView) -> Seq<BubbleView> {
    Seq::new(
        s.messages.len(),
        |i: int|
            BubbleView {
                content: s.messages[i].content,
                timestamp: s.messages[i].timestamp,
                side: side_of(s.messages[i].is_user),
            },
    )
}

/// The input line of state `s`: it shows the pending input; typing changes
/// it, and both the return key and the button send it.
pub open spec fn input_area_of(s: ChatAppView) -> InputAreaView {
    InputAreaView {
        value: s.input_value,
        on_input: TextField::Input,
        on_submit: MessageView::SendMessage,
        on_send: MessageView::SendMessage,
    }
}

/// The conversation region of state `s`.
pub open spec fn chat_area_of(s: ChatAppView) -> ChatAreaView {
    ChatAreaView {
        title: s.current_conversation_name,
        on_save: MessageView::ShowSaveDialog,
        on_clear: MessageView::ClearChat,
        messages: bubbles_of(s),
        input: input_area_of(s),
    }
}

/// The save dialog of state `s`: it shows the name typed so far; the return
/// key and one button confirm, the other button cancels.
pub open spec fn save_dialog_of(s: ChatAppView) -> SaveDialogView {
    SaveDialogView {
        name: s.save_name_input,
        on_input: TextField::SaveName,
        on_submit: MessageView::ConfirmSave,
        on_cancel: MessageView::HideSaveDialog,
        on_confirm: MessageView::ConfirmSave,
    }
}

/// The screen of state `s`: the dialog is there exactly while it is open.
pub open spec fn screen_of(s: ChatAppView) -> ScreenView {
    ScreenView {
        sidebar: sidebar_of(s),
        chat_area: chat_area_of(s),
        save_dialog: if s.show_save_dialog {
            Some(save_dialog_of(s))
        } else {
            None
        },
    }
}

/// The buttons of a row act on the conversation that the row shows: one
/// loads it, the other deletes it.
pub proof fn lemma_row_acts_on_its_conversation(s: ChatAppView, i: int, now: Seq<char>)
    requires
        0 <= i < s.saved_conversations.len(),
    ensures
        sidebar_of(s).rows[i].name == s.saved_conversations[i].name,
        step(s, sidebar_of(s).rows[i].on_load, now).0 == (ChatAppView {
            messages: s.saved_conversations[i].messages,
            current_conversation_name: s.saved_conversations[i].name,
            ..s
        }),
        step(s, sidebar_of(s).rows[i].on_delete, now).0 == (ChatAppView {
            saved_conversations: s.saved_conversations.remove(i),
            ..s
        }),
{
}

/// Typing into a field puts the text into the buffer that the field shows.
pub proof fn lemma_typing_fills_the_field(s: ChatAppView, typed: Seq<char>, now: Seq<char>)
    ensures
        input_area_of(step(s, input_area_of(s).on_input.changed_to(typed), now).0).value == typed,
        save_dialog_of(step(s, save_dialog_of(s).on_input.changed_to(typed), now).0).name
            == typed,
{
}

/// Describes the sidebar.
pub fn create_sidebar(app: &ChatApp) -> (sidebar: Sidebar)
    ensures
        sidebar@ == sidebar_of(app@),
{
    let mut rows: Vec<ConversationRow> = Vec::new();
    let mut index: usize = 0;
    while index < app.saved_conversations.len()
        invariant
            index <= app.saved_conversations.len(),
            rows.len() == index,
            forall|j: int| 0 <= j < index ==> (#[trigger] rows[j])@ == sidebar_of(app@).rows[j],
        decreases app.saved_conversations.len() - index,
    {
        rows.push(
            ConversationRow {
                name: app.saved_conversations[index].name.clone(),
                on_load: Message::LoadConversation(index),
                on_delete: Message::DeleteConversation(index),
            },
        );
        index += 1;
    }
    assert(rows.deep_view() =~= sidebar_of(app@).rows);
    Sidebar { on_new: Message::NewConversation, rows }
}

/// Describes the conversation region: header, transcript and input line.
pub fn create_chat_area(app: &ChatApp) -> (area: ChatArea)
    ensures
        area@ == chat_area_of(app@),
{
    ChatArea {
        title: app.current_conversation_name.clone(),
        on_save: Message::ShowSaveDialog,
        on_clear: Message::ClearChat,
        messages: create_messages_view(app),
        input: create_input_area(app),
    }
}

/// Describes the transcript.
pub fn create_messages_view(app: &ChatApp) -> (view: MessagesView)
    ensures
        view@ == bubbles_of(app@),
{
    let mut bubbles: Vec<Bubble> = Vec::new();
    let mut index: usize = 0;
    while index < app.messages.len()
        invariant
            index <= app.messages.len(),
            bubbles.len() == index,
            forall|j: int| 0 <= j < index ==> (#[trigger] bubbles[j])@ == bubbles_of(app@)[j],
        decreases app.messages.len() - index,
    {
        let message = &app.messages[index];
        let side = if message.is_user {
            Side::Right
        } else {
            Side::Left
        };
        bubbles.push(
            Bubble { content: message.content.clone(), timestamp: message.timestamp.clone(), side },
        );
        index += 1;
    }
    assert(bubbles.deep_view() =~= bubbles_of(app@));
    MessagesView { bubbles }
}

/// Describes the input line.
pub fn create_input_area(app: &ChatApp) -> (area: InputArea)
    ensures
        area@ == input_area_of(app@),
{
    InputArea {
        value: app.input_value.clone(),
        on_input: TextField::Input,
        on_submit: Message::SendMessage,
        on_send: Message::SendMessage,
    }
}

/// Describes the save dialog.
pub fn create_save_dialog(app: &ChatApp) -> (dialog: SaveDialog)
    ensures
        dialog@ == save_dialog_of(app@),
{
    SaveDialog {
        name: app.save_name_input.clone(),
        on_input: TextField::SaveName,
        on_submit: Message::ConfirmSave,
        on_cancel: Message::HideSaveDialog,
        on_confirm: Message::ConfirmSave,
    }
}

/// Describes the whole screen.
pub fn create_screen(app: &ChatApp) -> (screen: Screen)
    ensures
        screen@ == screen_of(app@),
{
    let save_dialog = if app.show_save_dialog {
        Some(create_save_dialog(app))
    } else {
        None
    };
    Screen { sidebar: create_sidebar(app), chat_area: create_chat_area(app), save_dialog }
}

} // verus!
