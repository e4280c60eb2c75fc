//! The application state and its transitions: every event maps the state to
//! a new state and to at most one follow-up command for the caller to carry
//! out.

use crate::clock::is_clock_label;
use crate::conversation::{
    clone_transcript, first_named, has_name, history, history_of, lemma_has_name_first,
    lemma_upsert_keeps_names_unique, names_unique, upsert, upsert_conversation, ChatMessage, ChatMessageView, SavedConversation, SavedConversationView,
};
use crate::lm_studio_client::{Message as LMMessage, MessageView as LMMessageView, USER_ROLE};
use crate::text::{is_blank, str_is_blank};
use vstd::prelude::*;
use vstd::string::StringExecFns;

verus! {

/// The name of a conversation that has not been saved yet.
pub const DEFAULT_CONVERSATION_NAME: &'static str = "Nowa rozmowa";

/// The model that transcripts are sent to.
pub const MODEL: &'static str = "local-model";

/// The title of the application's window.
pub const TITLE: &'static str = "Chat z LM Studio";

/// What the report of a failed exchange with the model begins with.
pub const FAILURE_PREFIX: &'static str = "Błąd komunikacji z LM Studio: ";

/// The whole state of the application.
#[derive(Debug)]
pub struct ChatApp {
    pub messages: Vec<ChatMessage>,
    pub input_value: String,
    pub current_conversation_name: String,
    pub saved_conversations: Vec<SavedConversation>,
    pub show_save_dialog: bool,
    pub save_name_input: String,
}

/// What a [`ChatApp`] holds.
#[verifier::ext_equal]
pub ghost struct ChatAppView {
    pub messages: Seq<ChatMessageView>,
    pub input_value: Seq<char>,
    pub current_conversation_name: Seq<char>,
    pub saved_conversations: Seq<SavedConversationView>,
    pub show_save_dialog: bool,
    pub save_name_input: Seq<char>,
}

impl View for ChatApp {
    type V = ChatAppView;

    open spec fn view(&self) -> ChatAppView {
        ChatAppView {
            messages: self.messages.deep_view(),
            input_value: self.input_value@,
            current_conversation_name: self.current_conversation_name@,
            saved_conversations: self.saved_conversations.deep_view(),
            show_save_dialog: self.show_save_dialog,
            save_name_input: self.save_name_input@,
        }
    }
}

/// An event that the state reacts to.
#[derive(Debug)]
pub enum Message {
    InputChanged(String),
    SendMessage,
    NewConversation,
    LoadConversation(usize),
    DeleteConversation(usize),
    ShowSaveDialog,
    HideSaveDialog,
    SaveNameChanged(String),
    ConfirmSave,
    ClearChat,
    MessageReceived(Result<String, String>),
}

/// What a [`Message`] holds.
pub ghost enum MessageView {
    InputChanged(Seq<char>),
    SendMessage,
    NewConversation,
    LoadConversation(int),
    DeleteConversation(int),
    ShowSaveDialog,
    HideSaveDialog,
    SaveNameChanged(Seq<char>),
    ConfirmSave,
    ClearChat,
    MessageReceived(Result<Seq<char>, Seq<char>>),
}

impl View for Message {
    type V = MessageView;

    open spec fn view(&self) -> MessageView {
        match *self {
            Message::InputChanged(value) => MessageView::InputChanged(value@),
            Message::SendMessage => MessageView::SendMessage,
            Message::NewConversation => MessageView::NewConversation,
            Message::LoadConversation(index) => MessageView::LoadConversation(index as int),
            Message::DeleteConversation(index) => MessageView::DeleteConversation(index as int),
            Message::ShowSaveDialog => MessageView::ShowSaveDialog,
            Message::HideSaveDialog => MessageView::HideSaveDialog,
            Message::SaveNameChanged(name) => MessageView::SaveNameChanged(name@),
            Message::ConfirmSave => MessageView::ConfirmSave,
            Message::ClearChat => MessageView::ClearChat,
            Message::MessageReceived(Ok(reply)) => MessageView::MessageReceived(Ok(reply@)),
            Message::MessageReceived(Err(failure)) => MessageView::MessageReceived(Err(failure@)),
        }
    }
}

impl Clone for Message {
    fn clone(&self) -> (copy: Self)
        ensures
            copy@ == self@,
    {
        match self {
            Message::InputChanged(value) => Message::InputChanged(value.clone()),
            Message::SendMessage => Message::SendMessage,
            Message::NewConversation => Message::NewConversation,
            Message::LoadConversation(index) => Message::LoadConversation(*index),
            Message::DeleteConversation(index) => Message::DeleteConversation(*index),
            Message::ShowSaveDialog => Message::ShowSaveDialog,
            Message::HideSaveDialog => Message::HideSaveDialog,
            Message::SaveNameChanged(name) => Message::SaveNameChanged(name.clone()),
            Message::ConfirmSave => Message::ConfirmSave,
            Message::ClearChat => Message::ClearChat,
            Message::MessageReceived(Ok(reply)) => Message::MessageReceived(Ok(reply.clone())),
            Message::MessageReceived(Err(failure)) => Message::MessageReceived(
                Err(failure.clone()),
            ),
        }
    }
}

/// What the transcript shows for the outcome of an exchange with the model:
/// the reply, or the report of the failure that `Err` describes.
pub open spec fn outcome_text(outcome: Result<Seq<char>, Seq<char>>) -> Result<
    Seq<char>,
    Seq<char>,
> {
    match outcome {
        Ok(reply) => Ok(reply),
        Err(description) => Err(FAILURE_PREFIX@ + description),
    }
}

impl Message {
    /// The event that hands the outcome of an exchange with the model back
    /// to the state: the reply as it came, or the description of what went
    /// wrong made into a report.
    pub fn received(outcome: Result<String, String>) -> (event: Message)
        ensures
            event@ == MessageView::MessageReceived(
                outcome_text(
                    match outcome {
                        Ok(reply) => Ok(reply@),
                        Err(description) => Err(description@),
                    },
                ),
            ),
    {
        match outcome {
            Ok(reply) => Message::MessageReceived(Ok(reply)),
            Err(description) => {
                let report = String::from_str(FAILURE_PREFIX).concat(description.as_str());
                Message::MessageReceived(Err(report))
            },
        }
    }
}

/// What the caller is to do after a transition.
#[derive(Debug)]
pub enum Command {
    /// Nothing.
    Nothing,
    /// Send `history` to `model`, and hand the outcome back as
    /// [`Message::MessageReceived`].
    SendHistory { model: String, history: Vec<LMMessage> },
    /// Write the saved conversations to their file.
    SaveConversations,
}

/// What a [`Command`] holds.
#[verifier::ext_equal]
pub ghost enum CommandView {
    Nothing,
    SendHistory { model: Seq<char>, history: Seq<LMMessageView> },
    SaveConversations,
}

impl View for Command {
    type V = CommandView;

    open spec fn view(&self) -> CommandView {
        match *self {
            Command::Nothing => CommandView::Nothing,
            Command::SendHistory { model, history } => CommandView::SendHistory {
                model: model@,
                history: history.deep_view(),
            },
            Command::SaveConversations => CommandView::SaveConversations,
        }
    }
}

/// The state that the application starts in.
pub open spec fn initial() -> ChatAppView {
    ChatAppView {
        messages: Seq::empty(),
        input_value: Seq::empty(),
        current_conversation_name: DEFAULT_CONVERSATION_NAME@,
        saved_conversations: Seq::empty(),
        show_save_dialog: false,
        save_name_input: Seq::empty(),
    }
}

/// The state after the saved conversations were read from their file:
/// `stored` is what the file held, `None` where there was no file or where
/// it could not be understood.
pub open spec fn loaded(s: ChatAppView, stored: Option<Seq<SavedConversationView>>) -> ChatAppView {
    ChatAppView {
        saved_conversations: match stored {
            Some(conversations) => conversations,
            None => Seq::empty(),
        },
        ..s
    }
}

/// Whether every message of `messages` is stamped with a clock label.
pub open spec fn stamps_are_labels(messages: Seq<ChatMessageView>) -> bool {
    forall|i: int| 0 <= i < messages.len() ==> is_clock_label((#[trigger] messages[i]).timestamp)
}

/// Whether every message that `s` holds, in the transcript and in the saved
/// conversations, is stamped with a clock label.
pub open spec fn well_stamped(s: ChatAppView) -> bool {
    &&& stamps_are_labels(s.messages)
    &&& forall|k: int|
        0 <= k < s.saved_conversations.len() ==> stamps_are_labels(
            (#[trigger] s.saved_conversations[k]).messages,
        )
}

/// Whether the transition from `s` on `m` stamps a message with the time.
pub open spec fn reads_clock(s: ChatAppView, m: MessageView) -> bool {
    match m {
        MessageView::SendMessage => !is_blank(s.input_value),
        MessageView::MessageReceived(_) => true,
        _ => false,
    }
}

/// The state with `content` appended to the transcript.
pub open spec fn with_message(
    s: ChatAppView,
    content: Seq<char>,
    is_user: bool,
    now: Seq<char>,
) -> ChatAppView {
    ChatAppView {
        messages: s.messages.push(ChatMessageView { content, is_user, timestamp: now }),
        ..s
    }
}

/// The transition on [`Message::SendMessage`]: a blank input is ignored;
/// any other is appended to the transcript as the user's message, the input
/// is emptied and the whole transcript goes to the model.
pub open spec fn send_step(s: ChatAppView, now: Seq<char>) -> (ChatAppView, CommandView) {
    if is_blank(s.input_value) {
        (s, CommandView::Nothing)
    } else {
        let appended = with_message(s, s.input_value, true, now);
        (
            ChatAppView { input_value: Seq::empty(), ..appended },
            CommandView::SendHistory { model: MODEL@, history: history_of(appended.messages) },
        )
    }
}

/// The transition on [`Message::ConfirmSave`]: with a blank name or an empty
/// transcript nothing happens; otherwise the transcript is saved under the
/// name, by insert-or-replace, the conversation takes that name, the dialog
/// closes and the collection is to be written out.
pub open spec fn confirm_save_step(s: ChatAppView) -> (ChatAppView, CommandView) {
    if is_blank(s.save_name_input) || s.messages.len() == 0 {
        (s, CommandView::Nothing)
    } else {
        (
            ChatAppView {
                saved_conversations: upsert(
                    s.saved_conversations,
                    SavedConversationView { name: s.save_name_input, messages: s.messages },
                ),
                current_conversation_name: s.save_name_input,
                show_save_dialog: false,
                save_name_input: Seq::empty(),
                ..s
            },
            CommandView::SaveConversations,
        )
    }
}

/// The transition function: the state and the command that follow from
/// state `s` on event `m`, where a message stamped in the transition
/// carries the time `now`.
pub open spec fn step(s: ChatAppView, m: MessageView, now: Seq<char>) -> (ChatAppView, CommandView) {
    match m {
        MessageView::InputChanged(value) => (
            ChatAppView { input_value: value, ..s },
            CommandView::Nothing,
        ),
        MessageView::SendMessage => send_step(s, now),
        MessageView::MessageReceived(Ok(reply)) => (
            with_message(s, reply, false, now),
            CommandView::Nothing,
        ),
        MessageView::MessageReceived(Err(failure)) => (
            with_message(s, failure, false, now),
            CommandView::Nothing,
        ),
        MessageView::NewConversation => (
            ChatAppView {
                messages: Seq::empty(),
                current_conversation_name: DEFAULT_CONVERSATION_NAME@,
                ..s
            },
            CommandView::Nothing,
        ),
        MessageView::LoadConversation(index) => if 0 <= index < s.saved_conversations.len() {
            (
                ChatAppView {
                    messages: s.saved_conversations[index].messages,
                    current_conversation_name: s.saved_conversations[index].name,
                    ..s
                },
                CommandView::Nothing,
            )
        } else {
            (s, CommandView::Nothing)
        },
        MessageView::DeleteConversation(index) => if 0 <= index < s.saved_conversations.len() {
            (
                ChatAppView { saved_conversations: s.saved_conversations.remove(index), ..s },
                CommandView::SaveConversations,
            )
        } else {
            (s, CommandView::Nothing)
        },
        MessageView::ShowSaveDialog => (
            ChatAppView {
                show_save_dialog: true,
                save_name_input: s.current_conversation_name,
                ..s
            },
            CommandView::Nothing,
        ),
        MessageView::HideSaveDialog => (
            ChatAppView { show_save_dialog: false, save_name_input: Seq::empty(), ..s },
            CommandView::Nothing,
        ),
        MessageView::SaveNameChanged(name) => (
            ChatAppView { save_name_input: name, ..s },
            CommandView::Nothing,
        ),
        MessageView::ConfirmSave => confirm_save_step(s),
        MessageView::ClearChat => (ChatAppView { messages: Seq::empty(), ..s }, CommandView::Nothing),
    }
}

impl Default for ChatApp {
    fn default() -> (app: Self)
        ensures
            app@ == initial(),
    {
        let app = ChatApp {
            messages: Vec::new(),
            input_value: String::new(),
            current_conversation_name: String::from_str(DEFAULT_CONVERSATION_NAME),
            saved_conversations: Vec::new(),
            show_save_dialog: false,
            save_name_input: String::new(),
        };
        assert(app.messages.deep_view() =~= Seq::empty());
        assert(app.saved_conversations.deep_view() =~= Seq::empty());
        app
    }
}

impl ChatApp {
    /// The application at start-up: the initial state with the saved
    /// conversations that were `stored` in the file, and nothing to do.
    pub fn new(stored: Option<Vec<SavedConversation>>) -> (start: (ChatApp, Command))
        ensures
            start.0@ == loaded(initial(), stored.deep_view()),
            start.1@ == CommandView::Nothing,
    {
        let mut app = ChatApp::default();
        app.load_conversations(stored);
        (app, Command::Nothing)
    }

    /// The title of the application's window.
    pub fn title(&self) -> (title: String)
        ensures
            title@ == TITLE@,
    {
        String::from_str(TITLE)
    }

    /// Takes over the saved conversations that were read from the file;
    /// `None` stands for a file that is missing or cannot be understood, and
    /// leaves no saved conversation.
    pub fn load_conversations(&mut self, stored: Option<Vec<SavedConversation>>)
        ensures
            final(self)@ == loaded(old(self)@, stored.deep_view()),
    {
        match stored {
            Some(conversations) => {
                self.saved_conversations = conversations;
            },
            None => {
                self.saved_conversations = Vec::new();
                assert(self.saved_conversations.deep_view() =~= Seq::empty());
            },
        }
    }

    /// Whether the transition on `message` stamps a message with the time.
    pub fn stamps(&self, message: &Message) -> (stamps: bool)
        ensures
            stamps == reads_clock(self@, message@),
    {
        match message {
            Message::SendMessage => !str_is_blank(self.input_value.as_str()),
            Message::MessageReceived(_) => true,
            _ => false,
        }
    }

    /// Reacts to `message` at the time of day `now`, which the caller read
    /// off the clock. Where the transition stamps a message, `now` is to be
    /// a clock label; where it stamps none, `now` plays no part. A state
    /// whose messages all carry clock labels stays so.
    pub fn update(&mut self, message: Message, now: String) -> (command: Command)
        requires
            reads_clock(old(self)@, message@) ==> is_clock_label(now@),
        ensures
            (final(self)@, command@) == step(old(self)@, message@, now@),
            well_stamped(old(self)@) ==> well_stamped(final(self)@),
    {
        proof {
            if well_stamped(self@) {
                lemma_step_keeps_stamps(self@, message@, now@);
            }
        }
        self.update_at(message, now)
    }

    /// Reacts to `message`, stamping what the transition appends with
    /// `now`, whatever text that is.
    pub fn update_at(&mut self, message: Message, now: String) -> (command: Command)
        ensures
            (final(self)@, command@) == step(old(self)@, message@, now@),
    {
        match message {
            Message::InputChanged(value) => {
                self.input_value = value;
                Command::Nothing
            },
            Message::SendMessage => {
                if !str_is_blank(self.input_value.as_str()) {
                    let user_message = ChatMessage {
                        content: self.input_value.clone(),
                        is_user: true,
                        timestamp: now,
                    };
                    self.push_message(user_message);
                    self.input_value = String::new();
                    let history = history(&self.messages);
                    Command::SendHistory { model: String::from_str(MODEL), history }
                } else {
                    Command::Nothing
                }
            },
            Message::MessageReceived(result) => {
                let content = match result {
                    Ok(reply) => reply,
                    Err(failure) => failure,
                };
                self.push_message(ChatMessage { content, is_user: false, timestamp: now });
                Command::Nothing
            },
            Message::NewConversation => {
                self.clear_messages();
                self.current_conversation_name = String::from_str(DEFAULT_CONVERSATION_NAME);
                Command::Nothing
            },
            Message::LoadConversation(index) => {
                if index < self.saved_conversations.len() {
                    self.messages = clone_transcript(&self.saved_conversations[index].messages);
                    self.current_conversation_name = self.saved_conversations[index].name.clone();
                }
                Command::Nothing
            },
            Message::DeleteConversation(index) => {
                if index < self.saved_conversations.len() {
                    self.saved_conversations.remove(index);
                    assert(self.saved_conversations.deep_view() =~= old(
                        self,
                    ).saved_conversations.deep_view().remove(index as int));
                    Command::SaveConversations
                } else {
                    Command::Nothing
                }
            },
            Message::ShowSaveDialog => {
                self.show_save_dialog = true;
                self.save_name_input = self.current_conversation_name.clone();
                Command::Nothing
            },
            Message::HideSaveDialog => {
                self.show_save_dialog = false;
                self.save_name_input = String::new();
                Command::Nothing
            },
            Message::SaveNameChanged(name) => {
                self.save_name_input = name;
                Command::Nothing
            },
            Message::ConfirmSave => {
                if !str_is_blank(self.save_name_input.as_str()) && self.messages.len() > 0 {
                    let conversation = SavedConversation {
                        name: self.save_name_input.clone(),
                        messages: clone_transcript(&self.messages),
                    };
                    upsert_conversation(&mut self.saved_conversations, conversation);
                    self.current_conversation_name = self.save_name_input.clone();
                    self.show_save_dialog = false;
                    self.save_name_input = String::new();
                    Command::SaveConversations
                } else {
                    Command::Nothing
                }
            },
            Message::ClearChat => {
                self.clear_messages();
                Command::Nothing
            },
        }
    }

    fn push_message(&mut self, message: ChatMessage)
        ensures
            final(self)@ == (ChatAppView {
                messages: old(self)@.messages.push(message@),
                ..old(self)@
            }),
    {
        self.messages.push(message);
        assert(self.messages.deep_view() =~= old(self).messages.deep_view().push(message@));
    }

    fn clear_messages(&mut self)
        ensures
            final(self)@ == (ChatAppView { messages: Seq::empty(), ..old(self)@ }),
    {
        self.messages.clear();
        assert(self.messages.deep_view() =~= Seq::empty());
    }
}

/// Sending an input that is not blank appends exactly one message to the
/// transcript, the user's, with the input as its content; leaves the input
/// empty and the rest of the state as it was; and asks for the transcript to
/// be sent, the new message included.
pub proof fn lemma_send_appends_user_message(s: ChatAppView, now: Seq<char>)
    requires
        !is_blank(s.input_value),
    ensures
        ({
            let (after, command) = step(s, MessageView::SendMessage, now);
            &&& after.messages.len() == s.messages.len() + 1
            &&& after.messages.drop_last() == s.messages
            &&& after.messages.last() == (ChatMessageView {
                content: s.input_value,
                is_user: true,
                timestamp: now,
            })
            &&& after.input_value == Seq::<char>::empty()
            &&& after == (ChatAppView {
                messages: after.messages,
                input_value: after.input_value,
                ..s
            })
            &&& command == (CommandView::SendHistory {
                model: MODEL@,
                history: history_of(after.messages),
            })
            &&& history_of(after.messages).len() == s.messages.len() + 1
            &&& history_of(after.messages).last() == (LMMessageView {
                role: USER_ROLE@,
                content: s.input_value,
            })
        }),
{
    let (after, command) = step(s, MessageView::SendMessage, now);
    assert(after.messages.drop_last() =~= s.messages);
}

/// Sending a blank input changes nothing and asks for nothing.
pub proof fn lemma_send_blank_is_ignored(s: ChatAppView, now: Seq<char>)
    requires
        is_blank(s.input_value),
    ensures
        step(s, MessageView::SendMessage, now) == (s, CommandView::Nothing),
{
}

/// Whatever comes back from the model is shown: the reply, or else the
/// report of the failure, is appended to the transcript as the model's
/// message, and nothing else changes.
pub proof fn lemma_outcome_is_appended(
    s: ChatAppView,
    outcome: Result<Seq<char>, Seq<char>>,
    now: Seq<char>,
)
    ensures
        step(s, MessageView::MessageReceived(outcome), now) == (
            with_message(
                s,
                match outcome {
                    Ok(reply) => reply,
                    Err(report) => report,
                },
                false,
                now,
            ),
            CommandView::Nothing,
        ),
{
}

/// Reading the same file twice gives the same saved conversations both
/// times: they depend on the file alone, and a second reading changes
/// nothing.
pub proof fn lemma_load_twice(
    s: ChatAppView,
    t: ChatAppView,
    stored: Option<Seq<SavedConversationView>>,
)
    ensures
        loaded(s, stored).saved_conversations == loaded(t, stored).saved_conversations,
        loaded(loaded(s, stored), stored) == loaded(s, stored),
{
}

/// A state that takes over the saved conversations of another holds the same
/// conversations, in the same order.
pub proof fn lemma_load_restores_saved(s: ChatAppView, t: ChatAppView)
    ensures
        loaded(t, Some(s.saved_conversations)).saved_conversations == s.saved_conversations,
{
}

/// No transition makes two saved conversations share a name.
pub proof fn lemma_step_keeps_names_unique(s: ChatAppView, m: MessageView, now: Seq<char>)
    requires
        names_unique(s.saved_conversations),
    ensures
        names_unique(step(s, m, now).0.saved_conversations),
{
    match m {
        MessageView::ConfirmSave => {
            lemma_upsert_keeps_names_unique(
                s.saved_conversations,
                SavedConversationView { name: s.save_name_input, messages: s.messages },
            );
        },
        MessageView::DeleteConversation(index) => {
            if 0 <= index < s.saved_conversations.len() {
                let after = s.saved_conversations.remove(index);
                assert forall|i: int, j: int| 0 <= i < j < after.len() implies (
                #[trigger] after[i]).name != (#[trigger] after[j]).name by {
                    let a = if i < index { i } else { i + 1 };
                    let b = if j < index { j } else { j + 1 };
                    assert(after[i] == s.saved_conversations[a]);
                    assert(after[j] == s.saved_conversations[b]);
                }
            }
        },
        _ => {},
    }
}

/// The state that a sequence of events leads to from `s`: each event comes
/// with the time that its transition stamps with.
pub open spec fn run(s: ChatAppView, events: Seq<(MessageView, Seq<char>)>) -> ChatAppView
    decreases events.len(),
{
    if events.len() == 0 {
        s
    } else {
        step(run(s, events.drop_last()), events.last().0, events.last().1).0
    }
}

/// Where the saved conversations have distinct names, they keep distinct
/// names whatever happens.
pub proof fn lemma_run_keeps_names_unique(s: ChatAppView, events: Seq<(MessageView, Seq<char>)>)
    requires
        names_unique(s.saved_conversations),
    ensures
        names_unique(run(s, events).saved_conversations),
    decreases events.len(),
{
    if events.len() > 0 {
        lemma_run_keeps_names_unique(s, events.drop_last());
        lemma_step_keeps_names_unique(
            run(s, events.drop_last()),
            events.last().0,
            events.last().1,
        );
    }
}

/// Only a save that is confirmed and a deletion within range ask for the
/// saved conversations to be written out, and nothing else changes them.
pub proof fn lemma_save_command(s: ChatAppView, m: MessageView, now: Seq<char>)
    ensures
        step(s, m, now).1 is SaveConversations <==> ({
            ||| m is ConfirmSave && !is_blank(s.save_name_input) && s.messages.len() > 0
            ||| m matches MessageView::DeleteConversation(index) && 0 <= index
                < s.saved_conversations.len()
        }),
        !(step(s, m, now).1 is SaveConversations) ==> step(s, m, now).0.saved_conversations
            == s.saved_conversations,
{
}

/// Where every message carries a clock label and a transition stamps with
/// one, every message carries a clock label afterwards.
pub proof fn lemma_step_keeps_stamps(s: ChatAppView, m: MessageView, now: Seq<char>)
    requires
        well_stamped(s),
        reads_clock(s, m) ==> is_clock_label(now),
    ensures
        well_stamped(step(s, m, now).0),
{
    let after = step(s, m, now).0;
    match m {
        MessageView::ConfirmSave => {
            if !(is_blank(s.save_name_input) || s.messages.len() == 0) {
                let conversation = SavedConversationView {
                    name: s.save_name_input,
                    messages: s.messages,
                };
                assert(after.saved_conversations == upsert(s.saved_conversations, conversation));
                if has_name(s.saved_conversations, conversation.name) {
                    lemma_has_name_first(s.saved_conversations, conversation.name);
                }
                assert forall|k: int| 0 <= k < after.saved_conversations.len() implies stamps_are_labels(
                    (#[trigger] after.saved_conversations[k]).messages,
                ) by {
                    if has_name(s.saved_conversations, conversation.name) {
                        if k != first_named(s.saved_conversations, conversation.name) {
                            assert(after.saved_conversations[k] == s.saved_conversations[k]);
                        } else {
                            assert(after.saved_conversations[k] == conversation);
                        }
                    } else {
                        if k < s.saved_conversations.len() {
                            assert(after.saved_conversations[k] == s.saved_conversations[k]);
                        } else {
                            assert(after.saved_conversations[k] == conversation);
                        }
                    }
                }
            }
        },
        MessageView::DeleteConversation(index) => {
            if 0 <= index < s.saved_conversations.len() {
                assert forall|k: int| 0 <= k < after.saved_conversations.len() implies stamps_are_labels(
                    (#[trigger] after.saved_conversations[k]).messages,
                ) by {
                    let from = if k < index {
                        k
                    } else {
                        k + 1
                    };
                    assert(after.saved_conversations[k] == s.saved_conversations[from]);
                }
            }
        },
        MessageView::LoadConversation(index) => {
            if 0 <= index < s.saved_conversations.len() {
                assert(stamps_are_labels(s.saved_conversations[index].messages));
            }
        },
        _ => {},
    }
}

/// Where the stored conversations carry clock labels, so does the state at
/// start-up.
pub proof fn lemma_start_is_well_stamped(stored: Option<Seq<SavedConversationView>>)
    requires
        stored matches Some(conversations) ==> forall|k: int|
            0 <= k < conversations.len() ==> stamps_are_labels(
                (#[trigger] conversations[k]).messages,
            ),
    ensures
        well_stamped(loaded(initial(), stored)),
{
}

/// Where no message is stamped, the time plays no part in the transition.
pub proof fn lemma_step_without_clock(
    s: ChatAppView,
    m: MessageView,
    now: Seq<char>,
    other: Seq<char>,
)
    requires
        !reads_clock(s, m),
    ensures
        step(s, m, now) == step(s, m, other),
{
}

} // verus!
