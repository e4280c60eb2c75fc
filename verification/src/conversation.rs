//! Chat messages, transcripts and the collection of saved conversations.

use crate::lm_studio_client::{role_of, Message as LMMessage, MessageView as LMMessageView};
use vstd::prelude::*;

verus! {

/// The file that the saved conversations are kept in, relative to the
/// working directory.
pub const CONVERSATIONS_FILE: &'static str = "conversations.json";

/// One entry of a transcript.
#[derive(Debug)]
pub struct ChatMessage {
    pub content: String,
    pub is_user: bool,
    pub timestamp: String,
}

/// What a [`ChatMessage`] holds.
pub ghost struct ChatMessageView {
    pub content: Seq<char>,
    pub is_user: bool,
    pub timestamp: Seq<char>,
}

impl View for ChatMessage {
    type V = ChatMessageView;

    open spec fn view(&self) -> ChatMessageView {
        ChatMessageView {
            content: self.content@,
            is_user: self.is_user,
            timestamp: self.timestamp@,
        }
    }
}

impl DeepView for ChatMessage {
    type V = ChatMessageView;

    open spec fn deep_view(&self) -> ChatMessageView {
        self@
    }
}

impl Clone for ChatMessage {
    fn clone(&self) -> (copy: Self)
        ensures
            copy@ == self@,
    {
        ChatMessage {
            content: self.content.clone(),
            is_user: self.is_user,
            timestamp: self.timestamp.clone(),
        }
    }
}

/// A named snapshot of a transcript.
#[derive(Debug)]
pub struct SavedConversation {
    pub name: String,
    pub messages: Vec<ChatMessage>,
}

/// What a [`SavedConversation`] holds.
pub ghost struct SavedConversationView {
    pub name: Seq<char>,
    pub messages: Seq<ChatMessageView>,
}

impl View for SavedConversation {
    type V = SavedConversationView;

    open spec fn view(&self) -> SavedConversationView {
        SavedConversationView { name: self.name@, messages: self.messages.deep_view() }
    }
}

impl DeepView for SavedConversation {
    type V = SavedConversationView;

    open spec fn deep_view(&self) -> SavedConversationView {
        self@
    }
}

impl Clone for SavedConversation {
    fn clone(&self) -> (copy: Self)
        ensures
            copy@ == self@,
    {
        SavedConversation { name: self.name.clone(), messages: clone_transcript(&self.messages) }
    }
}

/// Copies a transcript, message by message.
pub fn clone_transcript(messages: &Vec<ChatMessage>) -> (copy: Vec<ChatMessage>)
    ensures
        copy.deep_view() == messages.deep_view(),
{
    let copy = messages.clone();
    assert(copy.deep_view() =~= messages.deep_view());
    copy
}

/// The transcript as the model is given it: every message under the role of
/// its author, in order.
pub open spec fn history_of(messages: Seq<ChatMessageView>) -> Seq<LMMessageView> {
    Seq::new(
        messages.len(),
        |i: int| LMMessageView { role: role_of(messages[i].is_user), content: messages[i].content },
    )
}

/// Builds the role-tagged history of a transcript.
pub fn history(messages: &Vec<ChatMessage>) -> (tagged: Vec<LMMessage>)
    ensures
        tagged.deep_view() == history_of(messages.deep_view()),
{
    let mut tagged: Vec<LMMessage> = Vec::new();
    let mut i: usize = 0;
    while i < messages.len()
        invariant
            i <= messages.len(),
            tagged.len() == i,
            forall|j: int|
                0 <= j < i ==> (#[trigger] tagged[j])@ == history_of(messages.deep_view())[j],
        decreases messages.len() - i,
    {
        tagged.push(LMMessage::authored(messages[i].is_user, messages[i].content.clone()));
        i += 1;
    }
    assert(tagged.deep_view() =~= history_of(messages.deep_view()));
    tagged
}

/// Whether some saved conversation is called `name`.
pub open spec fn has_name(saved: Seq<SavedConversationView>, name: Seq<char>) -> bool {
    exists|i: int| 0 <= i < saved.len() && (#[trigger] saved[i]).name == name
}

/// Whether `i` is the position of the first saved conversation called `name`.
pub open spec fn is_first_named(saved: Seq<SavedConversationView>, name: Seq<char>, i: int) -> bool {
    &&& 0 <= i < saved.len()
    &&& saved[i].name == name
    &&& forall|j: int| 0 <= j < i ==> (#[trigger] saved[j]).name != name
}

/// The position of the first saved conversation called `name`, where there is
/// one.
pub open spec fn first_named(saved: Seq<SavedConversationView>, name: Seq<char>) -> int {
    choose|i: int| is_first_named(saved, name, i)
}

/// No two saved conversations share a name.
pub open spec fn names_unique(saved: Seq<SavedConversationView>) -> bool {
    forall|i: int, j: int|
        0 <= i < j < saved.len() ==> (#[trigger] saved[i]).name != (#[trigger] saved[j]).name
}

/// The names of the saved conversations, in order.
pub open spec fn names(saved: Seq<SavedConversationView>) -> Seq<Seq<char>> {
    Seq::new(saved.len(), |i: int| saved[i].name)
}

/// Insert-or-replace keyed by name: the first conversation that carries the
/// name of `conversation` gives way to it, in place; where none does,
/// `conversation` goes to the end.
pub open spec fn upsert(
    saved: Seq<SavedConversationView>,
    conversation: SavedConversationView,
) -> Seq<SavedConversationView> {
    if has_name(saved, conversation.name) {
        saved.update(first_named(saved, conversation.name), conversation)
    } else {
        saved.push(conversation)
    }
}

/// At most one position is that of the first conversation called `name`, and
/// `first_named` is that position.
pub proof fn lemma_first_named_is(saved: Seq<SavedConversationView>, name: Seq<char>, i: int)
    requires
        is_first_named(saved, name, i),
    ensures
        has_name(saved, name),
        first_named(saved, name) == i,
{
    let k = first_named(saved, name);
    assert(is_first_named(saved, name, k));
    if k < i {
        assert(saved[k].name != name);
    } else if i < k {
        assert(saved[i].name != name);
    }
}

/// A name that occurs has a first position.
pub proof fn lemma_has_name_first(saved: Seq<SavedConversationView>, name: Seq<char>)
    requires
        has_name(saved, name),
    ensures
        is_first_named(saved, name, first_named(saved, name)),
{
    let w = choose|i: int| 0 <= i < saved.len() && (#[trigger] saved[i]).name == name;
    lemma_first_below(saved, name, w);
}

proof fn lemma_first_below(saved: Seq<SavedConversationView>, name: Seq<char>, w: int)
    requires
        0 <= w < saved.len(),
        saved[w].name == name,
    ensures
        exists|i: int| is_first_named(saved, name, i),
    decreases w,
{
    if exists|j: int| 0 <= j < w && (#[trigger] saved[j]).name == name {
        let j = choose|j: int| 0 <= j < w && (#[trigger] saved[j]).name == name;
        lemma_first_below(saved, name, j);
    } else {
        assert(is_first_named(saved, name, w));
    }
}

/// Saving under a name that is taken replaces the first conversation of that
/// name where it stands: the collection keeps its length, its names and
/// every other conversation.
pub proof fn lemma_upsert_replaces_in_place(
    saved: Seq<SavedConversationView>,
    conversation: SavedConversationView,
    i: int,
)
    requires
        is_first_named(saved, conversation.name, i),
    ensures
        upsert(saved, conversation) == saved.update(i, conversation),
        upsert(saved, conversation).len() == saved.len(),
        upsert(saved, conversation)[i] == conversation,
        forall|j: int|
            0 <= j < saved.len() && j != i ==> #[trigger] upsert(saved, conversation)[j]
                == saved[j],
        names(upsert(saved, conversation)) == names(saved),
{
    lemma_first_named_is(saved, conversation.name, i);
    assert(names(saved.update(i, conversation)) =~= names(saved));
}

/// Saving under a name that is free appends the conversation.
pub proof fn lemma_upsert_appends(
    saved: Seq<SavedConversationView>,
    conversation: SavedConversationView,
)
    requires
        !has_name(saved, conversation.name),
    ensures
        upsert(saved, conversation) == saved.push(conversation),
        names(upsert(saved, conversation)) == names(saved).push(conversation.name),
{
    assert(names(saved.push(conversation)) =~= names(saved).push(conversation.name));
}

/// Saving never makes two conversations share a name.
pub proof fn lemma_upsert_keeps_names_unique(
    saved: Seq<SavedConversationView>,
    conversation: SavedConversationView,
)
    requires
        names_unique(saved),
    ensures
        names_unique(upsert(saved, conversation)),
{
    let after = upsert(saved, conversation);
    if has_name(saved, conversation.name) {
        lemma_has_name_first(saved, conversation.name);
        assert forall|i: int, j: int| 0 <= i < j < after.len() implies (#[trigger] after[i]).name
            != (#[trigger] after[j]).name by {
            assert(after[i].name == saved[i].name);
            assert(after[j].name == saved[j].name);
        }
    } else {
        assert forall|i: int, j: int| 0 <= i < j < after.len() implies (#[trigger] after[i]).name
            != (#[trigger] after[j]).name by {
            if j == saved.len() {
                assert(saved[i].name != conversation.name);
            } else {
                assert(after[i].name == saved[i].name);
                assert(after[j].name == saved[j].name);
            }
        }
    }
}

/// Saving a conversation and saving it once more leaves what the first
/// saving left.
pub proof fn lemma_upsert_twice(
    saved: Seq<SavedConversationView>,
    conversation: SavedConversationView,
)
    ensures
        upsert(upsert(saved, conversation), conversation) == upsert(saved, conversation),
{
    let once = upsert(saved, conversation);
    if has_name(saved, conversation.name) {
        lemma_has_name_first(saved, conversation.name);
        let k = first_named(saved, conversation.name);
        assert(is_first_named(once, conversation.name, k)) by {
            assert forall|j: int| 0 <= j < k implies (#[trigger] once[j]).name
                != conversation.name by {
                assert(once[j] == saved[j]);
            }
        }
        lemma_first_named_is(once, conversation.name, k);
        assert(once.update(k, conversation) =~= once);
    } else {
        let k = saved.len() as int;
        assert(is_first_named(once, conversation.name, k)) by {
            assert forall|j: int| 0 <= j < k implies (#[trigger] once[j]).name
                != conversation.name by {
                assert(once[j] == saved[j]);
            }
        }
        lemma_first_named_is(once, conversation.name, k);
        assert(once.update(k, conversation) =~= once);
    }
}

/// Finds the first saved conversation called `name`.
pub fn find_by_name(saved: &Vec<SavedConversation>, name: &String) -> (found: Option<usize>)
    ensures
        found is Some <==> has_name(saved.deep_view(), name@),
        found matches Some(i) ==> is_first_named(saved.deep_view(), name@, i as int),
{
    let mut i: usize = 0;
    while i < saved.len()
        invariant
            i <= saved.len(),
            forall|j: int| 0 <= j < i ==> (#[trigger] saved.deep_view()[j]).name != name@,
        decreases saved.len() - i,
    {
        if saved[i].name == *name {
            assert(saved.deep_view()[i as int].name == name@);
            return Some(i);
        }
        i += 1;
    }
    None
}

/// Saves `conversation` under its name: replaces the first conversation of
/// that name in place, or appends where there is none.
pub fn upsert_conversation(saved: &mut Vec<SavedConversation>, conversation: SavedConversation)
    ensures
        final(saved).deep_view() == upsert(old(saved).deep_view(), conversation@),
{
    match find_by_name(saved, &conversation.name) {
        Some(i) => {
            proof {
                lemma_first_named_is(old(saved).deep_view(), conversation@.name, i as int);
            }
            saved[i] = conversation;
            assert(saved.deep_view() =~= old(saved).deep_view().update(i as int, conversation@));
        },
        None => {
            saved.push(conversation);
            assert(saved.deep_view() =~= old(saved).deep_view().push(conversation@));
        },
    }
}

} // verus!
