//! What the chat client says to the language-model server and what it reads
//! from the answers. The exchange itself is left to the caller.

use crate::json::{
    json_document, json_items, json_member, json_text, parse_document, value_items, value_member,
    value_text,
};
use crate::text::{decimal, decimal_text};
use vstd::prelude::*;
use vstd::string::StringExecFns;

verus! {

/// One role-tagged message of a chat-completion exchange.
#[derive(Debug)]
pub struct Message {
    pub role: String,
    pub content: String,
}

/// What a [`Message`] holds.
pub ghost struct MessageView {
    pub role: Seq<char>,
    pub content: Seq<char>,
}

impl View for Message {
    type V = MessageView;

    open spec fn view(&self) -> MessageView {
        MessageView { role: self.role@, content: self.content@ }
    }
}

impl DeepView for Message {
    type V = MessageView;

    open spec fn deep_view(&self) -> MessageView {
        self@
    }
}

impl Clone for Message {
    fn clone(&self) -> (copy: Self)
        ensures
            copy@ == self@,
    {
        Message { role: self.role.clone(), content: self.content.clone() }
    }
}

/// The role under which the user's messages are sent.
pub const USER_ROLE: &'static str = "user";

/// The role under which the model's messages are sent.
pub const ASSISTANT_ROLE: &'static str = "assistant";

/// The role of a message's author.
pub open spec fn role_of(is_user: bool) -> Seq<char> {
    if is_user {
        USER_ROLE@
    } else {
        ASSISTANT_ROLE@
    }
}

impl Message {
    /// A message written by the user (`is_user`) or by the model.
    pub fn authored(is_user: bool, content: String) -> (message: Message)
        ensures
            message@ == (MessageView { role: role_of(is_user), content: content@ }),
    {
        let role = if is_user {
            String::from_str(USER_ROLE)
        } else {
            String::from_str(ASSISTANT_ROLE)
        };
        Message { role, content }
    }
}

/// How long a request may take, in seconds: twenty minutes, since a model
/// may be slow to load.
pub const TIMEOUT_SECS: u64 = 1200;

/// Where the models are listed.
pub const MODELS_URL: &'static str = "http://localhost:1234/v1/models";

/// Where the loaded model is named.
pub const LOADED_MODEL_URL: &'static str = "http://localhost:1234/v1/models/loaded";

/// Where chat completions are asked for.
pub const COMPLETIONS_URL: &'static str = "http://localhost:1234/v1/chat/completions";

/// Where the model server is told to stop.
pub const STOP_URL: &'static str = "http://localhost:1234/v1/server/stop";

/// How long to wait, in milliseconds, between telling the server to stop and
/// probing it again.
pub const RELOAD_PAUSE_MILLIS: u64 = 1000;

/// The body of a chat-completion request.
#[derive(Debug)]
pub struct CompletionsRequest {
    pub model: String,
    pub messages: Vec<Message>,
    /// The sampling temperature, in tenths.
    pub temperature_tenths: u32,
    /// The most tokens to generate; -1 sets no bound.
    pub max_tokens: i32,
    pub stream: bool,
}

/// What a [`CompletionsRequest`] holds.
#[verifier::ext_equal]
pub ghost struct CompletionsRequestView {
    pub model: Seq<char>,
    pub messages: Seq<MessageView>,
    pub temperature_tenths: int,
    pub max_tokens: int,
    pub stream: bool,
}

impl View for CompletionsRequest {
    type V = CompletionsRequestView;

    open spec fn view(&self) -> CompletionsRequestView {
        CompletionsRequestView {
            model: self.model@,
            messages: self.messages.deep_view(),
            temperature_tenths: self.temperature_tenths as int,
            max_tokens: self.max_tokens as int,
            stream: self.stream,
        }
    }
}

/// The request that sends `history` to `model`: temperature 0.7, no bound
/// on the tokens, the answer in one piece.
pub fn completions_request(model: &str, history: Vec<Message>) -> (request: CompletionsRequest)
    ensures
        request@ == (CompletionsRequestView {
            model: model@,
            messages: history.deep_view(),
            temperature_tenths: 7,
            max_tokens: -1,
            stream: false,
        }),
{
    CompletionsRequest {
        model: String::from_str(model),
        messages: history,
        temperature_tenths: 7,
        max_tokens: -1,
        stream: false,
    }
}

/// The text that makes up the probe sent to have a model loaded.
pub const PROBE: &'static str = "test";

/// The request that has `model` loaded: one short user message, temperature
/// 0.1, a single token.
pub fn reload_request(model: &str) -> (request: CompletionsRequest)
    ensures
        request@ == (CompletionsRequestView {
            model: model@,
            messages: seq![MessageView { role: USER_ROLE@, content: PROBE@ }],
            temperature_tenths: 1,
            max_tokens: 1,
            stream: false,
        }),
{
    let mut messages: Vec<Message> = Vec::new();
    messages.push(Message::authored(true, String::from_str(PROBE)));
    assert(messages.deep_view() =~= seq![MessageView { role: USER_ROLE@, content: PROBE@ }]);
    CompletionsRequest {
        model: String::from_str(model),
        messages,
        temperature_tenths: 1,
        max_tokens: 1,
        stream: false,
    }
}

/// The answer that a completion carries: the content of its first choice,
/// and the empty text where it has no choice.
pub open spec fn first_content(choices: Seq<MessageView>) -> Seq<char> {
    if choices.len() == 0 {
        Seq::empty()
    } else {
        choices[0].content
    }
}

/// Takes the answer out of the choices of a completion.
pub fn first_choice_content(choices: Vec<Message>) -> (content: String)
    ensures
        content@ == first_content(choices.deep_view()),
{
    if choices.len() == 0 {
        String::new()
    } else {
        choices[0].content.clone()
    }
}

/// Whether `status` is an HTTP status of success, 200 to 299.
pub open spec fn is_success(status: u16) -> bool {
    200 <= status <= 299
}

/// What the report of an answer without success begins with.
pub const STATUS_PREFIX: &'static str = "HTTP status ";

/// What is wrong with an answer of HTTP status `status`: nothing where the
/// status is one of success, and otherwise a description that names the
/// status.
pub open spec fn status_failure_of(status: u16) -> Option<Seq<char>> {
    if is_success(status) {
        None
    } else {
        Some(STATUS_PREFIX@ + decimal(status as nat))
    }
}

/// Judges an answer by its HTTP status: any status but one of success is a
/// failure, and gets a description.
pub fn status_failure(status: u16) -> (failure: Option<String>)
    ensures
        failure is Some <==> !is_success(status),
        match failure {
            Some(description) => status_failure_of(status) == Some(description@),
            None => status_failure_of(status) is None,
        },
{
    if 200 <= status && status <= 299 {
        None
    } else {
        let numeral = decimal_text(status);
        Some(String::from_str(STATUS_PREFIX).concat(numeral.as_str()))
    }
}

/// Why a payload of the server could not be used.
#[derive(Debug, Clone, Copy, PartialEq, Eq, Structural)]
pub enum PayloadError {
    /// The payload is not a JSON document.
    NotJson,
    /// The document has no array under `data`.
    NoModelList,
}

/// What [`PayloadError::NotJson`] reads as.
pub const NOT_JSON: &'static str = "the payload is not a JSON document";

/// What [`PayloadError::NoModelList`] reads as.
pub const NO_MODEL_LIST: &'static str = "the payload has no array under `data`";

impl PayloadError {
    /// The error in words.
    pub fn describe(&self) -> (description: String)
        ensures
            description@ == match *self {
                PayloadError::NotJson => NOT_JSON@,
                PayloadError::NoModelList => NO_MODEL_LIST@,
            },
    {
        match self {
            PayloadError::NotJson => String::from_str(NOT_JSON),
            PayloadError::NoModelList => String::from_str(NO_MODEL_LIST),
        }
    }
}

/// The identifier of one entry of the model list: the text under `id`,
/// where there is one.
pub open spec fn model_id(entry: serde_json::Value) -> Option<Seq<char>> {
    match json_member(entry, "id"@) {
        Some(id) => json_text(id),
        None => None,
    }
}

/// [`model_id`] as a function value.
pub open spec fn model_id_reader() -> spec_fn(serde_json::Value) -> Option<Seq<char>> {
    |entry: serde_json::Value| model_id(entry)
}

/// The models that `document` lists: the identifiers of the entries of the
/// array under `data`, in order, entries without one left out.
pub open spec fn listed_models(document: serde_json::Value) -> Result<
    Seq<Seq<char>>,
    PayloadError,
> {
    match json_member(document, "data"@) {
        Some(data) => match json_items(data) {
            Some(entries) => Ok(entries.filter_map(model_id_reader())),
            None => Err(PayloadError::NoModelList),
        },
        None => Err(PayloadError::NoModelList),
    }
}

/// The models that the payload `body` lists.
pub open spec fn model_list(body: Seq<u8>) -> Result<Seq<Seq<char>>, PayloadError> {
    match json_document(body) {
        Some(document) => listed_models(document),
        None => Err(PayloadError::NotJson),
    }
}

/// The model that `document` names as loaded: the text under `model`,
/// where there is one.
pub open spec fn named_model(document: serde_json::Value) -> Option<Seq<char>> {
    match json_member(document, "model"@) {
        Some(model) => json_text(model),
        None => None,
    }
}

/// The model that the payload `body` names as loaded.
pub open spec fn loaded_model_of(body: Seq<u8>) -> Result<Option<Seq<char>>, PayloadError> {
    match json_document(body) {
        Some(document) => Ok(named_model(document)),
        None => Err(PayloadError::NotJson),
    }
}

/// The outcome of a listing as the contracts speak of it: the identifiers
/// by their characters.
pub open spec fn listing_view(listed: Result<Vec<String>, PayloadError>) -> Result<
    Seq<Seq<char>>,
    PayloadError,
> {
    match listed {
        Ok(ids) => Ok(ids.deep_view()),
        Err(error) => Err(error),
    }
}

/// The outcome of asking for the loaded model as the contracts speak of it:
/// the name by its characters.
pub open spec fn naming_view(named: Result<Option<String>, PayloadError>) -> Result<
    Option<Seq<char>>,
    PayloadError,
> {
    match named {
        Ok(Some(name)) => Ok(Some(name@)),
        Ok(None) => Ok(None),
        Err(error) => Err(error),
    }
}

/// Reads the identifiers of the models out of the answer to a listing.
pub fn model_ids(body: &[u8]) -> (listed: Result<Vec<String>, PayloadError>)
    ensures
        listing_view(listed) == model_list(body@),
{
    match parse_document(body) {
        Ok(document) => model_ids_in(&document),
        Err(_) => Err(PayloadError::NotJson),
    }
}

/// Reads the identifiers of the models out of a document: the entries of
/// the array under `data`, in order, each by the text under its `id`, those
/// without one left out.
pub fn model_ids_in(document: &serde_json::Value) -> (listed: Result<Vec<String>, PayloadError>)
    ensures
        listing_view(listed) == listed_models(*document),
{
    let data = match value_member(document, "data") {
        Some(data) => data,
        None => {
            return Err(PayloadError::NoModelList);
        },
    };
    let entries = match value_items(data) {
        Some(entries) => entries,
        None => {
            return Err(PayloadError::NoModelList);
        },
    };
    let mut ids: Vec<String> = Vec::new();
    let mut i: usize = 0;
    while i < entries.len()
        invariant
            i <= entries.len(),
            ids.deep_view() == entries@.take(i as int).filter_map(model_id_reader()),
        decreases entries.len() - i,
    {
        proof {
            entries@.lemma_filter_map_take_succ(model_id_reader(), i as int);
        }
        let ghost before = ids.deep_view();
        if let Some(id) = value_member(&entries[i], "id") {
            if let Some(name) = value_text(id) {
                ids.push(String::from_str(name));
                assert(ids.deep_view() =~= before + seq![name@]);
            }
        }
        i += 1;
    }
    assert(entries@.take(entries.len() as int) =~= entries@);
    Ok(ids)
}

/// Reads the name of the loaded model out of the answer to the question
/// which one is.
pub fn loaded_model(body: &[u8]) -> (named: Result<Option<String>, PayloadError>)
    ensures
        naming_view(named) == loaded_model_of(body@),
{
    match parse_document(body) {
        Ok(document) => Ok(loaded_model_in(&document)),
        Err(_) => Err(PayloadError::NotJson),
    }
}

/// Reads the name of the loaded model out of a document: the text under
/// `model`, and nothing where there is no such member or it is no text.
pub fn loaded_model_in(document: &serde_json::Value) -> (named: Option<String>)
    ensures
        match named {
            Some(name) => named_model(*document) == Some(name@),
            None => named_model(*document) is None,
        },
{
    match value_member(document, "model") {
        Some(model) => match value_text(model) {
            Some(name) => Some(String::from_str(name)),
            None => None,
        },
        None => None,
    }
}

} // verus!
