//! The core of a desktop chat client for a language-model server that runs
//! on the same machine.
//!
//! The crate holds what the client decides: how the state answers each event
//! ([`chat_app`]), what a conversation and the collection of saved
//! conversations are ([`conversation`]), what is said to the server and what
//! its answers mean ([`lm_studio_client`]), and what the screen shows for a
//! state ([`ui`]). It opens no window, no socket and no file, and it reads no
//! clock. The caller draws the screen, raises the events, hands in the time
//! of day that a message is to be stamped with ([`clock`] says what such a
//! time looks like), and carries out the one command that a transition may
//! leave: to send the transcript to the model, or to write the saved
//! conversations out.
//!
//! Every function is verified against its contract. One outside crate is
//! called, behind trusted wrappers: `serde_json`, for reading the server's
//! JSON ([`json`]).

pub mod chat_app;
pub mod clock;
pub mod conversation;
pub mod json;
pub mod lm_studio_client;
pub mod text;
pub mod ui;

pub use chat_app::{ChatApp, Command, Message};
pub use conversation::{ChatMessage, SavedConversation};
