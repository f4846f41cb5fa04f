//! Session logic of an interactive terminal chat client: the conversation
//! buffer and its bounded trim, the command and failure classifiers, and the
//! state machine that drives one chat session.

pub mod message;
pub mod text;
pub mod history;
pub mod command;
pub mod failure;
pub mod response;
pub mod settings;
pub mod session;
