//! Session logic of a command-line client for a chat-completion service:
//! the conversation transcript, reading replies out of a decoded response,
//! token accounting, the chat loop's decisions and the command-synthesis flow.
pub mod json;
pub mod transcript;
pub mod extract;
pub mod chat;
pub mod command;
pub mod request;
