//! Turns a plain-language request into a shell command, or answers a question, through a
//! chat-completion endpoint.
//!
//! The modules hold the logic of one run: what the environment says about the OS and
//! shell (`platform`), the prompts (`prompt`), the settings (`config`), the request body
//! and the reading of buffered and streamed replies (`api`, `stream`), and the choices of
//! the confirmation loop (`session`, `choice`). Sending, printing and running commands
//! are left to the caller.

pub mod api;
pub mod choice;
pub mod config;
pub mod platform;
pub mod prompt;
pub mod session;
pub mod stream;
pub mod text;
