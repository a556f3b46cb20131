//! Message assembly, file resolution and request planning for a command-line
//! client of the Telegram Bot API.
//!
//! The crate decides what is sent: it resolves the bot token, the chat and the
//! format from configuration and command line, composes the message text,
//! expands the file patterns, and describes each API request. Reading files
//! and standard input and performing the requests are left to the caller.

pub mod cli;
pub mod compose;
pub mod config;
pub mod dispatch;
pub mod error;
pub mod paths;
pub mod telegram;
pub mod text;
