//! The request that the command line makes.

use crate::config::Format;
use crate::text::opt_text;
use std::path::PathBuf;
use vstd::prelude::*;

verus! {

/// What the user asked for on the command line.
#[derive(Debug)]
pub struct Cli {
    /// The message to send.
    pub message: Option<String>,
    /// Overrides the bot token of the configuration file.
    pub bot_token: Option<String>,
    /// Overrides the default chat of the configuration file.
    pub chat_id: Option<String>,
    /// Overrides the default format of the configuration file.
    pub format: Option<Format>,
    /// Wraps the message in a code block for the given language.
    pub code: Option<String>,
    /// Patterns of files to send as documents.
    pub file: Vec<PathBuf>,
    /// Patterns of files to send as photos.
    pub photo: Vec<PathBuf>,
    /// Patterns of files to send as videos.
    pub video: Vec<PathBuf>,
    /// Patterns of files to send as audio.
    pub audio: Vec<PathBuf>,
    /// Takes the message text from standard input.
    pub stdin: bool,
}

/// A command line as contracts see it.
pub struct CliView {
    pub message: Option<Seq<char>>,
    pub bot_token: Option<Seq<char>>,
    pub chat_id: Option<Seq<char>>,
    pub format: Option<Format>,
    pub code: Option<Seq<char>>,
    pub file: Seq<PathBuf>,
    pub photo: Seq<PathBuf>,
    pub video: Seq<PathBuf>,
    pub audio: Seq<PathBuf>,
    pub stdin: bool,
}

impl View for Cli {
    type V = CliView;

    open spec fn view(&self) -> CliView {
        CliView {
            message: opt_text(self.message),
            bot_token: opt_text(self.bot_token),
            chat_id: opt_text(self.chat_id),
            format: self.format,
            code: opt_text(self.code),
            file: self.file@,
            photo: self.photo@,
            video: self.video@,
            audio: self.audio@,
            stdin: self.stdin,
        }
    }
}

} // verus!
