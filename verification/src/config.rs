//! The configuration file's contents and its validation.

use crate::text::opt_text;
use vstd::prelude::*;

verus! {

/// How the message text is to be rendered by the receiving side.
#[derive(Debug, Clone, Copy, PartialEq, Eq, Structural)]
pub enum Format {
    Html,
    MarkdownV2,
    No,
}

impl Format {
    /// The format's name as it is shown to the user.
    pub open spec fn spec_name(self) -> Seq<char> {
        match self {
            Format::Html => "HTML"@,
            Format::MarkdownV2 => "MarkdownV2"@,
            Format::No => "None"@,
        }
    }

    /// The format's name as it is shown to the user.
    pub fn name(&self) -> (r: String)
        ensures
            r@ == self.spec_name(),
    {
        match self {
            Format::Html => "HTML".to_owned(),
            Format::MarkdownV2 => "MarkdownV2".to_owned(),
            Format::No => "None".to_owned(),
        }
    }
}

/// The settings read from the configuration file. Every field may be absent.
#[derive(Debug, PartialEq, Eq)]
pub struct Config {
    pub bot_token: Option<String>,
    pub default_chat_id: Option<String>,
    pub prefix: Option<String>,
    pub postfix: Option<String>,
    pub default_format: Option<Format>,
}

/// A configuration as contracts see it.
pub struct ConfigView {
    pub bot_token: Option<Seq<char>>,
    pub default_chat_id: Option<Seq<char>>,
    pub prefix: Option<Seq<char>>,
    pub postfix: Option<Seq<char>>,
    pub default_format: Option<Format>,
}

impl View for Config {
    type V = ConfigView;

    open spec fn view(&self) -> ConfigView {
        ConfigView {
            bot_token: opt_text(self.bot_token),
            default_chat_id: opt_text(self.default_chat_id),
            prefix: opt_text(self.prefix),
            postfix: opt_text(self.postfix),
            default_format: self.default_format,
        }
    }
}

/// A field of the configuration file that must not be present and empty.
#[derive(Debug, Clone, Copy, PartialEq, Eq, Structural)]
pub enum RequiredField {
    BotToken,
    DefaultChatId,
}

/// Whether a setting is present and holds no character.
pub open spec fn present_and_empty(field: Option<Seq<char>>) -> bool {
    field is Some && field->0.len() == 0
}

impl RequiredField {
    /// The field's key in the configuration file.
    pub open spec fn spec_key(self) -> Seq<char> {
        match self {
            RequiredField::BotToken => "BotToken"@,
            RequiredField::DefaultChatId => "DefaultChatId"@,
        }
    }

    /// The field's key in the configuration file.
    pub fn key(&self) -> (r: &'static str)
        ensures
            r@ == self.spec_key(),
    {
        match self {
            RequiredField::BotToken => "BotToken",
            RequiredField::DefaultChatId => "DefaultChatId",
        }
    }
}

impl Config {
    /// The first field, the bot token before the chat, that is present and
    /// empty; `None` where there is none.
    pub open spec fn spec_empty_required_field(self) -> Option<RequiredField> {
        if present_and_empty(self@.bot_token) {
            Some(RequiredField::BotToken)
        } else if present_and_empty(self@.default_chat_id) {
            Some(RequiredField::DefaultChatId)
        } else {
            None
        }
    }

    /// Names the field that makes a freshly loaded configuration unusable: a
    /// bot token or a default chat that is written down but empty. A
    /// configuration for which this returns `None` is accepted.
    pub fn empty_required_field(&self) -> (r: Option<RequiredField>)
        ensures
            r == self.spec_empty_required_field(),
    {
        if is_present_and_empty(&self.bot_token) {
            Some(RequiredField::BotToken)
        } else if is_present_and_empty(&self.default_chat_id) {
            Some(RequiredField::DefaultChatId)
        } else {
            None
        }
    }
}

/// Whether a setting is present and holds no character.
pub fn is_present_and_empty(field: &Option<String>) -> (r: bool)
    ensures
        r == present_and_empty(opt_text(*field)),
{
    match field {
        Some(s) => s.as_str().is_empty(),
        None => false,
    }
}

/// What was found at the place of the configuration file.
#[derive(Debug)]
pub enum ConfigSource {
    /// There is no file.
    Missing,
    /// There is a file, and it could not be read.
    Unreadable,
    /// The file was read, and its text is not a configuration.
    Malformed,
    /// The file holds this configuration.
    Parsed(Config),
}

/// Why there is no configuration to run with.
#[derive(Debug, Clone, Copy, PartialEq, Eq, Structural)]
pub enum ConfigError {
    /// There is no configuration file.
    Missing,
    /// The configuration file could not be read.
    Unreadable,
    /// The configuration file's text is not a configuration.
    Invalid,
    /// A field that must not be empty is present and empty.
    EmptyField(RequiredField),
}

/// A result of loading the configuration as contracts see it.
pub open spec fn load_result(r: Result<Config, ConfigError>) -> Result<ConfigView, ConfigError> {
    match r {
        Ok(config) => Ok(config@),
        Err(e) => Err(e),
    }
}

/// The configuration that a source gives: the one it holds, unless a
/// required field of it is present and empty; else the error that tells what
/// was found.
pub open spec fn spec_load_config(source: ConfigSource) -> Result<ConfigView, ConfigError> {
    match source {
        ConfigSource::Missing => Err(ConfigError::Missing),
        ConfigSource::Unreadable => Err(ConfigError::Unreadable),
        ConfigSource::Malformed => Err(ConfigError::Invalid),
        ConfigSource::Parsed(config) => match config.spec_empty_required_field() {
            Some(field) => Err(ConfigError::EmptyField(field)),
            None => Ok(config@),
        },
    }
}

/// Accepts or refuses what was found at the place of the configuration
/// file. A configuration is refused where its bot token or its default chat
/// is written down and empty.
pub fn load_config(source: ConfigSource) -> (r: Result<Config, ConfigError>)
    ensures
        load_result(r) == spec_load_config(source),
{
    match source {
        ConfigSource::Missing => Err(ConfigError::Missing),
        ConfigSource::Unreadable => Err(ConfigError::Unreadable),
        ConfigSource::Malformed => Err(ConfigError::Invalid),
        ConfigSource::Parsed(config) => match config.empty_required_field() {
            Some(field) => Err(ConfigError::EmptyField(field)),
            None => Ok(config),
        },
    }
}

impl RequiredField {
    /// What the field holds, in words.
    pub open spec fn spec_noun(self) -> Seq<char> {
        match self {
            RequiredField::BotToken => "bot token"@,
            RequiredField::DefaultChatId => "chat ID"@,
        }
    }

    /// What the field holds, in words.
    pub fn noun(&self) -> (r: &'static str)
        ensures
            r@ == self.spec_noun(),
    {
        match self {
            RequiredField::BotToken => "bot token",
            RequiredField::DefaultChatId => "chat ID",
        }
    }
}

impl ConfigError {
    /// The text that tells the user of the error. `path` is the place of the
    /// configuration file as the user is to read it.
    pub open spec fn spec_message(self, path: Seq<char>) -> Seq<char> {
        match self {
            ConfigError::Missing => "Config file not found. Please create it at: "@ + path
                + "\nExample:\n{\n\t\"BotToken\": \"123456:your-bot-token\",\n\t\"DefaultChatId\": \"-1001234567890\",\n\t\"Prefix\": \"> \",\n\t\"DefaultFormat\": \"MarkdownV2\"\n}"@,
            ConfigError::Unreadable => "Failed to read config file at "@ + path,
            ConfigError::Invalid => "Failed to parse config file at "@ + path,
            ConfigError::EmptyField(field) => "Warning: "@ + field.spec_key()
                + " is empty in config file at "@ + path + ". Please provide a valid default "@
                + field.spec_noun() + " or remove the empty "@ + field.spec_key()
                + " field if intentional."@,
        }
    }

    /// The text that tells the user of the error. `path` is the place of the
    /// configuration file as the user is to read it.
    pub fn message(&self, path: &str) -> (r: String)
        ensures
            r@ == self.spec_message(path@),
    {
        match self {
            ConfigError::Missing => {
                let mut text = "Config file not found. Please create it at: ".to_owned();
                text.append(path);
                text.append(
                    "\nExample:\n{\n\t\"BotToken\": \"123456:your-bot-token\",\n\t\"DefaultChatId\": \"-1001234567890\",\n\t\"Prefix\": \"> \",\n\t\"DefaultFormat\": \"MarkdownV2\"\n}",
                );
                text
            },
            ConfigError::Unreadable => {
                let mut text = "Failed to read config file at ".to_owned();
                text.append(path);
                text
            },
            ConfigError::Invalid => {
                let mut text = "Failed to parse config file at ".to_owned();
                text.append(path);
                text
            },
            ConfigError::EmptyField(field) => {
                let mut text = "Warning: ".to_owned();
                text.append(field.key());
                text.append(" is empty in config file at ");
                text.append(path);
                text.append(". Please provide a valid default ");
                text.append(field.noun());
                text.append(" or remove the empty ");
                text.append(field.key());
                text.append(" field if intentional.");
                text
            },
        }
    }
}

} // verus!
