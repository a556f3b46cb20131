//! Composition of the message text and its parse mode.

use crate::cli::{Cli, CliView};
use crate::config::{Config, ConfigView, Format};
use crate::text::{blank, fenced_block, fenced_code_block, html_block, html_code_block,
    html_escape, is_blank, opt_text};
use vstd::prelude::*;

verus! {

/// How the receiving side is told to parse a text.
#[derive(Debug, Clone, Copy, PartialEq, Eq, Structural)]
pub enum ParseMode {
    Html,
    MarkdownV2,
}

impl ParseMode {
    /// The value of the request's `parse_mode` field.
    pub open spec fn spec_as_str(self) -> Seq<char> {
        match self {
            ParseMode::Html => "HTML"@,
            ParseMode::MarkdownV2 => "MarkdownV2"@,
        }
    }

    /// The value of the request's `parse_mode` field.
    pub fn as_str(&self) -> (r: &'static str)
        ensures
            r@ == self.spec_as_str(),
    {
        match self {
            ParseMode::Html => "HTML",
            ParseMode::MarkdownV2 => "MarkdownV2",
        }
    }
}

/// The text to send, if any, and how it is to be parsed.
#[derive(Debug, PartialEq, Eq)]
pub struct ComposedMessage {
    pub final_text: Option<String>,
    pub parse_mode: Option<ParseMode>,
}

/// A composed message as contracts see it.
pub struct ComposedView {
    pub final_text: Option<Seq<char>>,
    pub parse_mode: Option<ParseMode>,
}

impl View for ComposedMessage {
    type V = ComposedView;

    open spec fn view(&self) -> ComposedView {
        ComposedView { final_text: opt_text(self.final_text), parse_mode: self.parse_mode }
    }
}

/// The format in force: that of the command line, else that of the
/// configuration.
pub open spec fn spec_resolve_format(config: ConfigView, cli: CliView) -> Option<Format> {
    if cli.format is Some {
        cli.format
    } else {
        config.default_format
    }
}

/// The format in force: that of the command line, else that of the
/// configuration.
pub fn resolve_format(config: &Config, cli: &Cli) -> (r: Option<Format>)
    ensures
        r == spec_resolve_format(config@, cli@),
{
    match cli.format {
        Some(f) => Some(f),
        None => config.default_format,
    }
}

/// The text before prefix and postfix, given whether the input is blank. In
/// standard-input mode it is the input, unless that is absent or blank;
/// otherwise it is the message of the command line.
pub open spec fn spec_select_text(cli: CliView, input: Option<Seq<char>>, input_blank: bool)
    -> Option<Seq<char>> {
    if cli.stdin {
        if input is Some && !input_blank {
            input
        } else {
            None
        }
    } else {
        cli.message
    }
}

/// The text before prefix and postfix: the input counts as blank where it
/// holds white space only.
pub open spec fn spec_raw_text(cli: CliView, input: Option<Seq<char>>) -> Option<Seq<char>> {
    spec_select_text(cli, input, input is Some && is_blank(input->0))
}

/// Picks the text to work on between the message of the command line and
/// `input`, which is what was read from standard input; `input_blank` tells
/// whether the input is to count as blank.
pub fn select_text(cli: &Cli, input: Option<String>, input_blank: bool) -> (r: Option<String>)
    ensures
        opt_text(r) == spec_select_text(cli@, opt_text(input), input_blank),
{
    if cli.stdin {
        match input {
            Some(buffer) => {
                if input_blank {
                    None
                } else {
                    Some(buffer)
                }
            },
            None => None,
        }
    } else {
        match &cli.message {
            Some(m) => Some(m.clone()),
            None => None,
        }
    }
}

/// Picks the text to work on. `input` is what was read from standard input;
/// it counts only in standard-input mode and only if it is not blank.
pub fn raw_text(cli: &Cli, input: Option<String>) -> (r: Option<String>)
    ensures
        opt_text(r) == spec_raw_text(cli@, opt_text(input)),
{
    let input_blank = match &input {
        Some(buffer) => blank(buffer.as_str()),
        None => false,
    };
    select_text(cli, input, input_blank)
}

/// An optional affix as text: absent is empty.
pub open spec fn affix(a: Option<Seq<char>>) -> Seq<char> {
    match a {
        Some(s) => s,
        None => Seq::empty(),
    }
}

/// The text between the configured prefix and postfix.
pub open spec fn affixed(config: ConfigView, text: Seq<char>) -> Seq<char> {
    affix(config.prefix) + text + affix(config.postfix)
}

/// The parse mode that a format asks for by itself.
pub open spec fn parse_mode_of(format: Option<Format>) -> Option<ParseMode> {
    match format {
        Some(Format::Html) => Some(ParseMode::Html),
        Some(Format::MarkdownV2) => Some(ParseMode::MarkdownV2),
        _ => None,
    }
}

/// The message composed of a raw text: nothing without a text; else the text
/// between prefix and postfix, as a code block where a language is given
/// (HTML under the HTML format, fenced under any other), with the parse mode
/// that the code block forces or that the format asks for.
pub open spec fn spec_compose_text(
    config: ConfigView,
    code: Option<Seq<char>>,
    format: Option<Format>,
    raw: Option<Seq<char>>,
) -> ComposedView {
    match raw {
        None => ComposedView { final_text: None, parse_mode: None },
        Some(text) => {
            let content = affixed(config, text);
            match code {
                Some(lang) => {
                    if format == Some(Format::Html) {
                        ComposedView {
                            final_text: Some(html_code_block(lang, content)),
                            parse_mode: Some(ParseMode::Html),
                        }
                    } else {
                        ComposedView {
                            final_text: Some(fenced_code_block(lang, content)),
                            parse_mode: Some(ParseMode::MarkdownV2),
                        }
                    }
                },
                None => ComposedView { final_text: Some(content), parse_mode: parse_mode_of(format) },
            }
        },
    }
}

/// The message that configuration, command line and standard input give.
pub open spec fn spec_compose(config: ConfigView, cli: CliView, input: Option<Seq<char>>)
    -> ComposedView {
    spec_compose_text(config, cli.code, spec_resolve_format(config, cli), spec_raw_text(cli, input))
}

/// Puts a text between the configured prefix and postfix.
pub fn with_affixes(config: &Config, text: &str) -> (r: String)
    ensures
        r@ == affixed(config@, text@),
{
    let mut content = String::new();
    match &config.prefix {
        Some(prefix) => {
            content.append(prefix.as_str());
        },
        None => {},
    }
    assert(content@ =~= affix(config@.prefix));
    content.append(text);
    match &config.postfix {
        Some(postfix) => {
            content.append(postfix.as_str());
        },
        None => {
            assert(content@ =~= content@ + Seq::<char>::empty());
        },
    }
    content
}

/// Composes the message of a raw text under a format and an optional code
/// language.
pub fn compose_text(
    config: &Config,
    code: &Option<String>,
    format: Option<Format>,
    raw: Option<String>,
) -> (r: ComposedMessage)
    ensures
        r@ == spec_compose_text(config@, opt_text(*code), format, opt_text(raw)),
{
    match raw {
        None => ComposedMessage { final_text: None, parse_mode: None },
        Some(text) => {
            let content = with_affixes(config, text.as_str());
            match code {
                Some(lang) => {
                    match format {
                        Some(Format::Html) => ComposedMessage {
                            final_text: Some(html_block(lang.as_str(), content.as_str())),
                            parse_mode: Some(ParseMode::Html),
                        },
                        _ => ComposedMessage {
                            final_text: Some(fenced_block(lang.as_str(), content.as_str())),
                            parse_mode: Some(ParseMode::MarkdownV2),
                        },
                    }
                },
                None => {
                    let parse_mode = match format {
                        Some(Format::Html) => Some(ParseMode::Html),
                        Some(Format::MarkdownV2) => Some(ParseMode::MarkdownV2),
                        _ => None,
                    };
                    ComposedMessage { final_text: Some(content), parse_mode }
                },
            }
        },
    }
}

/// Composes the message: resolves the format, picks the text, applies prefix
/// and postfix, and wraps the text as a code block where a language is given.
/// `input` is what was read from standard input, if it was read.
pub fn compose(config: &Config, cli: &Cli, input: Option<String>) -> (r: ComposedMessage)
    ensures
        r@ == spec_compose(config@, cli@, opt_text(input)),
{
    let format = resolve_format(config, cli);
    let raw = raw_text(cli, input);
    compose_text(config, &cli.code, format, raw)
}

/// Without a code language the composed text is the prefix, the text and
/// the postfix one after the other, with nothing added, removed or changed,
/// and the parse mode is the one that the format asks for.
pub proof fn lemma_plain_text_is_concatenation(
    config: ConfigView,
    format: Option<Format>,
    prefix: Seq<char>,
    text: Seq<char>,
    postfix: Seq<char>,
)
    requires
        config.prefix == Some(prefix),
        config.postfix == Some(postfix),
    ensures
        spec_compose_text(config, None, format, Some(text)).final_text == Some(
            prefix + text + postfix,
        ),
        spec_compose_text(config, None, format, Some(text)).parse_mode == parse_mode_of(format),
{
}

/// An absent prefix or postfix adds nothing to the text.
pub proof fn lemma_absent_affixes(config: ConfigView, text: Seq<char>)
    ensures
        config.prefix is None && config.postfix is None ==> affixed(config, text) == text,
        config.prefix is None && config.postfix is Some ==> affixed(config, text) == text
            + config.postfix->0,
        config.prefix is Some && config.postfix is None ==> affixed(config, text)
            == config.prefix->0 + text,
{
    assert(Seq::<char>::empty() + text =~= text);
    assert(text + Seq::<char>::empty() =~= text);
    if config.prefix is Some {
        assert(config.prefix->0 + text + Seq::<char>::empty() =~= config.prefix->0 + text);
    }
}

/// With a code language under the HTML format the composed text is the HTML
/// code block of the language around the text between prefix and postfix,
/// escaped once, and the parse mode is HTML.
pub proof fn lemma_html_code_block(
    config: ConfigView,
    lang: Seq<char>,
    prefix: Seq<char>,
    text: Seq<char>,
    postfix: Seq<char>,
)
    requires
        config.prefix == Some(prefix),
        config.postfix == Some(postfix),
    ensures
        spec_compose_text(config, Some(lang), Some(Format::Html), Some(text)).final_text == Some(
            "<pre><code class=\"language-"@ + lang + "\">"@ + html_escape(prefix + text + postfix)
                + "</code></pre>"@,
        ),
        spec_compose_text(config, Some(lang), Some(Format::Html), Some(text)).parse_mode == Some(
            ParseMode::Html,
        ),
{
}

/// With a code language under any format but HTML, or under none, the
/// composed text is the fenced block of the language around the text between
/// prefix and postfix, unescaped, and the parse mode is MarkdownV2.
pub proof fn lemma_fenced_code_block(
    config: ConfigView,
    lang: Seq<char>,
    format: Option<Format>,
    prefix: Seq<char>,
    text: Seq<char>,
    postfix: Seq<char>,
)
    requires
        config.prefix == Some(prefix),
        config.postfix == Some(postfix),
        format != Some(Format::Html),
    ensures
        spec_compose_text(config, Some(lang), format, Some(text)).final_text == Some(
            "```"@ + lang + "\n"@ + (prefix + text + postfix) + "\n```"@,
        ),
        spec_compose_text(config, Some(lang), format, Some(text)).parse_mode == Some(
            ParseMode::MarkdownV2,
        ),
{
}

/// A message has a text exactly if there was a text to compose it of; with a
/// text and a code language it has a parse mode; without a text it has none.
pub proof fn lemma_composed_message_is_consistent(
    config: ConfigView,
    code: Option<Seq<char>>,
    format: Option<Format>,
    raw: Option<Seq<char>>,
)
    ensures
        spec_compose_text(config, code, format, raw).final_text is Some <==> raw is Some,
        raw is Some && code is Some ==> spec_compose_text(config, code, format, raw).parse_mode
            is Some,
        raw is None ==> spec_compose_text(config, code, format, raw).parse_mode is None,
{
}

/// Without a text there is no message and no parse mode, whatever the format
/// and the code language.
pub proof fn lemma_no_text_no_message(
    config: ConfigView,
    code: Option<Seq<char>>,
    format: Option<Format>,
)
    ensures
        spec_compose_text(config, code, format, None) == (ComposedView {
            final_text: None,
            parse_mode: None,
        }),
{
}

} // verus!
