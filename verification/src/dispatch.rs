//! From configuration, command line and resolved files to the calls to make.

use crate::cli::{Cli, CliView};
use crate::compose::{compose, spec_compose, ComposedMessage, ComposedView, ParseMode};
use crate::config::{Config, ConfigView};
use crate::error::{Error, ErrorView};
use crate::paths::{Category, ResolvedFile};
use crate::telegram::{message_request, request_result, send_file_outcome, ApiRequest,
    ApiRequestView, TelegramClient};
use crate::text::opt_text;
use std::path::PathBuf;
use vstd::prelude::*;

verus! {

/// The setting in force: the override where it is present and not empty,
/// else the default where it is present and not empty.
pub open spec fn pick(over: Option<Seq<char>>, default: Option<Seq<char>>) -> Option<Seq<char>> {
    if over is Some && over->0.len() > 0 {
        over
    } else if default is Some && default->0.len() > 0 {
        default
    } else {
        None
    }
}

/// Picks the setting in force between an override and a default. An empty
/// value counts as absent.
pub fn pick_setting(over: &Option<String>, default: &Option<String>) -> (r: Option<String>)
    ensures
        opt_text(r) == pick(opt_text(*over), opt_text(*default)),
{
    match over {
        Some(value) => {
            if !value.as_str().is_empty() {
                return Some(value.clone());
            }
        },
        None => {},
    }
    match default {
        Some(value) => {
            if !value.as_str().is_empty() {
                return Some(value.clone());
            }
        },
        None => {},
    }
    None
}

/// Where a run sends to, and as which bot.
#[derive(Debug, PartialEq, Eq)]
pub struct Target {
    pub bot_token: String,
    pub chat_id: String,
}

/// A target as contracts see it.
pub struct TargetView {
    pub bot_token: Seq<char>,
    pub chat_id: Seq<char>,
}

impl View for Target {
    type V = TargetView;

    open spec fn view(&self) -> TargetView {
        TargetView { bot_token: self.bot_token@, chat_id: self.chat_id@ }
    }
}

/// The target of a run: the chat is settled first, then the bot token; the
/// first of the two that neither command line nor configuration gives is the
/// error.
pub open spec fn spec_resolve_target(config: ConfigView, cli: CliView) -> Result<
    TargetView,
    ErrorView,
> {
    match pick(cli.chat_id, config.default_chat_id) {
        None => Err(ErrorView::NoDestination),
        Some(chat_id) => match pick(cli.bot_token, config.bot_token) {
            None => Err(ErrorView::NoCredential),
            Some(bot_token) => Ok(TargetView { bot_token, chat_id }),
        },
    }
}

/// A result of resolving the target as contracts see it.
pub open spec fn target_result(r: Result<Target, Error>) -> Result<TargetView, ErrorView> {
    match r {
        Ok(target) => Ok(target@),
        Err(e) => Err(e@),
    }
}

/// Settles the chat and the bot token of a run, the command line before the
/// configuration.
pub fn resolve_target(config: &Config, cli: &Cli) -> (r: Result<Target, Error>)
    ensures
        target_result(r) == spec_resolve_target(config@, cli@),
{
    let chat_id = match pick_setting(&cli.chat_id, &config.default_chat_id) {
        Some(chat_id) => chat_id,
        None => {
            return Err(Error::NoDestination);
        },
    };
    let bot_token = match pick_setting(&cli.bot_token, &config.bot_token) {
        Some(bot_token) => bot_token,
        None => {
            return Err(Error::NoCredential);
        },
    };
    Ok(Target { bot_token, chat_id })
}

/// One call to the API.
#[derive(Debug, PartialEq, Eq)]
pub enum ApiCall {
    /// Send a file, with the message as its caption.
    SendFile {
        category: Category,
        chat_id: String,
        path: PathBuf,
        caption: Option<String>,
        parse_mode: Option<ParseMode>,
    },
    /// Send the message by itself.
    SendMessage { chat_id: String, text: String, parse_mode: Option<ParseMode> },
}

/// A call as contracts see it.
pub enum ApiCallView {
    SendFile {
        category: Category,
        chat_id: Seq<char>,
        path: PathBuf,
        caption: Option<Seq<char>>,
        parse_mode: Option<ParseMode>,
    },
    SendMessage { chat_id: Seq<char>, text: Seq<char>, parse_mode: Option<ParseMode> },
}

impl View for ApiCall {
    type V = ApiCallView;

    open spec fn view(&self) -> ApiCallView {
        match *self {
            ApiCall::SendFile { category, chat_id, path, caption, parse_mode } => {
                ApiCallView::SendFile {
                    category,
                    chat_id: chat_id@,
                    path,
                    caption: opt_text(caption),
                    parse_mode,
                }
            },
            ApiCall::SendMessage { chat_id, text, parse_mode } => ApiCallView::SendMessage {
                chat_id: chat_id@,
                text: text@,
                parse_mode,
            },
        }
    }
}

/// A list of calls as contracts see it.
pub open spec fn calls_view(calls: Seq<ApiCall>) -> Seq<ApiCallView> {
    calls.map_values(|call: ApiCall| call@)
}

/// The call that sends one file with the message as its caption.
pub open spec fn file_call(chat_id: Seq<char>, message: ComposedView, file: ResolvedFile)
    -> ApiCallView {
    ApiCallView::SendFile {
        category: file.category,
        chat_id,
        path: file.path,
        caption: message.final_text,
        parse_mode: message.parse_mode,
    }
}

/// The calls of a run. With files: one call for each file, in order, each
/// with the message as its caption. Without files: one call for the message
/// if there is a text, else none.
pub open spec fn spec_plan(chat_id: Seq<char>, message: ComposedView, files: Seq<ResolvedFile>)
    -> Seq<ApiCallView> {
    if files.len() > 0 {
        files.map_values(|file: ResolvedFile| file_call(chat_id, message, file))
    } else {
        match message.final_text {
            Some(text) => seq![
                ApiCallView::SendMessage { chat_id, text, parse_mode: message.parse_mode },
            ],
            None => Seq::empty(),
        }
    }
}

/// A copy of an optional text.
fn copy_text(text: &Option<String>) -> (r: Option<String>)
    ensures
        opt_text(r) == opt_text(*text),
{
    match text {
        Some(s) => Some(s.clone()),
        None => None,
    }
}

/// Lays out the calls of a run to the chat `chat_id`: the files, each with
/// the message as its caption, or else the message by itself, or nothing.
pub fn plan(chat_id: &str, message: &ComposedMessage, files: Vec<ResolvedFile>) -> (r: Vec<
    ApiCall,
>)
    ensures
        calls_view(r@) == spec_plan(chat_id@, message@, files@),
{
    let mut calls: Vec<ApiCall> = Vec::new();
    if files.len() > 0 {
        let ghost all = files@;
        for file in it: files
            invariant
                it.seq() == all,
                calls@.len() == it.index(),
                forall|i: int|
                    0 <= i < calls@.len() ==> (#[trigger] calls@[i])@ == file_call(
                        chat_id@,
                        message@,
                        all[i],
                    ),
        {
            calls.push(
                ApiCall::SendFile {
                    category: file.category,
                    chat_id: chat_id.to_owned(),
                    path: file.path,
                    caption: copy_text(&message.final_text),
                    parse_mode: message.parse_mode,
                },
            );
        }
        assert(calls_view(calls@) =~= spec_plan(chat_id@, message@, all));
    } else {
        match &message.final_text {
            Some(text) => {
                calls.push(
                    ApiCall::SendMessage {
                        chat_id: chat_id.to_owned(),
                        text: text.clone(),
                        parse_mode: message.parse_mode,
                    },
                );
            },
            None => {},
        }
        assert(calls_view(calls@) =~= spec_plan(chat_id@, message@, files@));
    }
    calls
}

/// The parse mode as the request names it.
pub open spec fn mode_text(parse_mode: Option<ParseMode>) -> Option<Seq<char>> {
    match parse_mode {
        Some(mode) => Some(mode.spec_as_str()),
        None => None,
    }
}

/// What a call comes to as a request. A call that sends a file comes to
/// no request where the file's path has no final component.
pub open spec fn spec_request(token: Seq<char>, call: ApiCallView) -> Result<
    ApiRequestView,
    ErrorView,
> {
    match call {
        ApiCallView::SendFile { category, chat_id, path, caption, parse_mode } => {
            send_file_outcome(token, category, chat_id, path, caption, mode_text(parse_mode))
        },
        ApiCallView::SendMessage { chat_id, text, parse_mode } => Ok(
            message_request(token, chat_id, text, mode_text(parse_mode)),
        ),
    }
}

impl TelegramClient {
    /// The request that makes the call. A call that sends a file is refused
    /// where the file's path has no final component.
    pub fn request(&self, call: ApiCall) -> (r: Result<ApiRequest, Error>)
        ensures
            request_result(r) == spec_request(self@, call@),
    {
        match call {
            ApiCall::SendFile { category, chat_id, path, caption, parse_mode } => {
                let mode = match &parse_mode {
                    Some(m) => Some(m.as_str()),
                    None => None,
                };
                let text = match &caption {
                    Some(c) => Some(c.as_str()),
                    None => None,
                };
                self.send_file(category, chat_id.as_str(), path, text, mode)
            },
            ApiCall::SendMessage { chat_id, text, parse_mode } => {
                let mode = match &parse_mode {
                    Some(m) => Some(m.as_str()),
                    None => None,
                };
                Ok(self.send_message(chat_id.as_str(), text.as_str(), mode))
            },
        }
    }
}

/// What a run is to do: the bot to act as and the calls to make, in order.
#[derive(Debug, PartialEq, Eq)]
pub struct Dispatch {
    pub bot_token: String,
    pub calls: Vec<ApiCall>,
}

/// A dispatch as contracts see it.
pub struct DispatchView {
    pub bot_token: Seq<char>,
    pub calls: Seq<ApiCallView>,
}

impl View for Dispatch {
    type V = DispatchView;

    open spec fn view(&self) -> DispatchView {
        DispatchView { bot_token: self.bot_token@, calls: calls_view(self.calls@) }
    }
}

/// A result of dispatching as contracts see it.
pub open spec fn dispatch_result(r: Result<Dispatch, Error>) -> Result<
    DispatchView,
    ErrorView,
> {
    match r {
        Ok(dispatch) => Ok(dispatch@),
        Err(e) => Err(e@),
    }
}

/// What a run is to do: an error where no target can be settled; else the
/// plan, for the chat in force, of the composed message and the files.
pub open spec fn spec_dispatch(
    config: ConfigView,
    cli: CliView,
    input: Option<Seq<char>>,
    files: Seq<ResolvedFile>,
) -> Result<DispatchView, ErrorView> {
    match spec_resolve_target(config, cli) {
        Err(e) => Err(e),
        Ok(target) => Ok(
            DispatchView {
                bot_token: target.bot_token,
                calls: spec_plan(target.chat_id, spec_compose(config, cli, input), files),
            },
        ),
    }
}

/// Decides what a run does, given what was read from standard input and the
/// files that the patterns were resolved to.
pub fn dispatch(config: &Config, cli: &Cli, input: Option<String>, files: Vec<ResolvedFile>) -> (r:
    Result<Dispatch, Error>)
    ensures
        dispatch_result(r) == spec_dispatch(config@, cli@, opt_text(input), files@),
{
    let target = match resolve_target(config, cli) {
        Ok(target) => target,
        Err(e) => {
            return Err(e);
        },
    };
    let message = compose(config, cli, input);
    let calls = plan(target.chat_id.as_str(), &message, files);
    Ok(Dispatch { bot_token: target.bot_token, calls })
}

/// Whether neither command line nor configuration holds a setting that is
/// not empty.
pub open spec fn lacking(over: Option<Seq<char>>, default: Option<Seq<char>>) -> bool {
    &&& over is None || over->0.len() == 0
    &&& default is None || default->0.len() == 0
}

/// Without a bot token that is not empty, on the command line or in the
/// configuration, a run fails before it plans a call; where a chat is
/// settled, it fails for want of the credential.
pub proof fn lemma_missing_credential(
    config: ConfigView,
    cli: CliView,
    input: Option<Seq<char>>,
    files: Seq<ResolvedFile>,
)
    requires
        lacking(cli.bot_token, config.bot_token),
    ensures
        spec_dispatch(config, cli, input, files) is Err,
        !lacking(cli.chat_id, config.default_chat_id) ==> spec_dispatch(config, cli, input, files)
            == Err::<DispatchView, ErrorView>(ErrorView::NoCredential),
{
}

/// Without a chat that is not empty, on the command line or in the
/// configuration, a run fails for want of the destination.
pub proof fn lemma_missing_destination(
    config: ConfigView,
    cli: CliView,
    input: Option<Seq<char>>,
    files: Seq<ResolvedFile>,
)
    requires
        lacking(cli.chat_id, config.default_chat_id),
    ensures
        spec_dispatch(config, cli, input, files) == Err::<DispatchView, ErrorView>(
            ErrorView::NoDestination,
        ),
{
}

/// The chat that a call goes to.
pub open spec fn call_chat(call: ApiCallView) -> Seq<char> {
    match call {
        ApiCallView::SendFile { chat_id, .. } => chat_id,
        ApiCallView::SendMessage { chat_id, .. } => chat_id,
    }
}

/// A chat given on the command line, and not empty, is the chat of every
/// call of the run, whatever the configuration's default.
pub proof fn lemma_override_wins(
    config: ConfigView,
    cli: CliView,
    input: Option<Seq<char>>,
    files: Seq<ResolvedFile>,
)
    requires
        cli.chat_id is Some,
        cli.chat_id->0.len() > 0,
        spec_dispatch(config, cli, input, files) is Ok,
    ensures
        forall|i: int|
            0 <= i < spec_dispatch(config, cli, input, files)->Ok_0.calls.len() ==> call_chat(
                #[trigger] spec_dispatch(config, cli, input, files)->Ok_0.calls[i],
            ) == cli.chat_id->0,
{
}

/// With files to send, every call sends a file, one call for each file in
/// order, each with the composed text as its caption; the text is not sent
/// by itself.
pub proof fn lemma_files_carry_the_text(
    chat_id: Seq<char>,
    message: ComposedView,
    files: Seq<ResolvedFile>,
)
    requires
        files.len() > 0,
    ensures
        spec_plan(chat_id, message, files).len() == files.len(),
        forall|i: int|
            0 <= i < files.len() ==> (#[trigger] spec_plan(chat_id, message, files)[i])
                == file_call(chat_id, message, files[i]),
{
}

/// Without files the text, if there is one, is sent by itself in one call;
/// without files and without a text no call is made.
pub proof fn lemma_text_alone(chat_id: Seq<char>, message: ComposedView)
    ensures
        message.final_text is None ==> spec_plan(chat_id, message, Seq::empty()).len() == 0,
        message.final_text is Some ==> spec_plan(chat_id, message, Seq::empty()) == seq![
            ApiCallView::SendMessage {
                chat_id,
                text: message.final_text->0,
                parse_mode: message.parse_mode,
            },
        ],
{
}

} // verus!
