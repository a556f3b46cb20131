//! The requests that the Telegram Bot API is sent.

use crate::error::{Error, ErrorView};
use crate::paths::Category;
use crate::text::opt_text;
use std::path::PathBuf;
use vstd::prelude::*;

verus! {

/// How the body of a request is encoded.
#[derive(Debug, Clone, Copy, PartialEq, Eq, Structural)]
pub enum Encoding {
    /// Form fields, URL-encoded.
    Form,
    /// A multipart form.
    Multipart,
}

/// One field of a request's body.
#[derive(Debug, PartialEq, Eq)]
pub enum Part {
    /// A field that holds text.
    Text { name: String, value: String },
    /// A field that holds the contents of the file at `path`, under the file
    /// name `file_name`.
    File { name: String, file_name: String, path: PathBuf },
}

/// A field of a request's body as contracts see it.
pub enum PartView {
    Text { name: Seq<char>, value: Seq<char> },
    File { name: Seq<char>, file_name: Seq<char>, path: PathBuf },
}

impl View for Part {
    type V = PartView;

    open spec fn view(&self) -> PartView {
        match *self {
            Part::Text { name, value } => PartView::Text { name: name@, value: value@ },
            Part::File { name, file_name, path } => PartView::File {
                name: name@,
                file_name: file_name@,
                path,
            },
        }
    }
}

/// A request to the API: where it goes and what its body holds, in order.
/// `context` is the line that names the request should it fail.
#[derive(Debug, PartialEq, Eq)]
pub struct ApiRequest {
    pub context: String,
    pub url: String,
    pub encoding: Encoding,
    pub parts: Vec<Part>,
}

/// A request as contracts see it.
pub struct ApiRequestView {
    pub context: Seq<char>,
    pub url: Seq<char>,
    pub encoding: Encoding,
    pub parts: Seq<PartView>,
}

impl View for ApiRequest {
    type V = ApiRequestView;

    open spec fn view(&self) -> ApiRequestView {
        ApiRequestView {
            context: self.context@,
            url: self.url@,
            encoding: self.encoding,
            parts: self.parts@.map_values(|p: Part| p@),
        }
    }
}

/// An optional string slice as contracts see it.
pub open spec fn opt_str(text: Option<&str>) -> Option<Seq<char>> {
    match text {
        Some(s) => Some(s@),
        None => None,
    }
}

/// The final component of a path as text, that is what `Path::file_name`
/// returns, made text by `OsStr::to_string_lossy`; `None` where the path has
/// none.
pub uninterp spec fn final_component(path: PathBuf) -> Option<Seq<char>>;

/// A path as `Debug` of `PathBuf` writes it.
pub uninterp spec fn shown_path(path: PathBuf) -> Seq<char>;

/// The line that names a request that sends a text.
pub open spec fn message_context() -> Seq<char> {
    "Failed to send message"@
}

/// The line that names a request that sends a file: it tells the category's
/// field and the path as it is shown.
pub open spec fn file_context(category: Category, shown: Seq<char>) -> Seq<char> {
    "Failed to send "@ + category.spec_field_name() + " from path "@ + shown
}

/// The address of an API method for the bot with the given token.
pub open spec fn endpoint(token: Seq<char>, method: Seq<char>) -> Seq<char> {
    "https://api.telegram.org/bot"@ + token + "/"@ + method
}

/// A text field of a request.
pub open spec fn text_part(name: Seq<char>, value: Seq<char>) -> PartView {
    PartView::Text { name, value }
}

/// The field that names the parse mode, where there is one.
pub open spec fn parse_mode_parts(parse_mode: Option<Seq<char>>) -> Seq<PartView> {
    match parse_mode {
        Some(mode) => seq![text_part("parse_mode"@, mode)],
        None => Seq::empty(),
    }
}

/// The fields that a caption adds to a file's request: none without a
/// caption, whatever the parse mode; else the caption and, where there is
/// one, the parse mode.
pub open spec fn caption_parts(caption: Option<Seq<char>>, parse_mode: Option<Seq<char>>) -> Seq<
    PartView,
> {
    match caption {
        Some(text) => seq![text_part("caption"@, text)] + parse_mode_parts(parse_mode),
        None => Seq::empty(),
    }
}

/// The request that sends a text: the chat, the text and, where there is
/// one, the parse mode, as form fields for `sendMessage`.
pub open spec fn message_request(
    token: Seq<char>,
    chat_id: Seq<char>,
    text: Seq<char>,
    parse_mode: Option<Seq<char>>,
) -> ApiRequestView {
    ApiRequestView {
        context: message_context(),
        url: endpoint(token, "sendMessage"@),
        encoding: Encoding::Form,
        parts: seq![text_part("chat_id"@, chat_id), text_part("text"@, text)] + parse_mode_parts(
            parse_mode,
        ),
    }
}

/// The request that sends a file: the chat, the file under the field of its
/// category, and what the caption adds, as a multipart form for the
/// category's method. Its context names the category's field and the path.
pub open spec fn file_request(
    token: Seq<char>,
    category: Category,
    chat_id: Seq<char>,
    path: PathBuf,
    file_name: Seq<char>,
    caption: Option<Seq<char>>,
    parse_mode: Option<Seq<char>>,
) -> ApiRequestView {
    ApiRequestView {
        context: file_context(category, shown_path(path)),
        url: endpoint(token, category.spec_method()),
        encoding: Encoding::Multipart,
        parts: seq![
            text_part("chat_id"@, chat_id),
            PartView::File { name: category.spec_field_name(), file_name, path },
        ] + caption_parts(caption, parse_mode),
    }
}

/// What sending a file comes to once the file's name is known: the request,
/// or no request where the path has no name to give.
pub open spec fn upload_outcome(
    token: Seq<char>,
    category: Category,
    chat_id: Seq<char>,
    path: PathBuf,
    file_name: Option<Seq<char>>,
    caption: Option<Seq<char>>,
    parse_mode: Option<Seq<char>>,
) -> Result<ApiRequestView, ErrorView> {
    match file_name {
        Some(name) => Ok(file_request(token, category, chat_id, path, name, caption, parse_mode)),
        None => Err(ErrorView::InvalidFilePath),
    }
}

/// What sending the file at a path comes to: the request under the name of
/// the path's final component, or no request where the path has none.
pub open spec fn send_file_outcome(
    token: Seq<char>,
    category: Category,
    chat_id: Seq<char>,
    path: PathBuf,
    caption: Option<Seq<char>>,
    parse_mode: Option<Seq<char>>,
) -> Result<ApiRequestView, ErrorView> {
    upload_outcome(token, category, chat_id, path, final_component(path), caption, parse_mode)
}

/// A result of building a request as contracts see it.
pub open spec fn request_result(r: Result<ApiRequest, Error>) -> Result<
    ApiRequestView,
    ErrorView,
> {
    match r {
        Ok(request) => Ok(request@),
        Err(e) => Err(e@),
    }
}

/// Whether an HTTP status is in the success range.
pub open spec fn is_success(status: u16) -> bool {
    200 <= status < 300
}

/// What a status comes to for the request that `context` names: success
/// inside the success range, else the error that holds the status and the
/// context.
pub open spec fn status_outcome(status: u16, context: Seq<char>) -> Result<(), ErrorView> {
    if is_success(status) {
        Ok(())
    } else {
        Err(ErrorView::RemoteError { status, context })
    }
}

/// A result of judging a status as contracts see it.
pub open spec fn status_result(r: Result<(), Error>) -> Result<(), ErrorView> {
    match r {
        Ok(()) => Ok(()),
        Err(e) => Err(e@),
    }
}

/// Judges the status that the API answered a request with: any status
/// outside the success range is an error that holds the status and the
/// context, which is the request's.
pub fn check_status(status: u16, context: &str) -> (r: Result<(), Error>)
    ensures
        status_result(r) == status_outcome(status, context@),
{
    if 200 <= status && status < 300 {
        Ok(())
    } else {
        Err(Error::RemoteError { status, context: context.to_owned() })
    }
}

/// Calls `Path::file_name` and turns the name into text with
/// `OsStr::to_string_lossy`. Trusted: the name, or its absence, depends on
/// the path alone.
#[verifier::external_body]
fn file_name(path: &PathBuf) -> (r: Option<String>)
    ensures
        opt_text(r) == final_component(*path),
{
    path.file_name().map(|name| name.to_string_lossy().to_string())
}

/// Formats the path with `{:?}`, that is by `Debug` of `PathBuf`. Trusted:
/// the text depends on the path alone.
#[verifier::external_body]
fn show_path(path: &PathBuf) -> (r: String)
    ensures
        r@ == shown_path(*path),
{
    format!("{:?}", path)
}

/// The line that names a request that sends a file of the category, of
/// which `shown` is the path as it is to be read.
pub fn file_failure_context(category: Category, shown: &str) -> (r: String)
    ensures
        r@ == file_context(category, shown@),
{
    let mut line = "Failed to send ".to_owned();
    line.append(category.field_name());
    line.append(" from path ");
    line.append(shown);
    line
}

/// A client of the API for one bot: it holds the bot's token and describes
/// the requests to make. `@` gives the token.
pub struct TelegramClient {
    bot_token: String,
}

impl View for TelegramClient {
    type V = Seq<char>;

    closed spec fn view(&self) -> Seq<char> {
        self.bot_token@
    }
}

impl TelegramClient {
    /// A client for the bot with the given token.
    pub fn new(bot_token: String) -> (r: Self)
        ensures
            r@ == bot_token@,
    {
        Self { bot_token }
    }

    /// The address of an API method for this bot.
    fn url(&self, method: &str) -> (r: String)
        ensures
            r@ == endpoint(self@, method@),
    {
        let mut url = "https://api.telegram.org/bot".to_owned();
        url.append(self.bot_token.as_str());
        url.append("/");
        url.append(method);
        url
    }

    /// The request that sends `text` to the chat.
    pub fn send_message(&self, chat_id: &str, text: &str, parse_mode: Option<&str>) -> (r:
        ApiRequest)
        ensures
            r@ == message_request(self@, chat_id@, text@, opt_str(parse_mode)),
    {
        let mut parts: Vec<Part> = Vec::new();
        parts.push(Part::Text { name: "chat_id".to_owned(), value: chat_id.to_owned() });
        parts.push(Part::Text { name: "text".to_owned(), value: text.to_owned() });
        match parse_mode {
            Some(mode) => {
                parts.push(Part::Text { name: "parse_mode".to_owned(), value: mode.to_owned() });
            },
            None => {},
        }
        let r = ApiRequest {
            context: "Failed to send message".to_owned(),
            url: self.url("sendMessage"),
            encoding: Encoding::Form,
            parts,
        };
        assert(r@.parts =~= message_request(self@, chat_id@, text@, opt_str(parse_mode)).parts);
        r
    }

    /// The request that sends the file at `file_path`, of which `file_name`
    /// is the final component, if it has one.
    pub fn upload(
        &self,
        category: Category,
        chat_id: &str,
        file_path: PathBuf,
        file_name: Option<String>,
        caption: Option<&str>,
        parse_mode: Option<&str>,
    ) -> (r: Result<ApiRequest, Error>)
        ensures
            request_result(r) == upload_outcome(
                self@,
                category,
                chat_id@,
                file_path,
                opt_text(file_name),
                opt_str(caption),
                opt_str(parse_mode),
            ),
    {
        let name = match file_name {
            Some(name) => name,
            None => {
                return Err(Error::InvalidFilePath);
            },
        };
        let shown = show_path(&file_path);
        let context = file_failure_context(category, shown.as_str());
        let mut parts: Vec<Part> = Vec::new();
        parts.push(Part::Text { name: "chat_id".to_owned(), value: chat_id.to_owned() });
        parts.push(
            Part::File { name: category.field_name().to_owned(), file_name: name, path: file_path },
        );
        match caption {
            Some(text) => {
                parts.push(Part::Text { name: "caption".to_owned(), value: text.to_owned() });
                match parse_mode {
                    Some(mode) => {
                        parts.push(
                            Part::Text { name: "parse_mode".to_owned(), value: mode.to_owned() },
                        );
                    },
                    None => {},
                }
            },
            None => {},
        }
        let r = ApiRequest {
            context,
            url: self.url(category.method()),
            encoding: Encoding::Multipart,
            parts,
        };
        assert(r@.parts =~= file_request(
            self@,
            category,
            chat_id@,
            file_path,
            name@,
            opt_str(caption),
            opt_str(parse_mode),
        ).parts);
        Ok(r)
    }

    /// The request that sends the file at `file_path` in the way of its
    /// category. The file goes under the name of the path's final component;
    /// a path without one is refused.
    pub fn send_file(
        &self,
        category: Category,
        chat_id: &str,
        file_path: PathBuf,
        caption: Option<&str>,
        parse_mode: Option<&str>,
    ) -> (r: Result<ApiRequest, Error>)
        ensures
            request_result(r) == send_file_outcome(
                self@,
                category,
                chat_id@,
                file_path,
                opt_str(caption),
                opt_str(parse_mode),
            ),
    {
        let name = file_name(&file_path);
        self.upload(category, chat_id, file_path, name, caption, parse_mode)
    }

    /// The request that sends the file as a document.
    pub fn send_document(
        &self,
        chat_id: &str,
        file_path: PathBuf,
        caption: Option<&str>,
        parse_mode: Option<&str>,
    ) -> (r: Result<ApiRequest, Error>)
        ensures
            request_result(r) == send_file_outcome(
                self@,
                Category::Document,
                chat_id@,
                file_path,
                opt_str(caption),
                opt_str(parse_mode),
            ),
    {
        self.send_file(Category::Document, chat_id, file_path, caption, parse_mode)
    }

    /// The request that sends the file as a photo.
    pub fn send_photo(
        &self,
        chat_id: &str,
        file_path: PathBuf,
        caption: Option<&str>,
        parse_mode: Option<&str>,
    ) -> (r: Result<ApiRequest, Error>)
        ensures
            request_result(r) == send_file_outcome(
                self@,
                Category::Photo,
                chat_id@,
                file_path,
                opt_str(caption),
                opt_str(parse_mode),
            ),
    {
        self.send_file(Category::Photo, chat_id, file_path, caption, parse_mode)
    }

    /// The request that sends the file as a video.
    pub fn send_video(
        &self,
        chat_id: &str,
        file_path: PathBuf,
        caption: Option<&str>,
        parse_mode: Option<&str>,
    ) -> (r: Result<ApiRequest, Error>)
        ensures
            request_result(r) == send_file_outcome(
                self@,
                Category::Video,
                chat_id@,
                file_path,
                opt_str(caption),
                opt_str(parse_mode),
            ),
    {
        self.send_file(Category::Video, chat_id, file_path, caption, parse_mode)
    }

    /// The request that sends the file as audio.
    pub fn send_audio(
        &self,
        chat_id: &str,
        file_path: PathBuf,
        caption: Option<&str>,
        parse_mode: Option<&str>,
    ) -> (r: Result<ApiRequest, Error>)
        ensures
            request_result(r) == send_file_outcome(
                self@,
                Category::Audio,
                chat_id@,
                file_path,
                opt_str(caption),
                opt_str(parse_mode),
            ),
    {
        self.send_file(Category::Audio, chat_id, file_path, caption, parse_mode)
    }
}

/// A request that sends a file and is answered with a status outside the
/// success range fails with an error that holds the status and names the
/// category's field and the path; answered with a status inside the range
/// it succeeds.
pub proof fn lemma_failed_file_send_names_the_file(
    token: Seq<char>,
    category: Category,
    chat_id: Seq<char>,
    path: PathBuf,
    file_name: Seq<char>,
    caption: Option<Seq<char>>,
    parse_mode: Option<Seq<char>>,
    status: u16,
)
    ensures
        ({
            let request = file_request(
                token,
                category,
                chat_id,
                path,
                file_name,
                caption,
                parse_mode,
            );
            status_outcome(status, request.context) == if 200 <= status <= 299 {
                Ok::<(), ErrorView>(())
            } else {
                Err(
                    ErrorView::RemoteError {
                        status,
                        context: "Failed to send "@ + category.spec_field_name() + " from path "@
                            + shown_path(path),
                    },
                )
            }
        }),
{
}

} // verus!
