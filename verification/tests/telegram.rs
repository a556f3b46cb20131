use std::path::PathBuf;
use telegram_cli::compose::ParseMode;
use telegram_cli::dispatch::ApiCall;
use telegram_cli::error::Error;
use telegram_cli::paths::Category;
use telegram_cli::telegram::{
    check_status, file_failure_context, ApiRequest, Encoding, Part, TelegramClient,
};

fn text(name: &str, value: &str) -> Part {
    Part::Text { name: name.to_string(), value: value.to_string() }
}

fn file(name: &str, file_name: &str, path: &str) -> Part {
    Part::File {
        name: name.to_string(),
        file_name: file_name.to_string(),
        path: PathBuf::from(path),
    }
}

#[test]
fn message_request_without_parse_mode() {
    let client = TelegramClient::new("123:abc".to_string());
    assert_eq!(
        client.send_message("42", "hello", None),
        ApiRequest {
            context: "Failed to send message".to_string(),
            url: "https://api.telegram.org/bot123:abc/sendMessage".to_string(),
            encoding: Encoding::Form,
            parts: vec![text("chat_id", "42"), text("text", "hello")],
        }
    );
}

#[test]
fn message_request_with_parse_mode() {
    let client = TelegramClient::new("123:abc".to_string());
    let request = client.send_message("42", "<b>hello</b>", Some("HTML"));
    assert_eq!(
        request.parts,
        vec![text("chat_id", "42"), text("text", "<b>hello</b>"), text("parse_mode", "HTML")]
    );
}

#[test]
fn photo_request_with_caption_and_parse_mode() {
    let client = TelegramClient::new("T".to_string());
    let request =
        client.send_photo("42", PathBuf::from("/tmp/pics/cat.png"), Some("a cat"), Some("HTML"));
    assert_eq!(
        request,
        Ok(ApiRequest {
            context: "Failed to send photo from path \"/tmp/pics/cat.png\"".to_string(),
            url: "https://api.telegram.org/botT/sendPhoto".to_string(),
            encoding: Encoding::Multipart,
            parts: vec![
                text("chat_id", "42"),
                file("photo", "cat.png", "/tmp/pics/cat.png"),
                text("caption", "a cat"),
                text("parse_mode", "HTML"),
            ],
        })
    );
}

#[test]
fn parse_mode_goes_only_with_a_caption() {
    let client = TelegramClient::new("T".to_string());
    let request = client.send_document("42", PathBuf::from("notes.txt"), None, Some("HTML"));
    assert_eq!(
        request.unwrap().parts,
        vec![text("chat_id", "42"), file("document", "notes.txt", "notes.txt")]
    );
    let request = client.send_document("42", PathBuf::from("notes.txt"), Some("c"), None);
    assert_eq!(
        request.unwrap().parts,
        vec![text("chat_id", "42"), file("document", "notes.txt", "notes.txt"), text("caption", "c")]
    );
}

#[test]
fn each_category_has_its_method_and_field() {
    let client = TelegramClient::new("T".to_string());
    let video = client.send_video("1", PathBuf::from("dir/v.mp4"), None, None).unwrap();
    assert_eq!(video.url, "https://api.telegram.org/botT/sendVideo");
    assert_eq!(video.context, "Failed to send video from path \"dir/v.mp4\"");
    assert_eq!(video.parts[1], file("video", "v.mp4", "dir/v.mp4"));
    let audio = client.send_audio("1", PathBuf::from("dir/a.mp3"), None, None).unwrap();
    assert_eq!(audio.url, "https://api.telegram.org/botT/sendAudio");
    assert_eq!(audio.parts[1], file("audio", "a.mp3", "dir/a.mp3"));
    let document = client.send_document("1", PathBuf::from("d.pdf"), None, None).unwrap();
    assert_eq!(document.url, "https://api.telegram.org/botT/sendDocument");
    assert_eq!(document.parts[1], file("document", "d.pdf", "d.pdf"));
    let photo = client.send_file(Category::Photo, "1", PathBuf::from("p.jpg"), None, None);
    assert_eq!(photo.unwrap().url, "https://api.telegram.org/botT/sendPhoto");
}

#[test]
fn category_names() {
    assert_eq!(Category::Document.field_name(), "document");
    assert_eq!(Category::Photo.field_name(), "photo");
    assert_eq!(Category::Video.field_name(), "video");
    assert_eq!(Category::Audio.field_name(), "audio");
    assert_eq!(Category::Document.method(), "sendDocument");
    assert_eq!(Category::Photo.method(), "sendPhoto");
    assert_eq!(Category::Video.method(), "sendVideo");
    assert_eq!(Category::Audio.method(), "sendAudio");
}

#[test]
fn path_without_a_file_name_is_refused() {
    let client = TelegramClient::new("T".to_string());
    assert_eq!(
        client.send_photo("1", PathBuf::from("pics/.."), Some("c"), None),
        Err(Error::InvalidFilePath)
    );
    assert_eq!(
        client.send_document("1", PathBuf::from("/"), None, None),
        Err(Error::InvalidFilePath)
    );
}

#[test]
fn upload_takes_the_name_it_is_given() {
    let client = TelegramClient::new("T".to_string());
    let request = client.upload(
        Category::Audio,
        "7",
        PathBuf::from("x/y.ogg"),
        Some("other.ogg".to_string()),
        None,
        None,
    );
    assert_eq!(
        request.unwrap().parts,
        vec![text("chat_id", "7"), file("audio", "other.ogg", "x/y.ogg")]
    );
    let request = client.upload(Category::Audio, "7", PathBuf::from("x/y.ogg"), None, None, None);
    assert_eq!(request, Err(Error::InvalidFilePath));
}

#[test]
fn calls_become_requests() {
    let client = TelegramClient::new("T".to_string());
    let request = client.request(ApiCall::SendMessage {
        chat_id: "5".to_string(),
        text: "hi".to_string(),
        parse_mode: Some(ParseMode::MarkdownV2),
    });
    assert_eq!(request, Ok(client.send_message("5", "hi", Some("MarkdownV2"))));
    let request = client.request(ApiCall::SendFile {
        category: Category::Video,
        chat_id: "5".to_string(),
        path: PathBuf::from("clip.mp4"),
        caption: Some("hi".to_string()),
        parse_mode: Some(ParseMode::Html),
    });
    assert_eq!(
        request,
        client.send_video("5", PathBuf::from("clip.mp4"), Some("hi"), Some("HTML"))
    );
    assert_eq!(
        request.unwrap().parts,
        vec![
            text("chat_id", "5"),
            file("video", "clip.mp4", "clip.mp4"),
            text("caption", "hi"),
            text("parse_mode", "HTML"),
        ]
    );
}

#[test]
fn success_range_of_statuses() {
    assert_eq!(check_status(200, "c"), Ok(()));
    assert_eq!(check_status(204, "c"), Ok(()));
    assert_eq!(check_status(299, "c"), Ok(()));
}

#[test]
fn statuses_outside_the_success_range() {
    for status in [100, 199, 300, 302, 400, 401, 404, 429, 500, 503] {
        assert_eq!(
            check_status(status, "Failed to send message"),
            Err(Error::RemoteError { status, context: "Failed to send message".to_string() })
        );
    }
}

#[test]
fn failure_context_names_field_and_path() {
    assert_eq!(
        file_failure_context(Category::Audio, "\"a b.mp3\""),
        "Failed to send audio from path \"a b.mp3\""
    );
    assert_eq!(file_failure_context(Category::Document, ""), "Failed to send document from path ");
}

#[test]
fn failed_file_send_names_the_file() {
    let client = TelegramClient::new("T".to_string());
    let request = client.send_document("1", PathBuf::from("dir/report one.pdf"), None, None);
    let request = request.unwrap();
    assert_eq!(request.context, "Failed to send document from path \"dir/report one.pdf\"");
    assert_eq!(
        check_status(403, &request.context),
        Err(Error::RemoteError {
            status: 403,
            context: "Failed to send document from path \"dir/report one.pdf\"".to_string(),
        })
    );
    assert_eq!(check_status(200, &request.context), Ok(()));
}

#[test]
fn failed_text_send_names_the_message() {
    let client = TelegramClient::new("T".to_string());
    let request = client.send_message("1", "hi", None);
    assert_eq!(
        check_status(500, &request.context).unwrap_err().message(),
        "Failed to send message"
    );
}
