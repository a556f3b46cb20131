use telegram_cli::cli::Cli;
use telegram_cli::compose::{
    compose, compose_text, raw_text, resolve_format, select_text, with_affixes, ComposedMessage,
    ParseMode,
};
use telegram_cli::config::{Config, Format};

fn config(prefix: Option<&str>, postfix: Option<&str>, format: Option<Format>) -> Config {
    Config {
        bot_token: Some("token".to_string()),
        default_chat_id: Some("111".to_string()),
        prefix: prefix.map(|s| s.to_string()),
        postfix: postfix.map(|s| s.to_string()),
        default_format: format,
    }
}

fn cli(message: Option<&str>) -> Cli {
    Cli {
        message: message.map(|s| s.to_string()),
        bot_token: None,
        chat_id: None,
        format: None,
        code: None,
        file: vec![],
        photo: vec![],
        video: vec![],
        audio: vec![],
        stdin: false,
    }
}

#[test]
fn parse_mode_names() {
    assert_eq!(ParseMode::Html.as_str(), "HTML");
    assert_eq!(ParseMode::MarkdownV2.as_str(), "MarkdownV2");
}

#[test]
fn command_line_format_beats_default() {
    let mut c = cli(None);
    assert_eq!(resolve_format(&config(None, None, None), &c), None);
    assert_eq!(
        resolve_format(&config(None, None, Some(Format::Html)), &c),
        Some(Format::Html)
    );
    c.format = Some(Format::No);
    assert_eq!(
        resolve_format(&config(None, None, Some(Format::Html)), &c),
        Some(Format::No)
    );
}

#[test]
fn raw_text_is_the_message_without_stdin_mode() {
    let c = cli(Some("hello world"));
    assert_eq!(raw_text(&c, None), Some("hello world".to_string()));
    assert_eq!(raw_text(&c, Some("ignored".to_string())), Some("hello world".to_string()));
    assert_eq!(raw_text(&cli(None), Some("ignored".to_string())), None);
}

#[test]
fn raw_text_is_the_input_in_stdin_mode() {
    let mut c = cli(Some("from the command line"));
    c.stdin = true;
    assert_eq!(raw_text(&c, Some("  piped\n".to_string())), Some("  piped\n".to_string()));
}

#[test]
fn blank_input_is_no_text() {
    let mut c = cli(Some("from the command line"));
    c.stdin = true;
    assert_eq!(raw_text(&c, Some("".to_string())), None);
    assert_eq!(raw_text(&c, Some(" \n\t \n".to_string())), None);
    assert_eq!(raw_text(&c, None), None);
}

#[test]
fn affixes_are_concatenated_untrimmed() {
    let c = config(Some(">> "), Some(" <<\n"), None);
    assert_eq!(with_affixes(&c, " hi "), ">>  hi  <<\n");
    assert_eq!(with_affixes(&config(None, None, None), " hi "), " hi ");
    assert_eq!(with_affixes(&config(Some("p"), None, None), "t"), "pt");
    assert_eq!(with_affixes(&config(None, Some("s"), None), "t"), "ts");
}

#[test]
fn plain_text_is_prefix_text_postfix() {
    let c = config(Some("[p] "), Some(" [s]"), None);
    let m = compose(&c, &cli(Some("hi <there>")), None);
    assert_eq!(
        m,
        ComposedMessage { final_text: Some("[p] hi <there> [s]".to_string()), parse_mode: None }
    );
}

#[test]
fn plain_text_takes_the_parse_mode_of_the_format() {
    let text = Some("t".to_string());
    let c = config(None, None, None);
    assert_eq!(
        compose_text(&c, &None, Some(Format::Html), text.clone()).parse_mode,
        Some(ParseMode::Html)
    );
    assert_eq!(
        compose_text(&c, &None, Some(Format::MarkdownV2), text.clone()).parse_mode,
        Some(ParseMode::MarkdownV2)
    );
    assert_eq!(compose_text(&c, &None, Some(Format::No), text.clone()).parse_mode, None);
    assert_eq!(compose_text(&c, &None, None, text).parse_mode, None);
}

#[test]
fn code_under_html_is_escaped_and_wrapped() {
    let c = config(Some("<p>"), Some("&s"), Some(Format::Html));
    let mut request = cli(Some("a > b"));
    request.code = Some("rust".to_string());
    let m = compose(&c, &request, None);
    assert_eq!(
        m.final_text,
        Some(
            "<pre><code class=\"language-rust\">&lt;p&gt;a &gt; b&amp;s</code></pre>".to_string()
        )
    );
    assert_eq!(m.parse_mode, Some(ParseMode::Html));
}

#[test]
fn code_under_other_formats_is_fenced() {
    let c = config(Some("<p>"), Some("&s"), None);
    let code = Some("py".to_string());
    for format in [None, Some(Format::MarkdownV2), Some(Format::No)] {
        let m = compose_text(&c, &code, format, Some("a > b".to_string()));
        assert_eq!(m.final_text, Some("```py\n<p>a > b&s\n```".to_string()));
        assert_eq!(m.parse_mode, Some(ParseMode::MarkdownV2));
    }
}

#[test]
fn no_text_is_no_message() {
    let c = config(Some("p"), Some("s"), Some(Format::Html));
    let mut request = cli(None);
    request.code = Some("rust".to_string());
    assert_eq!(
        compose(&c, &request, None),
        ComposedMessage { final_text: None, parse_mode: None }
    );
    request.stdin = true;
    assert_eq!(
        compose(&c, &request, Some("   ".to_string())),
        ComposedMessage { final_text: None, parse_mode: None }
    );
}

#[test]
fn empty_message_is_still_a_text() {
    let c = config(Some("p"), Some("s"), None);
    assert_eq!(compose(&c, &cli(Some("")), None).final_text, Some("ps".to_string()));
}

#[test]
fn selected_text_follows_the_blank_flag() {
    let mut c = cli(Some("m"));
    assert_eq!(select_text(&c, Some("in".to_string()), true), Some("m".to_string()));
    assert_eq!(select_text(&c, None, false), Some("m".to_string()));
    c.stdin = true;
    assert_eq!(select_text(&c, Some("in".to_string()), false), Some("in".to_string()));
    assert_eq!(select_text(&c, Some("in".to_string()), true), None);
    assert_eq!(select_text(&c, None, false), None);
}
