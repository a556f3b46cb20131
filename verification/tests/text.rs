use telegram_cli::text::{blank, escape_html, fenced_block, html_block};

#[test]
fn escape_replaces_the_three_characters() {
    assert_eq!(escape_html("a<b&c>d"), "a&lt;b&amp;c&gt;d");
}

#[test]
fn escape_leaves_other_text_alone() {
    assert_eq!(escape_html("plain \"text\" 'here' / 100%"), "plain \"text\" 'here' / 100%");
    assert_eq!(escape_html(""), "");
}

#[test]
fn escape_is_applied_once() {
    assert_eq!(escape_html("&"), "&amp;");
    assert_eq!(escape_html("<>"), "&lt;&gt;");
    assert_eq!(escape_html("&lt;"), "&amp;lt;");
    assert_eq!(escape_html(&escape_html("<")), "&amp;lt;");
}

#[test]
fn escape_keeps_characters_outside_ascii() {
    assert_eq!(escape_html("é<日本>&ü"), "é&lt;日本&gt;&amp;ü");
}

#[test]
fn html_block_wraps_and_escapes() {
    assert_eq!(
        html_block("rust", "if a < b && c > d {}"),
        "<pre><code class=\"language-rust\">if a &lt; b &amp;&amp; c &gt; d {}</code></pre>"
    );
}

#[test]
fn html_block_does_not_escape_the_language() {
    assert_eq!(html_block("c<>", "x"), "<pre><code class=\"language-c<>\">x</code></pre>");
}

#[test]
fn fenced_block_wraps_verbatim() {
    assert_eq!(fenced_block("rust", "a < b && c"), "```rust\na < b && c\n```");
    assert_eq!(fenced_block("", ""), "```\n\n```");
}

#[test]
fn blank_texts() {
    assert!(blank(""));
    assert!(blank(" "));
    assert!(blank(" \t\r\n"));
    assert!(blank("\u{a0}\u{2003}\u{3000}"));
}

#[test]
fn texts_that_are_not_blank() {
    assert!(!blank("x"));
    assert!(!blank("  x  "));
    assert!(!blank("\n.\n"));
    assert!(!blank("\u{200b}"));
}

#[test]
fn blank_characters_are_those_of_white_space() {
    for c in '\0'..=char::MAX {
        let n = c as u32;
        let white = matches!(
            n,
            0x0009..=0x000d
                | 0x0020
                | 0x0085
                | 0x00a0
                | 0x1680
                | 0x2000..=0x200a
                | 0x2028
                | 0x2029
                | 0x202f
                | 0x205f
                | 0x3000
        );
        let mut text = String::new();
        text.push(c);
        assert_eq!(blank(&text), white, "U+{:04X}", n);
    }
}
