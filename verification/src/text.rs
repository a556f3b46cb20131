//! Operations on message text: escaping for HTML, code blocks, blank input.

use vstd::prelude::*;

verus! {

/// An optional text as contracts see it.
pub open spec fn opt_text(text: Option<String>) -> Option<Seq<char>> {
    match text {
        Some(s) => Some(s@),
        None => None,
    }
}

/// What a character becomes when text is escaped for HTML: the ampersand and
/// the two angle brackets turn into their entities, every other character
/// stays.
pub open spec fn escape_char(c: char) -> Seq<char> {
    if c == '&' {
        "&amp;"@
    } else if c == '<' {
        "&lt;"@
    } else if c == '>' {
        "&gt;"@
    } else {
        seq![c]
    }
}

/// Text escaped for HTML: each character replaced by `escape_char` of it.
pub open spec fn html_escape(s: Seq<char>) -> Seq<char>
    decreases s.len(),
{
    if s.len() == 0 {
        Seq::empty()
    } else {
        html_escape(s.drop_last()) + escape_char(s.last())
    }
}

/// `s` with every occurrence of the character `from` replaced by `to`.
pub open spec fn replace_char(s: Seq<char>, from: char, to: Seq<char>) -> Seq<char>
    decreases s.len(),
{
    if s.len() == 0 {
        Seq::empty()
    } else {
        replace_char(s.drop_last(), from, to) + (if s.last() == from {
            to
        } else {
            seq![s.last()]
        })
    }
}

/// Calls `str::replace` with a single character as the pattern. Trusted: the
/// result is the text in which each occurrence of `from` has given way to
/// `to`, all else unchanged.
#[verifier::external_body]
fn replace(text: &str, from: char, to: &str) -> (r: String)
    ensures
        r@ == replace_char(text@, from, to@),
{
    text.replace(from, to)
}

/// Replacing in a concatenation replaces in both parts.
pub proof fn lemma_replace_concat(a: Seq<char>, b: Seq<char>, from: char, to: Seq<char>)
    ensures
        replace_char(a + b, from, to) == replace_char(a, from, to) + replace_char(b, from, to),
    decreases b.len(),
{
    if b.len() == 0 {
        assert(a + b =~= a);
        assert(replace_char(a, from, to) + replace_char(b, from, to) =~= replace_char(a, from, to));
    } else {
        assert((a + b).drop_last() =~= a + b.drop_last());
        assert((a + b).last() == b.last());
        lemma_replace_concat(a, b.drop_last(), from, to);
        let tail = if b.last() == from { to } else { seq![b.last()] };
        assert(replace_char(a + b, from, to) =~= replace_char(a, from, to) + (replace_char(
            b.drop_last(),
            from,
            to,
        ) + tail));
    }
}

/// Text that does not hold `from` is left as it is.
pub proof fn lemma_replace_absent(s: Seq<char>, from: char, to: Seq<char>)
    requires
        forall|i: int| 0 <= i < s.len() ==> s[i] != from,
    ensures
        replace_char(s, from, to) == s,
    decreases s.len(),
{
    if s.len() == 0 {
        assert(s =~= Seq::empty());
    } else {
        lemma_replace_absent(s.drop_last(), from, to);
        assert(s.drop_last() + seq![s.last()] =~= s);
    }
}

/// Replacing in a text of one character.
proof fn lemma_replace_single(c: char, from: char, to: Seq<char>)
    ensures
        replace_char(seq![c], from, to) == if c == from { to } else { seq![c] },
{
    let s = seq![c];
    assert(s.drop_last() =~= Seq::<char>::empty());
    assert(replace_char(s.drop_last(), from, to) =~= Seq::<char>::empty());
    assert(s.last() == c);
    let tail = if c == from { to } else { seq![c] };
    assert(Seq::<char>::empty() + tail =~= tail);
}

/// The three replacements in turn, the ampersand first.
pub open spec fn three_passes(s: Seq<char>) -> Seq<char> {
    replace_char(replace_char(replace_char(s, '&', "&amp;"@), '<', "&lt;"@), '>', "&gt;"@)
}

/// On one character the three replacements give its escape: the entity
/// that an earlier pass wrote is not touched by a later one.
proof fn lemma_three_passes_single(c: char)
    ensures
        three_passes(seq![c]) == escape_char(c),
{
    reveal_strlit("&amp;");
    reveal_strlit("&lt;");
    reveal_strlit("&gt;");
    let amp = "&amp;"@;
    let lt = "&lt;"@;
    let gt = "&gt;"@;
    lemma_replace_single(c, '&', amp);
    if c == '&' {
        lemma_replace_absent(amp, '<', lt);
        lemma_replace_absent(amp, '>', gt);
    } else if c == '<' {
        lemma_replace_single(c, '<', lt);
        lemma_replace_absent(lt, '>', gt);
    } else if c == '>' {
        lemma_replace_single(c, '<', lt);
        lemma_replace_single(c, '>', gt);
    } else {
        lemma_replace_single(c, '<', lt);
        lemma_replace_single(c, '>', gt);
    }
}

/// Replacing the ampersand, then `<`, then `>` escapes each character of the
/// text once.
pub proof fn lemma_three_passes(s: Seq<char>)
    ensures
        three_passes(s) == html_escape(s),
    decreases s.len(),
{
    let amp = "&amp;"@;
    let lt = "&lt;"@;
    let gt = "&gt;"@;
    if s.len() == 0 {
    } else {
        let head = s.drop_last();
        let c = s.last();
        assert(head + seq![c] =~= s);
        lemma_three_passes(head);
        lemma_three_passes_single(c);
        lemma_replace_concat(head, seq![c], '&', amp);
        lemma_replace_concat(
            replace_char(head, '&', amp),
            replace_char(seq![c], '&', amp),
            '<',
            lt,
        );
        lemma_replace_concat(
            replace_char(replace_char(head, '&', amp), '<', lt),
            replace_char(replace_char(seq![c], '&', amp), '<', lt),
            '>',
            gt,
        );
    }
}

/// Escapes text for HTML: `&` becomes `&amp;`, `<` becomes `&lt;`, `>`
/// becomes `&gt;`, each occurrence once.
pub fn escape_html(text: &str) -> (r: String)
    ensures
        r@ == html_escape(text@),
{
    let first = replace(text, '&', "&amp;");
    let second = replace(first.as_str(), '<', "&lt;");
    let third = replace(second.as_str(), '>', "&gt;");
    proof {
        lemma_three_passes(text@);
    }
    third
}

/// Escaping a concatenation escapes both parts.
pub proof fn lemma_escape_concat(a: Seq<char>, b: Seq<char>)
    ensures
        html_escape(a + b) == html_escape(a) + html_escape(b),
    decreases b.len(),
{
    if b.len() == 0 {
        assert(a + b =~= a);
        assert(html_escape(a) + html_escape(b) =~= html_escape(a));
    } else {
        assert((a + b).drop_last() =~= a + b.drop_last());
        assert((a + b).last() == b.last());
        lemma_escape_concat(a, b.drop_last());
        assert(html_escape(a + b) =~= html_escape(a) + (html_escape(b.drop_last()) + escape_char(
            b.last(),
        )));
    }
}

/// The escape of a text of one character is the escape of the character.
pub proof fn lemma_escape_single(c: char)
    ensures
        html_escape(seq![c]) == escape_char(c),
{
    let s = seq![c];
    assert(s.drop_last() =~= Seq::<char>::empty());
    assert(html_escape(s.drop_last()) =~= Seq::<char>::empty());
    assert(Seq::<char>::empty() + escape_char(c) =~= escape_char(c));
}

/// Text without `&`, `<` and `>` is its own escape.
pub proof fn lemma_escape_plain(s: Seq<char>)
    requires
        forall|i: int| 0 <= i < s.len() ==> s[i] != '&' && s[i] != '<' && s[i] != '>',
    ensures
        html_escape(s) == s,
    decreases s.len(),
{
    if s.len() == 0 {
        assert(s =~= Seq::empty());
    } else {
        lemma_escape_plain(s.drop_last());
        assert(s.drop_last() + seq![s.last()] =~= s);
    }
}

/// A code block in HTML: the text, escaped, inside `pre` and `code` elements
/// that name the language.
pub open spec fn html_code_block(lang: Seq<char>, body: Seq<char>) -> Seq<char> {
    "<pre><code class=\"language-"@ + lang + "\">"@ + html_escape(body) + "</code></pre>"@
}

/// A fenced code block: the text as it is, between two lines of three
/// backticks, the first of which names the language.
pub open spec fn fenced_code_block(lang: Seq<char>, body: Seq<char>) -> Seq<char> {
    "```"@ + lang + "\n"@ + body + "\n```"@
}

/// Wraps text as an HTML code block for the language `lang`.
pub fn html_block(lang: &str, body: &str) -> (r: String)
    ensures
        r@ == html_code_block(lang@, body@),
{
    let escaped = escape_html(body);
    let mut out = "<pre><code class=\"language-".to_owned();
    out.append(lang);
    out.append("\">");
    out.append(escaped.as_str());
    out.append("</code></pre>");
    out
}

/// Wraps text as a fenced code block for the language `lang`.
pub fn fenced_block(lang: &str, body: &str) -> (r: String)
    ensures
        r@ == fenced_code_block(lang@, body@),
{
    let mut out = "```".to_owned();
    out.append(lang);
    out.append("\n");
    out.append(body);
    out.append("\n```");
    out
}

/// Whether the character has the Unicode property White_Space: the
/// controls from tab to carriage return, the space, the next-line control,
/// the no-break space, and the spaces and separators beyond Latin-1.
pub open spec fn is_white_space(c: char) -> bool {
    let n = c as u32;
    ||| 0x0009 <= n <= 0x000d
    ||| n == 0x0020
    ||| n == 0x0085
    ||| n == 0x00a0
    ||| n == 0x1680
    ||| 0x2000 <= n <= 0x200a
    ||| n == 0x2028
    ||| n == 0x2029
    ||| n == 0x202f
    ||| n == 0x205f
    ||| n == 0x3000
}

/// Calls `char::is_whitespace`. Trusted: it holds exactly of the characters
/// with the Unicode property White_Space.
#[verifier::external_body]
fn char_is_whitespace(c: char) -> (r: bool)
    ensures
        r == is_white_space(c),
{
    c.is_whitespace()
}

/// Text that holds nothing but white space; the empty text is blank.
pub open spec fn is_blank(s: Seq<char>) -> bool {
    forall|i: int| 0 <= i < s.len() ==> is_white_space(#[trigger] s[i])
}

/// Whether the text is empty or holds white space only.
pub fn blank(text: &str) -> (r: bool)
    ensures
        r == is_blank(text@),
{
    let mut all: bool = true;
    for c in it: text.chars()
        invariant
            it.seq() == text@,
            all == is_blank(text@.take(it.index() as int)),
    {
        proof {
            lemma_blank_push(text@, it.index() as int);
        }
        all = all && char_is_whitespace(c);
    }
    assert(text@.take(text@.len() as int) =~= text@);
    all
}

/// A prefix of a text is blank exactly if the prefix one character shorter
/// is blank and that character is white space.
proof fn lemma_blank_push(s: Seq<char>, i: int)
    requires
        0 <= i < s.len(),
    ensures
        is_blank(s.take(i + 1)) == (is_blank(s.take(i)) && is_white_space(s[i])),
{
    let short = s.take(i);
    let long = s.take(i + 1);
    if is_blank(long) {
        assert(is_white_space(long[i]));
        assert forall|j: int| 0 <= j < short.len() implies is_white_space(#[trigger] short[j]) by {
            assert(is_white_space(long[j]));
        }
    }
    if is_blank(short) && is_white_space(s[i]) {
        assert forall|j: int| 0 <= j < long.len() implies is_white_space(#[trigger] long[j]) by {
            if j < i {
                assert(is_white_space(short[j]));
            }
        }
    }
}

} // verus!
