//! The webhook notice: its one-line text and the JSON body
//! `{content, username, avatar_url}` that carries it.
use vstd::prelude::*;

verus! {

/// serde_json's error type, carried only to be told apart from success.
#[verifier::external_type_specification]
#[verifier::external_body]
pub struct ExJsonError(serde_json::Error);

/// A lower-case hexadecimal digit.
pub open spec fn hex_digit(n: int) -> char {
    seq!['0', '1', '2', '3', '4', '5', '6', '7', '8', '9', 'a', 'b', 'c', 'd', 'e', 'f'][n]
}

/// How one character is written inside a JSON string literal: quote and
/// backslash escaped, the five short control escapes, other control
/// characters as `\u00xx`, everything else as it is.
pub open spec fn escaped_char(c: char) -> Seq<char> {
    if c == '"' {
        seq!['\\', '"']
    } else if c == '\\' {
        seq!['\\', '\\']
    } else if c == '\u{8}' {
        seq!['\\', 'b']
    } else if c == '\t' {
        seq!['\\', 't']
    } else if c == '\n' {
        seq!['\\', 'n']
    } else if c == '\u{c}' {
        seq!['\\', 'f']
    } else if c == '\r' {
        seq!['\\', 'r']
    } else if (c as u32) < 0x20 {
        seq!['\\', 'u', '0', '0', hex_digit((c as u32) as int / 16), hex_digit((c as u32) as int % 16)]
    } else {
        seq![c]
    }
}

/// The escaped characters of a text, in order.
pub open spec fn escaped(s: Seq<char>) -> Seq<char>
    decreases s.len(),
{
    if s.len() == 0 {
        Seq::empty()
    } else {
        escaped(s.drop_last()) + escaped_char(s.last())
    }
}

/// The JSON string literal of a text.
pub open spec fn json_quoted(s: Seq<char>) -> Seq<char> {
    seq!['"'] + escaped(s) + seq!['"']
}

/// A character that a JSON string literal holds as it is.
pub open spec fn is_plain_char(c: char) -> bool {
    c != '"' && c != '\\' && (c as u32) >= 0x20
}

/// Relies on serde_json::to_string on a `str`: it writes into a `Vec` and
/// so never fails, and yields the JSON string literal of `s`, escaped by
/// serde_json's table of escapes.
#[verifier::external_body]
fn quote_json(s: &str) -> (r: Result<String, serde_json::Error>)
    ensures
        r is Ok,
        r matches Ok(q) ==> q@ == json_quoted(s@),
{
    serde_json::to_string(s)
}

pub const CONTENT_OPEN: &'static str = "{\"content\":";

/// The fixed presentation fields that follow the content.
pub const PRESENTATION_FIELDS: &'static str =
    ",\"username\":\"droprealms-api\",\"avatar_url\":\"https://github.com/google.png\"}";

pub const BOOT_SUFFIX: &'static str = " was started to boot.";

pub const SHUTDOWN_SUFFIX: &'static str = " was started to shutdown.";

/// The notice of a successful query.
pub const QUERY_NOTICE: &'static str = "Instance information obtained.";

/// The webhook body around an already quoted content literal.
pub open spec fn webhook_body_of(quoted: Seq<char>) -> Seq<char> {
    CONTENT_OPEN@ + quoted + PRESENTATION_FIELDS@
}

/// Frames the webhook body around the JSON literal of its content.
pub fn frame_webhook_body(quoted: &str) -> (r: String)
    ensures
        r@ == webhook_body_of(quoted@),
{
    let mut body = String::from_str(CONTENT_OPEN);
    body.append(quoted);
    body.append(PRESENTATION_FIELDS);
    body
}

/// The webhook body that carries `text` as its content.
pub fn webhook_body(text: &str) -> (r: String)
    ensures
        r@ == webhook_body_of(json_quoted(text@)),
{
    match quote_json(text) {
        Ok(q) => frame_webhook_body(q.as_str()),
        // quote_json never fails on a str
        Err(_) => String::new(),
    }
}

/// A text made of plain characters is carried in the body as it is,
/// between quotes.
pub proof fn lemma_plain_text_quoted(s: Seq<char>)
    requires
        forall|i: int| 0 <= i < s.len() ==> is_plain_char(#[trigger] s[i]),
    ensures
        escaped(s) == s,
        webhook_body_of(json_quoted(s)) == CONTENT_OPEN@ + seq!['"'] + s + seq!['"']
            + PRESENTATION_FIELDS@,
    decreases s.len(),
{
    if s.len() > 0 {
        lemma_plain_text_quoted(s.drop_last());
        assert(escaped_char(s.last()) == seq![s.last()]);
        assert(s.drop_last().push(s.last()) =~= s);
        assert(s.drop_last() + seq![s.last()] =~= s);
    } else {
        assert(escaped(s) =~= s);
    }
    assert(webhook_body_of(json_quoted(s)) =~= CONTENT_OPEN@ + seq!['"'] + s + seq!['"']
        + PRESENTATION_FIELDS@);
}

/// The notice text after a start was triggered.
pub open spec fn boot_notice_of(name: Seq<char>) -> Seq<char> {
    name + BOOT_SUFFIX@
}

/// The notice text after a stop was triggered.
pub open spec fn shutdown_notice_of(name: Seq<char>) -> Seq<char> {
    name + SHUTDOWN_SUFFIX@
}

/// The notice text after a start was triggered.
pub fn boot_notice(name: &str) -> (r: String)
    ensures
        r@ == boot_notice_of(name@),
{
    let mut t = String::from_str(name);
    t.append(BOOT_SUFFIX);
    t
}

/// The notice text after a stop was triggered.
pub fn shutdown_notice(name: &str) -> (r: String)
    ensures
        r@ == shutdown_notice_of(name@),
{
    let mut t = String::from_str(name);
    t.append(SHUTDOWN_SUFFIX);
    t
}

} // verus!
