//! The chat adapter that posts messages to a Discord channel through its
//! HTTP API: where the request goes, what it carries, how it is signed.
use vstd::prelude::*;

verus! {

/// The chat adapter backed by the Discord HTTP API.
pub struct API;

#[verifier::external_type_specification]
#[verifier::external_body]
pub struct ExJsonError(serde_json::Error);

/// Hexadecimal digit `d`, lower case.
pub open spec fn hex_digit(d: nat) -> char {
    if d < 10 {
        (d + 48) as char
    } else {
        (d + 87) as char
    }
}

/// How `serde_json` writes character `c` inside a string literal: the quote
/// and the backslash escaped with a backslash, the control characters below
/// 0x20 as `\b`, `\t`, `\n`, `\f`, `\r` or `\u00` and two hexadecimal
/// digits, every other character as it is.
pub open spec fn json_escaped_char(c: char) -> Seq<char> {
    if c == '"' {
        seq!['\\', '"']
    } else if c == '\\' {
        seq!['\\', '\\']
    } else if c == '\x08' {
        seq!['\\', 'b']
    } else if c == '\t' {
        seq!['\\', 't']
    } else if c == '\n' {
        seq!['\\', 'n']
    } else if c == '\x0c' {
        seq!['\\', 'f']
    } else if c == '\r' {
        seq!['\\', 'r']
    } else if (c as nat) < 32 {
        seq!['\\', 'u', '0', '0', hex_digit((c as nat) / 16), hex_digit((c as nat) % 16)]
    } else {
        seq![c]
    }
}

/// The characters of `text`, each written as `json_escaped_char` writes it.
pub open spec fn json_escaped(text: Seq<char>) -> Seq<char>
    decreases text.len(),
{
    if text.len() == 0 {
        Seq::empty()
    } else {
        json_escaped_char(text[0]) + json_escaped(text.drop_first())
    }
}

/// What `serde_json` writes for a string: the JSON string literal that holds
/// `text`, quotes and escapes included.
pub open spec fn json_string(text: Seq<char>) -> Seq<char> {
    seq!['"'] + json_escaped(text) + seq!['"']
}

/// Calls `serde_json::to_string` on `text`: the JSON string literal of
/// `text`, written by `format_escaped_str` with the compact formatter. On a `str` it succeeds: `str` serializes through `serialize_str`,
/// which only writes the quotes, the text and its escapes into the `Vec<u8>`
/// that `to_vec` allocates, and writing into a `Vec<u8>` does not fail.
#[verifier::external_body]
fn json_encode_str(text: &str) -> (encoded: Result<String, serde_json::Error>)
    ensures
        encoded is Ok,
        encoded matches Ok(literal) ==> literal@ == json_string(text@),
{
    serde_json::to_string(text)
}

/// The body of a request could not be encoded as JSON.
#[derive(Debug)]
pub enum MessageBodyError {
    Unencodable,
}

/// The JSON object `{"content": ..}` that carries `message`, written compactly.
pub open spec fn message_body_text(message: Seq<char>) -> Seq<char> {
    "{\"content\":"@ + json_string(message) + "}"@
}

/// The endpoint to which messages for channel `target_channel_id` are posted.
pub open spec fn message_url_text(target_channel_id: Seq<char>) -> Seq<char> {
    "https://discord.com/api/channels/"@ + target_channel_id + "/messages"@
}

impl API {
    /// The endpoint to which messages for channel `target_channel_id` are posted.
    pub fn message_url(target_channel_id: &str) -> (url: String)
        ensures
            url@ == message_url_text(target_channel_id@),
    {
        let mut url = String::from_str("https://discord.com/api/channels/");
        url.append(target_channel_id);
        url.append("/messages");
        url
    }

    /// The JSON body that posts `message`; it can always be written.
    pub fn message_body(message: &str) -> (body: Result<String, MessageBodyError>)
        ensures
            body is Ok,
            body matches Ok(text) ==> text@ == message_body_text(message@),
    {
        match json_encode_str(message) {
            Ok(literal) => {
                let mut body = String::from_str("{\"content\":");
                body.append(literal.as_str());
                body.append("}");
                Ok(body)
            },
            Err(_) => Err(MessageBodyError::Unencodable),
        }
    }
}

/// The number that hexadecimal digit `c` stands for, lower case.
pub open spec fn hex_value(c: char) -> int {
    if '0' <= c && c <= '9' {
        (c as int) - 48
    } else {
        (c as int) - 87
    }
}

/// The character that the escape `\` followed by `e` stands for in a JSON
/// string, for the escapes other than `\u`.
pub open spec fn unescaped_char(e: char) -> char {
    if e == 'b' {
        '\x08'
    } else if e == 't' {
        '\t'
    } else if e == 'n' {
        '\n'
    } else if e == 'f' {
        '\x0c'
    } else if e == 'r' {
        '\r'
    } else {
        e
    }
}

/// Reads the inside of a JSON string literal back into the text it holds:
/// `\u` and four hexadecimal digits, `\` and one character, or a character
/// that stands for itself.
pub open spec fn json_unescape(s: Seq<char>) -> Seq<char>
    decreases s.len(),
{
    if s.len() == 0 {
        Seq::empty()
    } else if s[0] == '\\' && s.len() >= 6 && s[1] == 'u' {
        seq![(hex_value(s[2]) * 4096 + hex_value(s[3]) * 256 + hex_value(s[4]) * 16 + hex_value(s[5])) as char]
            + json_unescape(s.subrange(6, s.len() as int))
    } else if s[0] == '\\' && s.len() >= 2 {
        seq![unescaped_char(s[1])] + json_unescape(s.subrange(2, s.len() as int))
    } else {
        seq![s[0]] + json_unescape(s.drop_first())
    }
}

proof fn lemma_unescape_one(c: char, rest: Seq<char>)
    ensures
        json_unescape(json_escaped_char(c) + rest) == seq![c] + json_unescape(rest),
{
    let e = json_escaped_char(c);
    let s = e + rest;
    if e.len() == 2 {
        assert(s.subrange(2, s.len() as int) =~= rest);
    } else if e.len() == 6 {
        let v = c as int;
        assert(v < 32);
        assert(hex_value(hex_digit((v / 16) as nat)) == v / 16);
        assert(hex_value(hex_digit((v % 16) as nat)) == v % 16);
        assert(v == (v / 16) * 16 + v % 16);
        assert(s.subrange(6, s.len() as int) =~= rest);
    } else {
        assert(s.drop_first() =~= rest);
    }
}

/// Reading back the JSON string literal that `serde_json` writes for `text`
/// gives `text`: it opens and closes with a quote, and what is between them
/// unescapes to `text`.
pub proof fn lemma_json_string_reads_back(text: Seq<char>)
    ensures
        json_string(text).len() >= 2,
        json_string(text)[0] == '"',
        json_string(text).last() == '"',
        json_unescape(json_string(text).subrange(1, json_string(text).len() - 1)) == text,
    decreases text.len(),
{
    lemma_json_escaped_reads_back(text);
    let j = json_string(text);
    assert(j.subrange(1, j.len() - 1) =~= json_escaped(text));
}

proof fn lemma_json_escaped_reads_back(text: Seq<char>)
    ensures
        json_unescape(json_escaped(text)) == text,
    decreases text.len(),
{
    if text.len() == 0 {
        assert(json_escaped(text) =~= Seq::<char>::empty());
    } else {
        lemma_json_escaped_reads_back(text.drop_first());
        lemma_unescape_one(text[0], json_escaped(text.drop_first()));
        assert(seq![text[0]] + text.drop_first() =~= text);
    }
}

/// The body is the JSON object `{"content":` .. `}` around the string
/// literal of the message, and reading that literal back gives the message.
pub proof fn lemma_message_body_shape(message: Seq<char>)
    ensures
        message_body_text(message) == seq!['{', '"', 'c', 'o', 'n', 't', 'e', 'n', 't', '"', ':']
            + json_string(message) + seq!['}'],
        json_unescape(json_string(message).subrange(1, json_string(message).len() - 1)) == message,
{
    reveal_strlit("{\"content\":");
    reveal_strlit("}");
    assert("{\"content\":"@ =~= seq!['{', '"', 'c', 'o', 'n', 't', 'e', 'n', 't', '"', ':']);
    assert("}"@ =~= seq!['}']);
    lemma_json_string_reads_back(message);
}

/// The endpoint is `https://discord.com/api/channels/`, then the channel id
/// unchanged, then `/messages`.
pub proof fn lemma_message_url_shape(target_channel_id: Seq<char>)
    ensures
        message_url_text(target_channel_id).len() == 33 + target_channel_id.len() + 9,
        message_url_text(target_channel_id).subrange(0, 33) == "https://discord.com/api/channels/"@,
        message_url_text(target_channel_id).subrange(33, 33 + target_channel_id.len() as int)
            == target_channel_id,
        message_url_text(target_channel_id).subrange(
            33 + target_channel_id.len() as int,
            42 + target_channel_id.len() as int,
        ) == seq!['/', 'm', 'e', 's', 's', 'a', 'g', 'e', 's'],
{
    reveal_strlit("https://discord.com/api/channels/");
    reveal_strlit("/messages");
    let u = message_url_text(target_channel_id);
    let p = "https://discord.com/api/channels/"@;
    assert(p.len() == 33);
    assert(u.subrange(0, 33) =~= p);
    assert(u.subrange(33, 33 + target_channel_id.len() as int) =~= target_channel_id);
    assert(u.subrange(33 + target_channel_id.len() as int, 42 + target_channel_id.len() as int) =~= "/messages"@);
    assert("/messages"@ =~= seq!['/', 'm', 'e', 's', 's', 'a', 'g', 'e', 's']);
}

} // verus!
