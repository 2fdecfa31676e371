//! The wire envelope codec.
//!
//! An [`Envelope`] is the outer tagged message exchanged with the chat
//! server as JSON text of the shape
//! `{"messageType": tag, "data": string|null, "dataArray": [string,...]|null}`.
//! Encoding is verified down to the characters produced; decoding calls
//! `serde_json` behind trusted declarations and is exact over the model of
//! the parsed document.

use vstd::prelude::*;
use crate::text::push_char;

verus! {

/// The three envelope tags of the wire protocol.
#[derive(Clone, Copy, Debug, PartialEq, Eq, Structural)]
pub enum MsgTypes {
    Users,
    Register,
    Message,
}

/// The outer tagged message exchanged with the server: a closed union, one
/// variant per tag, with the payload shape that the tag requires.
#[derive(Clone, Debug, PartialEq, Eq)]
pub enum Envelope {
    /// The roster broadcast: the names of all connected users.
    Users { names: Vec<String> },
    /// The registration of one user, sent once when the view mounts.
    Register { name: String },
    /// One chat line; the payload is a JSON-encoded [`ChatMessage`].
    Message { payload: String },
}

/// The mathematical model of an [`Envelope`].
pub enum EnvelopeView {
    Users { names: Seq<Seq<char>> },
    Register { name: Seq<char> },
    Message { payload: Seq<char> },
}

impl View for Envelope {
    type V = EnvelopeView;

    open spec fn view(&self) -> EnvelopeView {
        match self {
            Envelope::Users { names } => EnvelopeView::Users { names: names.deep_view() },
            Envelope::Register { name } => EnvelopeView::Register { name: name@ },
            Envelope::Message { payload } => EnvelopeView::Message { payload: payload@ },
        }
    }
}

/// A single chat line, carried JSON-encoded inside a `Message` envelope.
#[derive(Clone, Debug, PartialEq, Eq)]
pub struct ChatMessage {
    pub from: String,
    pub message: String,
}

/// The mathematical model of a [`ChatMessage`].
pub struct ChatMessageView {
    pub from: Seq<char>,
    pub message: Seq<char>,
}

impl View for ChatMessage {
    type V = ChatMessageView;

    open spec fn view(&self) -> ChatMessageView {
        ChatMessageView { from: self.from@, message: self.message@ }
    }
}

/// Why decoding an envelope failed.
#[derive(Clone, Copy, Debug, PartialEq, Eq, Structural)]
pub enum DecodeError {
    /// The text is not valid JSON.
    Malformed,
    /// `messageType` is absent, not a string, or not one of the three tags.
    UnknownKind,
    /// The field that the tag requires (`data` or `dataArray`) is absent or
    /// of the wrong type.
    MissingField,
}

// ==========================================================================
// Encoding: verified down to the characters produced.
// ==========================================================================

/// The hexadecimal digit for `n`.
pub open spec fn hex_digit(n: int) -> char {
    if n == 0 { '0' } else if n == 1 { '1' } else if n == 2 { '2' } else if n == 3 { '3' }
    else if n == 4 { '4' } else if n == 5 { '5' } else if n == 6 { '6' } else if n == 7 { '7' }
    else if n == 8 { '8' } else if n == 9 { '9' } else if n == 10 { 'a' } else if n == 11 { 'b' }
    else if n == 12 { 'c' } else if n == 13 { 'd' } else if n == 14 { 'e' } else { 'f' }
}

/// How one character appears inside a JSON string literal: quotes and
/// backslashes are escaped, control characters take their short escape or a
/// `\u00XX` escape, and every other character stands as itself.
pub open spec fn esc_char(c: char) -> Seq<char> {
    if c == '"' { seq!['\\', '"'] }
    else if c == '\\' { seq!['\\', '\\'] }
    else if c == '\u{8}' { seq!['\\', 'b'] }
    else if c == '\t' { seq!['\\', 't'] }
    else if c == '\n' { seq!['\\', 'n'] }
    else if c == '\u{c}' { seq!['\\', 'f'] }
    else if c == '\r' { seq!['\\', 'r'] }
    else if (c as u32) < 0x20 {
        seq!['\\', 'u', '0', '0', hex_digit(c as u32 as int / 16), hex_digit(c as u32 as int % 16)]
    }
    else { seq![c] }
}

/// The escapes of the first `n` characters of `s`, concatenated.
pub open spec fn esc_upto(s: Seq<char>, n: int) -> Seq<char>
    decreases n,
{
    if n <= 0 { Seq::empty() } else { esc_upto(s, n - 1) + esc_char(s[n - 1]) }
}

/// The body of the JSON string literal that denotes `s`.
pub open spec fn json_escape(s: Seq<char>) -> Seq<char> {
    esc_upto(s, s.len() as int)
}

/// The JSON string literal that denotes `s`, quotes included.
pub open spec fn json_string(s: Seq<char>) -> Seq<char> {
    seq!['"'] + json_escape(s) + seq!['"']
}

/// The hexadecimal digit character for `n`.
fn hex_char(n: u32) -> (r: char)
    requires
        n < 16,
    ensures
        r == hex_digit(n as int),
{
    if n == 0 { '0' } else if n == 1 { '1' } else if n == 2 { '2' } else if n == 3 { '3' }
    else if n == 4 { '4' } else if n == 5 { '5' } else if n == 6 { '6' } else if n == 7 { '7' }
    else if n == 8 { '8' } else if n == 9 { '9' } else if n == 10 { 'a' } else if n == 11 { 'b' }
    else if n == 12 { 'c' } else if n == 13 { 'd' } else if n == 14 { 'e' } else { 'f' }
}

/// Appends the escape of one character.
fn push_escaped_char(out: &mut String, c: char)
    ensures
        final(out)@ == old(out)@ + esc_char(c),
{
    let u = c as u32;
    if c == '"' {
        push_char(out, '\\');
        push_char(out, '"');
    } else if c == '\\' {
        push_char(out, '\\');
        push_char(out, '\\');
    } else if c == '\u{8}' {
        push_char(out, '\\');
        push_char(out, 'b');
    } else if c == '\t' {
        push_char(out, '\\');
        push_char(out, 't');
    } else if c == '\n' {
        push_char(out, '\\');
        push_char(out, 'n');
    } else if c == '\u{c}' {
        push_char(out, '\\');
        push_char(out, 'f');
    } else if c == '\r' {
        push_char(out, '\\');
        push_char(out, 'r');
    } else if u < 0x20 {
        push_char(out, '\\');
        push_char(out, 'u');
        push_char(out, '0');
        push_char(out, '0');
        push_char(out, hex_char(u / 16));
        push_char(out, hex_char(u % 16));
    } else {
        push_char(out, c);
    }
    assert(out@ =~= old(out)@ + esc_char(c));
}

/// Appends the body of the JSON string literal that denotes `s`.
fn push_escaped(out: &mut String, s: &str)
    ensures
        final(out)@ == old(out)@ + json_escape(s@),
{
    let n = s.unicode_len();
    let mut i: usize = 0;
    while i < n
        invariant
            n == s@.len(),
            0 <= i <= n,
            out@ == old(out)@ + esc_upto(s@, i as int),
        decreases n - i,
    {
        push_escaped_char(out, s.get_char(i));
        i = i + 1;
    }
}

/// Appends the JSON string literal that denotes `s`, quotes included.
fn push_json_string(out: &mut String, s: &str)
    ensures
        final(out)@ == old(out)@ + json_string(s@),
{
    push_char(out, '"');
    push_escaped(out, s);
    push_char(out, '"');
    assert(out@ =~= old(out)@ + json_string(s@));
}

/// The comma-separated JSON string literals of the first `n` names.
pub open spec fn names_body(names: Seq<Seq<char>>, n: int) -> Seq<char>
    decreases n,
{
    if n <= 0 { Seq::empty() }
    else if n == 1 { json_string(names[0]) }
    else { names_body(names, n - 1) + seq![','] + json_string(names[n - 1]) }
}

/// The text that [`encode`] produces for an envelope: the tag decides the
/// tag string, `data` carries the payload or `null`, and `dataArray`
/// carries the names or `null`.
pub open spec fn encode_view(e: EnvelopeView) -> Seq<char> {
    match e {
        EnvelopeView::Register { name } =>
            "{\"messageType\":\"register\",\"data\":"@ + json_string(name)
                + ",\"dataArray\":null}"@,
        EnvelopeView::Message { payload } =>
            "{\"messageType\":\"message\",\"data\":"@ + json_string(payload)
                + ",\"dataArray\":null}"@,
        EnvelopeView::Users { names } =>
            "{\"messageType\":\"users\",\"data\":null,\"dataArray\":["@
                + names_body(names, names.len() as int) + "]}"@,
    }
}

/// Encodes an envelope as the JSON text of the wire protocol.
pub fn encode(e: &Envelope) -> (r: String)
    ensures
        r@ == encode_view(e@),
{
    let mut out = String::new();
    match e {
        Envelope::Register { name } => {
            out.append("{\"messageType\":\"register\",\"data\":");
            push_json_string(&mut out, name.as_str());
            out.append(",\"dataArray\":null}");
        }
        Envelope::Message { payload } => {
            out.append("{\"messageType\":\"message\",\"data\":");
            push_json_string(&mut out, payload.as_str());
            out.append(",\"dataArray\":null}");
        }
        Envelope::Users { names } => {
            out.append("{\"messageType\":\"users\",\"data\":null,\"dataArray\":[");
            let ghost start = out@;
            let n = names.len();
            let mut i: usize = 0;
            while i < n
                invariant
                    n == names@.len(),
                    names.deep_view().len() == n,
                    forall|j: int| 0 <= j < n ==> names.deep_view()[j] == names@[j]@,
                    0 <= i <= n,
                    out@ == start + names_body(names.deep_view(), i as int),
                decreases n - i,
            {
                if i > 0 {
                    push_char(&mut out, ',');
                }
                push_json_string(&mut out, names[i].as_str());
                assert(out@ =~= start + names_body(names.deep_view(), i + 1));
                i = i + 1;
            }
            out.append("]}");
        }
    }
    assert(out@ =~= encode_view(e@));
    out
}

// ==========================================================================
// Decoding: serde_json parses the text; everything after the parse is
// verified, exact over the model of the parsed document.
// ==========================================================================

#[verifier::external_type_specification]
#[verifier::external_body]
pub struct ExValue(serde_json::Value);

#[verifier::external_type_specification]
#[verifier::external_body]
pub struct ExJsonError(serde_json::Error);

/// What the parsed document holds under `key`, when the document is an
/// object whose `key` holds a string.
pub uninterp spec fn str_field(v: serde_json::Value, key: Seq<char>) -> Option<Seq<char>>;

/// What the parsed document holds under `key`, when the document is an
/// object whose `key` holds an array of strings.
pub uninterp spec fn str_list_field(v: serde_json::Value, key: Seq<char>) -> Option<Seq<Seq<char>>>;

/// Whether the JSON parser accepts the text `s`.
pub uninterp spec fn json_ok(s: Seq<char>) -> bool;

/// [`str_field`] of the document parsed from the text `s`: what `s` holds
/// under `key`, when `s` parses to an object whose `key` holds a string.
pub uninterp spec fn json_str_field(s: Seq<char>, key: Seq<char>) -> Option<Seq<char>>;

/// [`str_list_field`] of the document parsed from the text `s`: what `s`
/// holds under `key`, when `s` parses to an object whose `key` holds an
/// array of strings.
pub uninterp spec fn json_str_list_field(s: Seq<char>, key: Seq<char>) -> Option<Seq<Seq<char>>>;

/// Relies on `serde_json::from_str::<Value>`: parses JSON text into a
/// document tree, or fails exactly when the text is not valid JSON. The
/// parse is a function of the text alone, so the document's fields are a
/// function of the text too: on success they equal the text's fields.
#[verifier::external_body]
fn parse_json(s: &str) -> (r: Result<serde_json::Value, serde_json::Error>)
    ensures
        r matches Ok(v) ==> json_ok(s@) && (forall|key: Seq<char>|
            #[trigger] str_field(v, key) == json_str_field(s@, key)) && (forall|key: Seq<char>|
            #[trigger] str_list_field(v, key) == json_str_list_field(s@, key)),
        r is Err ==> !json_ok(s@),
{
    serde_json::from_str(s)
}

/// Relies on `serde_json::Value::get` and `Value::as_str`: yields the string
/// under `key` when the document is an object whose `key` holds a string,
/// and `None` otherwise.
#[verifier::external_body]
fn get_str_field(v: &serde_json::Value, key: &str) -> (r: Option<String>)
    ensures
        match r {
            Option::Some(s) => str_field(*v, key@) == Option::Some(s@),
            Option::None => str_field(*v, key@) is None,
        },
{
    v.get(key).and_then(|x| x.as_str()).map(|s| s.to_string())
}

/// Relies on `serde_json::Value::get`, `Value::as_array` and `Value::as_str`:
/// yields the strings under `key` when the document is an object whose `key`
/// holds an array of strings only, and `None` otherwise.
#[verifier::external_body]
fn get_str_list_field(v: &serde_json::Value, key: &str) -> (r: Option<Vec<String>>)
    ensures
        match r {
            Option::Some(vs) => str_list_field(*v, key@) == Option::Some(vs.deep_view()),
            Option::None => str_list_field(*v, key@) is None,
        },
{
    let arr = match v.get(key).and_then(|x| x.as_array()) {
        Some(a) => a,
        None => return None,
    };
    let mut out = Vec::with_capacity(arr.len());
    for x in arr {
        match x.as_str() {
            Some(s) => out.push(s.to_string()),
            None => return None,
        }
    }
    Some(out)
}

/// The tag named by the wire string `t`, if any.
pub open spec fn of_tag_view(t: Seq<char>) -> Option<MsgTypes> {
    if t == "users"@ { Option::Some(MsgTypes::Users) }
    else if t == "register"@ { Option::Some(MsgTypes::Register) }
    else if t == "message"@ { Option::Some(MsgTypes::Message) }
    else { Option::None }
}

impl MsgTypes {
    /// The tag named by the wire string `t`, if any.
    pub fn of_tag(t: &String) -> (r: Option<MsgTypes>)
        ensures
            r == of_tag_view(t@),
    {
        if *t == "users".to_owned() { Some(MsgTypes::Users) }
        else if *t == "register".to_owned() { Some(MsgTypes::Register) }
        else if *t == "message".to_owned() { Some(MsgTypes::Message) }
        else { None }
    }
}

/// The envelope or error that a parsed document with the given
/// `messageType`, `data` and `dataArray` fields decodes to: the tag must
/// name one of the three kinds, `Users` requires the names, and `Register`
/// and `Message` require the payload.
pub open spec fn decoded_view(
    tag: Option<Seq<char>>,
    data: Option<Seq<char>>,
    names: Option<Seq<Seq<char>>>,
) -> Result<EnvelopeView, DecodeError> {
    match tag {
        Option::None => Result::Err(DecodeError::UnknownKind),
        Option::Some(t) => match of_tag_view(t) {
            Option::None => Result::Err(DecodeError::UnknownKind),
            Option::Some(MsgTypes::Users) => match names {
                Option::Some(ns) => Result::Ok(EnvelopeView::Users { names: ns }),
                Option::None => Result::Err(DecodeError::MissingField),
            },
            Option::Some(MsgTypes::Register) => match data {
                Option::Some(d) => Result::Ok(EnvelopeView::Register { name: d }),
                Option::None => Result::Err(DecodeError::MissingField),
            },
            Option::Some(MsgTypes::Message) => match data {
                Option::Some(d) => Result::Ok(EnvelopeView::Message { payload: d }),
                Option::None => Result::Err(DecodeError::MissingField),
            },
        },
    }
}

/// The model of a decode result.
pub open spec fn decode_result_view(r: Result<Envelope, DecodeError>) -> Result<
    EnvelopeView,
    DecodeError,
> {
    match r {
        Result::Ok(e) => Result::Ok(e@),
        Result::Err(e) => Result::Err(e),
    }
}

/// Reads an envelope out of a parsed document: exactly [`decoded_view`] of
/// the document's `messageType`, `data` and `dataArray` fields.
pub fn envelope_of_value(v: &serde_json::Value) -> (r: Result<Envelope, DecodeError>)
    ensures
        decode_result_view(r) == decoded_view(
            str_field(*v, "messageType"@),
            str_field(*v, "data"@),
            str_list_field(*v, "dataArray"@),
        ),
{
    let tag = match get_str_field(v, "messageType") {
        Some(t) => t,
        None => return Err(DecodeError::UnknownKind),
    };
    let kind = match MsgTypes::of_tag(&tag) {
        Some(k) => k,
        None => return Err(DecodeError::UnknownKind),
    };
    match kind {
        MsgTypes::Users => match get_str_list_field(v, "dataArray") {
            Some(names) => Ok(Envelope::Users { names }),
            None => Err(DecodeError::MissingField),
        },
        MsgTypes::Register => match get_str_field(v, "data") {
            Some(name) => Ok(Envelope::Register { name }),
            None => Err(DecodeError::MissingField),
        },
        MsgTypes::Message => match get_str_field(v, "data") {
            Some(payload) => Ok(Envelope::Message { payload }),
            None => Err(DecodeError::MissingField),
        },
    }
}

/// The envelope or error that wire text decodes to: text the JSON parser
/// rejects is malformed, and text that parses decodes by [`decoded_view`]
/// of its `messageType`, `data` and `dataArray` fields.
pub open spec fn decoded_text_view(s: Seq<char>) -> Result<EnvelopeView, DecodeError> {
    if json_ok(s) {
        decoded_view(
            json_str_field(s, "messageType"@),
            json_str_field(s, "data"@),
            json_str_list_field(s, "dataArray"@),
        )
    } else {
        Result::Err(DecodeError::Malformed)
    }
}

/// Decodes one envelope from wire text: exactly [`decoded_text_view`] of
/// the text. Text that is not valid JSON fails with
/// [`DecodeError::Malformed`]; text that parses is read by
/// [`envelope_of_value`].
pub fn decode(raw: &str) -> (r: Result<Envelope, DecodeError>)
    ensures
        decode_result_view(r) == decoded_text_view(raw@),
{
    match parse_json(raw) {
        Ok(v) => {
            assert(str_field(v, "messageType"@) == json_str_field(raw@, "messageType"@));
            assert(str_field(v, "data"@) == json_str_field(raw@, "data"@));
            assert(str_list_field(v, "dataArray"@) == json_str_list_field(raw@, "dataArray"@));
            envelope_of_value(&v)
        }
        Err(_) => Err(DecodeError::Malformed),
    }
}

/// The chat line that a parsed payload document with the given `from` and
/// `message` fields carries: both fields must be present strings.
pub open spec fn chat_view(from: Option<Seq<char>>, message: Option<Seq<char>>) -> Option<
    ChatMessageView,
> {
    match (from, message) {
        (Option::Some(f), Option::Some(m)) => Option::Some(
            ChatMessageView { from: f, message: m },
        ),
        _ => Option::None,
    }
}

/// The model of a chat-line parse result.
pub open spec fn chat_opt_view(r: Option<ChatMessage>) -> Option<ChatMessageView> {
    match r {
        Option::Some(m) => Option::Some(m@),
        Option::None => Option::None,
    }
}

/// Reads a chat line out of a parsed payload document: exactly
/// [`chat_view`] of the document's `from` and `message` fields.
pub fn chat_of_value(v: &serde_json::Value) -> (r: Option<ChatMessage>)
    ensures
        chat_opt_view(r) == chat_view(str_field(*v, "from"@), str_field(*v, "message"@)),
{
    let from = match get_str_field(v, "from") {
        Some(f) => f,
        None => return None,
    };
    match get_str_field(v, "message") {
        Some(message) => Some(ChatMessage { from, message }),
        None => None,
    }
}

/// The chat line that a `Message` payload text carries: nothing when the
/// JSON parser rejects the text, else [`chat_view`] of its `from` and
/// `message` fields.
pub open spec fn chat_text_view(s: Seq<char>) -> Option<ChatMessageView> {
    if json_ok(s) {
        chat_view(json_str_field(s, "from"@), json_str_field(s, "message"@))
    } else {
        Option::None
    }
}

/// Parses the payload of a `Message` envelope as a chat line: exactly
/// [`chat_text_view`] of the text. Text that is not valid JSON yields
/// `None`; text that parses is read by [`chat_of_value`].
pub fn decode_chat(payload: &str) -> (r: Option<ChatMessage>)
    ensures
        chat_opt_view(r) == chat_text_view(payload@),
{
    match parse_json(payload) {
        Ok(v) => {
            assert(str_field(v, "from"@) == json_str_field(payload@, "from"@));
            assert(str_field(v, "message"@) == json_str_field(payload@, "message"@));
            chat_of_value(&v)
        }
        Err(_) => None,
    }
}

} // verus!
