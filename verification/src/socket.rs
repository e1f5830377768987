//! The daemon transcription protocol: one request and one response per
//! connection, each a single flat object written as text.
//!
//! A request names the audio file. A response carries a success flag and
//! either the transcribed text or a detail of what went wrong. A text is
//! written between double quotes with a backslash before each double quote
//! and each backslash of its own, and with line breaks and tabs as a
//! backslash and a letter. It is read back by undoing that, so that every
//! text survives the exchange as it is. The reader also undoes the other
//! escapes of JSON, numbered ones included, so that it reads what another
//! writer wrote.

pub mod laws;

use crate::helpers::Notification;
use crate::text::{
    has_at, matches_at, same_text, skip_space, space_run, to_chars, trim, trim_text, view_of,
};
use vstd::prelude::*;
use vstd::string::StringExecFns;

verus! {

/// What a response from the daemon means.
#[derive(Clone, Debug, PartialEq, Eq)]
pub enum ResponseOutcome {
    /// The backend transcribed the audio. The text is empty where no speech
    /// was detected.
    Transcribed(String),
    /// The backend failed, with the detail that the response carried, if
    /// any.
    Failed(Option<String>),
    /// The response claims success, but carries no text that can be read.
    Malformed,
}

/// What a response means, with its texts as sequences of characters.
pub enum ResponseView {
    Transcribed(Seq<char>),
    Failed(Option<Seq<char>>),
    Malformed,
}

impl View for ResponseOutcome {
    type V = ResponseView;

    open spec fn view(&self) -> ResponseView {
        match *self {
            ResponseOutcome::Transcribed(text) => ResponseView::Transcribed(text@),
            ResponseOutcome::Failed(Some(detail)) => ResponseView::Failed(Some(detail@)),
            ResponseOutcome::Failed(None) => ResponseView::Failed(None),
            ResponseOutcome::Malformed => ResponseView::Malformed,
        }
    }
}

/// What came of one connection to the daemon.
#[derive(Clone, Debug, PartialEq, Eq)]
pub enum Exchange {
    /// No daemon could be reached, or the connection broke, for the reason
    /// given.
    Unreachable(String),
    /// The daemon answered with this response.
    Answered(String),
}

/// What to do about the daemon's answer.
#[derive(Clone, Debug, PartialEq, Eq)]
pub enum Reaction {
    /// Hand the text to the output sink.
    Deliver { text: String, use_clipboard: bool, backend_name: String },
    /// Tell the user that the response could not be read.
    Malformed { notice: Notification },
    /// Tell the user that the backend failed. The detail is the one that
    /// the response carried, if any.
    Failed { notice: Notification, detail: Option<String> },
}

/// A reaction, with its texts as sequences of characters.
pub enum ReactionView {
    Deliver { text: Seq<char>, use_clipboard: bool, backend_name: Seq<char> },
    Malformed { message: Seq<char> },
    Failed { message: Seq<char>, detail: Option<Seq<char>> },
}

/// Whether `reaction` is `view`, its notices being shown for two seconds
/// under the title `Voice Input`.
pub open spec fn reaction_is(reaction: Reaction, view: ReactionView) -> bool {
    match reaction {
        Reaction::Deliver { text, use_clipboard, backend_name } => view
            == (ReactionView::Deliver { text: text@, use_clipboard, backend_name: backend_name@ }),
        Reaction::Malformed { notice } => view == (ReactionView::Malformed {
            message: notice.message@,
        }) && notice.title@ == "Voice Input"@ && notice.timeout_ms == 2000,
        Reaction::Failed { notice, detail } => view == (ReactionView::Failed {
            message: notice.message@,
            detail: view_of(detail),
        }) && notice.title@ == "Voice Input"@ && notice.timeout_ms == 2000,
    }
}

/// What to do about a response that means `outcome`: deliver the text
/// without the white space around it, or tell the user what went wrong.
pub open spec fn reaction_to(
    outcome: ResponseView,
    backend_name: Seq<char>,
    use_clipboard: bool,
) -> ReactionView {
    match outcome {
        ResponseView::Transcribed(text) => ReactionView::Deliver {
            text: trim(text),
            use_clipboard,
            backend_name: backend_name + " daemon"@,
        },
        ResponseView::Malformed => ReactionView::Malformed {
            message: "⚠️ Could not parse response\nBackend: "@ + backend_name,
        },
        ResponseView::Failed(detail) => ReactionView::Failed {
            message: "❌ Transcription failed\nBackend: "@ + backend_name,
            detail,
        },
    }
}

/// The value of a field.
#[derive(Clone, Debug, PartialEq, Eq)]
pub enum Value {
    /// A text, with its escapes undone.
    Text(String),
    /// The word `true`.
    True,
    /// The word `false`.
    False,
    /// Anything else, a text that does not end among it.
    Other,
}

/// The value of a field, with its text as a sequence of characters.
pub enum ValueView {
    Text(Seq<char>),
    True,
    False,
    Other,
}

impl View for Value {
    type V = ValueView;

    open spec fn view(&self) -> ValueView {
        match *self {
            Value::Text(text) => ValueView::Text(text@),
            Value::True => ValueView::True,
            Value::False => ValueView::False,
            Value::Other => ValueView::Other,
        }
    }
}

/// How one character is written inside a quoted text: a backslash goes
/// before a double quote and before a backslash, and a line feed, a carriage
/// return and a tab are written as a backslash and a letter.
pub open spec fn escape_char(c: char) -> Seq<char> {
    if c == '"' {
        seq!['\\', '"']
    } else if c == '\\' {
        seq!['\\', '\\']
    } else if c == '\n' {
        seq!['\\', 'n']
    } else if c == '\r' {
        seq!['\\', 'r']
    } else if c == '\t' {
        seq!['\\', 't']
    } else {
        seq![c]
    }
}

/// How a text is written inside double quotes.
pub open spec fn escaped(s: Seq<char>) -> Seq<char>
    decreases s.len(),
{
    if s.len() == 0 {
        Seq::empty()
    } else {
        escaped(s.drop_last()) + escape_char(s.last())
    }
}

/// The character that a backslash and `c` stand for inside a quoted text,
/// if they stand for one. The escape with `u` is read by `unicode_escape`.
pub open spec fn decode_escape(c: char) -> Option<char> {
    if c == '"' || c == '\\' || c == '/' {
        Some(c)
    } else if c == 'n' {
        Some('\n')
    } else if c == 'r' {
        Some('\r')
    } else if c == 't' {
        Some('\t')
    } else if c == 'b' {
        Some('\u{8}')
    } else if c == 'f' {
        Some('\u{c}')
    } else {
        None
    }
}

/// The value of the hexadecimal digit `c`.
pub open spec fn hex_value(c: char) -> Option<nat> {
    let n = c as u32;
    if 0x30 <= n <= 0x39 {
        Some((n - 0x30) as nat)
    } else if 0x61 <= n <= 0x66 {
        Some((n - 0x61 + 10) as nat)
    } else if 0x41 <= n <= 0x46 {
        Some((n - 0x41 + 10) as nat)
    } else {
        None
    }
}

/// The number that the four hexadecimal digits from `i` on write.
pub open spec fn hex4(s: Seq<char>, i: int) -> Option<nat> {
    if i < 0 || i + 4 > s.len() {
        None
    } else {
        match (hex_value(s[i]), hex_value(s[i + 1]), hex_value(s[i + 2]), hex_value(s[i + 3])) {
            (Some(a), Some(b), Some(c), Some(d)) => Some(((a * 16 + b) * 16 + c) * 16 + d),
            _ => None,
        }
    }
}

/// Whether `n` is the number of a character: a code point that is no
/// surrogate.
pub open spec fn scalar(n: nat) -> bool {
    n <= 0xd7ff || 0xe000 <= n <= 0x10ffff
}

/// The character that the escape beginning with the backslash at `i` and a
/// `u` stands for, and the index behind the escape: four hexadecimal digits
/// that number a character, or two such escapes that form a surrogate pair.
pub open spec fn unicode_escape(s: Seq<char>, i: int) -> Option<(char, int)> {
    match hex4(s, i + 2) {
        None => None,
        Some(n) => {
            if scalar(n) {
                Some(((n as u32) as char, i + 6))
            } else if 0xd800 <= n <= 0xdbff && i + 12 <= s.len() && s[i + 6] == '\\' && s[i + 7]
                == 'u' {
                match hex4(s, i + 8) {
                    Some(low) => {
                        if 0xdc00 <= low <= 0xdfff {
                            Some(
                                (
                                    ((0x10000 + (n - 0xd800) * 1024 + (low - 0xdc00)) as u32) as char,
                                    i + 12,
                                ),
                            )
                        } else {
                            None
                        }
                    },
                    None => None,
                }
            } else {
                None
            }
        },
    }
}

/// Reads a quoted text whose characters begin at `i`, `acc` being what was
/// read of it so far: the text with its escapes undone, and the index of the
/// double quote that ends it. There is none where the text does not end, or
/// holds a backslash that stands for nothing.
pub open spec fn string_from(s: Seq<char>, i: int, acc: Seq<char>) -> Option<(Seq<char>, int)>
    decreases s.len() - i,
{
    if i < 0 || i >= s.len() {
        None
    } else if s[i] == '"' {
        Some((acc, i))
    } else if s[i] == '\\' {
        if i + 1 >= s.len() {
            None
        } else if s[i + 1] == 'u' {
            match unicode_escape(s, i) {
                Some((c, next)) => {
                    if i < next <= s.len() {
                        string_from(s, next, acc.push(c))
                    } else {
                        None
                    }
                },
                None => None,
            }
        } else {
            match decode_escape(s[i + 1]) {
                Some(c) => string_from(s, i + 2, acc.push(c)),
                None => None,
            }
        }
    } else {
        string_from(s, i + 1, acc.push(s[i]))
    }
}

/// Where the value of the field `name` begins, looking from `i` on: behind
/// the first quoted text that reads as `name` and is followed by a colon.
/// Quoted texts are read as a whole, so what stands inside one is never taken
/// for a field.
pub open spec fn value_start(s: Seq<char>, name: Seq<char>, i: int) -> Option<int>
    decreases s.len() - i,
{
    if i < 0 || i >= s.len() {
        None
    } else if s[i] == '"' {
        match string_from(s, i + 1, Seq::empty()) {
            None => None,
            Some((content, close)) => {
                let colon = space_run(s, close + 1);
                if close <= i || close >= s.len() {
                    None
                } else if colon < s.len() && s[colon] == ':' && content == name {
                    Some(space_run(s, colon + 1))
                } else {
                    value_start(s, name, close + 1)
                }
            },
        }
    } else {
        value_start(s, name, i + 1)
    }
}

/// The value that begins at `at`.
pub open spec fn value_at(s: Seq<char>, at: int) -> ValueView {
    if 0 <= at < s.len() && s[at] == '"' {
        match string_from(s, at + 1, Seq::empty()) {
            Some((text, _)) => ValueView::Text(text),
            None => ValueView::Other,
        }
    } else if matches_at(s, "true"@, at) {
        ValueView::True
    } else if matches_at(s, "false"@, at) {
        ValueView::False
    } else {
        ValueView::Other
    }
}

/// The value of the field `name` of `s`, if `s` has such a field.
pub open spec fn field(s: Seq<char>, name: Seq<char>) -> Option<ValueView> {
    match value_start(s, name, 0) {
        Some(at) => Some(value_at(s, at)),
        None => None,
    }
}

/// The text of the field `name` of `s`, if `s` has such a field and its
/// value is a text.
pub open spec fn text_of_field(s: Seq<char>, name: Seq<char>) -> Option<Seq<char>> {
    match field(s, name) {
        Some(ValueView::Text(text)) => Some(text),
        _ => None,
    }
}

/// The transcribed text that `response` carries.
pub open spec fn text_field(response: Seq<char>) -> Option<Seq<char>> {
    text_of_field(response, "text"@)
}

/// The error detail that `response` carries.
pub open spec fn error_field(response: Seq<char>) -> Option<Seq<char>> {
    text_of_field(response, "error"@)
}

/// The audio path that `payload` carries.
pub open spec fn path_field(payload: Seq<char>) -> Option<Seq<char>> {
    text_of_field(payload, "audio_path"@)
}

/// Whether the success flag of `response` is set.
pub open spec fn says_success(response: Seq<char>) -> bool {
    field(response, "success"@) == Some(ValueView::True)
}

/// What `response` means.
pub open spec fn interpretation(response: Seq<char>) -> ResponseView {
    if says_success(response) {
        match text_field(response) {
            Some(text) => ResponseView::Transcribed(text),
            None => ResponseView::Malformed,
        }
    } else {
        ResponseView::Failed(error_field(response))
    }
}

/// The request for the audio file `path`.
pub open spec fn request_envelope(path: Seq<char>) -> Seq<char> {
    "{\"audio_path\": \""@ + escaped(path) + "\"}"@
}

/// The response that carries the transcribed text `text`.
pub open spec fn success_envelope(text: Seq<char>) -> Seq<char> {
    "{\"success\": true, \"text\": \""@ + escaped(text) + "\"}"@
}

/// The response that carries the error detail `detail`.
pub open spec fn failure_envelope(detail: Seq<char>) -> Seq<char> {
    "{\"success\": false, \"error\": \""@ + escaped(detail) + "\"}"@
}

/// The detail that a failure response carries for the backend's own
/// `detail`: never empty.
pub open spec fn failure_detail(detail: Seq<char>) -> Seq<char> {
    if detail.len() == 0 {
        "transcription failed"@
    } else {
        detail
    }
}

/// The response to a request, given what the backend made of its audio
/// file.
pub open spec fn response_envelope(result: Result<Seq<char>, Seq<char>>) -> Seq<char> {
    match result {
        Ok(text) => success_envelope(text),
        Err(detail) => failure_envelope(failure_detail(detail)),
    }
}

/// Writes `text` to the end of `out` as it stands inside double quotes.
pub fn push_escaped(out: &mut String, text: &str)
    ensures
        final(out)@ == old(out)@ + escaped(text@),
{
    let v = to_chars(text);
    let mut i: usize = 0;
    assert(v@.take(0) =~= Seq::<char>::empty());
    assert(out@ =~= old(out)@ + escaped(v@.take(0)));
    while i < v.len()
        invariant
            i <= v.len(),
            out@ == old(out)@ + escaped(v@.take(i as int)),
        decreases v.len() - i,
    {
        let c = v[i];
        let ghost before = out@;
        if c == '"' {
            out.push('\\');
            out.push('"');
        } else if c == '\\' {
            out.push('\\');
            out.push('\\');
        } else if c == '\n' {
            out.push('\\');
            out.push('n');
        } else if c == '\r' {
            out.push('\\');
            out.push('r');
        } else if c == '\t' {
            out.push('\\');
            out.push('t');
        } else {
            out.push(c);
        }
        proof {
            let upto = v@.take(i + 1);
            assert(upto.drop_last() =~= v@.take(i as int));
            assert(upto.last() == c);
            assert(out@ =~= before + escape_char(c));
            assert(out@ =~= old(out)@ + escaped(upto));
        }
        i += 1;
    }
    assert(v@.take(i as int) =~= v@);
}

/// The character that a backslash and `c` stand for inside a quoted text.
pub fn unescape(c: char) -> (decoded: Option<char>)
    ensures
        decoded == decode_escape(c),
{
    if c == '"' || c == '\\' || c == '/' {
        Some(c)
    } else if c == 'n' {
        Some('\n')
    } else if c == 'r' {
        Some('\r')
    } else if c == 't' {
        Some('\t')
    } else if c == 'b' {
        Some('\u{8}')
    } else if c == 'f' {
        Some('\u{c}')
    } else {
        None
    }
}

/// `char::from_u32`: the character with the number `n`, where `n` is the
/// number of a character, and nothing otherwise.
#[verifier::external_body]
pub(crate) fn char_from(n: u32) -> (c: Option<char>)
    ensures
        match c {
            Some(c) => scalar(n as nat) && c as u32 == n,
            None => !scalar(n as nat),
        },
{
    char::from_u32(n)
}

/// The value of the hexadecimal digit `c`.
pub fn hex_digit(c: char) -> (value: Option<u32>)
    ensures
        match value {
            Some(n) => hex_value(c) == Some(n as nat),
            None => hex_value(c) is None,
        },
{
    let n: u32 = c as u32;
    if 0x30 <= n && n <= 0x39 {
        Some(n - 0x30)
    } else if 0x61 <= n && n <= 0x66 {
        Some(n - 0x61 + 10)
    } else if 0x41 <= n && n <= 0x46 {
        Some(n - 0x41 + 10)
    } else {
        None
    }
}

/// Reads the number that the four hexadecimal digits from `i` on write.
pub fn read_hex4(v: &Vec<char>, i: usize) -> (value: Option<u32>)
    ensures
        match value {
            Some(n) => hex4(v@, i as int) == Some(n as nat) && n <= 0xffff,
            None => hex4(v@, i as int) is None,
        },
{
    if v.len() < 4 || i > v.len() - 4 {
        return None;
    }
    let a = match hex_digit(v[i]) {
        Some(a) => a,
        None => {
            return None;
        },
    };
    let b = match hex_digit(v[i + 1]) {
        Some(b) => b,
        None => {
            return None;
        },
    };
    let c = match hex_digit(v[i + 2]) {
        Some(c) => c,
        None => {
            return None;
        },
    };
    let d = match hex_digit(v[i + 3]) {
        Some(d) => d,
        None => {
            return None;
        },
    };
    Some(((a * 16 + b) * 16 + c) * 16 + d)
}

/// Reads the escape that begins with the backslash at `i` and a `u`: the
/// character that it stands for, and the index behind it.
pub fn read_unicode_escape(v: &Vec<char>, i: usize) -> (read: Option<(char, usize)>)
    requires
        i + 1 < v.len(),
    ensures
        match read {
            Some((c, next)) => unicode_escape(v@, i as int) == Some((c, next as int)) && i < next
                <= v.len(),
            None => unicode_escape(v@, i as int) is None,
        },
{
    let n = match read_hex4(v, i + 2) {
        Some(n) => n,
        None => {
            return None;
        },
    };
    match char_from(n) {
        Some(c) => {
            proof {
                vstd::utf8::char_u32_cast(c, n);
            }
            Some((c, i + 6))
        },
        None => {
            if 0xd800 <= n && n <= 0xdbff && v.len() >= 12 && i <= v.len() - 12 && v[i + 6] == '\\'
                && v[i + 7] == 'u' {
                match read_hex4(v, i + 8) {
                    Some(low) => {
                        if 0xdc00 <= low && low <= 0xdfff {
                            let joined: u32 = 0x10000 + (n - 0xd800) * 1024 + (low - 0xdc00);
                            match char_from(joined) {
                                Some(c) => {
                                    proof {
                                        vstd::utf8::char_u32_cast(c, joined);
                                    }
                                    Some((c, i + 12))
                                },
                                None => None,
                            }
                        } else {
                            None
                        }
                    },
                    None => None,
                }
            } else {
                None
            }
        },
    }
}

/// Reads the quoted text whose characters begin at `start`: the text with
/// its escapes undone, and the index of the double quote that ends it.
pub fn read_string(v: &Vec<char>, start: usize) -> (read: Option<(String, usize)>)
    ensures
        match read {
            Some((text, close)) => string_from(v@, start as int, Seq::empty()) == Some(
                (text@, close as int),
            ) && start <= close < v.len(),
            None => string_from(v@, start as int, Seq::empty()) is None,
        },
{
    let mut acc = String::new();
    let mut i: usize = start;
    while i < v.len()
        invariant
            start <= i,
            string_from(v@, start as int, Seq::empty()) == string_from(v@, i as int, acc@),
        decreases v.len() - i,
    {
        let c = v[i];
        if c == '"' {
            return Some((acc, i));
        }
        if c == '\\' {
            if i + 1 >= v.len() {
                return None;
            }
            if v[i + 1] == 'u' {
                match read_unicode_escape(v, i) {
                    Some((decoded, next)) => {
                        acc.push(decoded);
                        i = next;
                    },
                    None => {
                        return None;
                    },
                }
            } else {
                match unescape(v[i + 1]) {
                    Some(decoded) => {
                        acc.push(decoded);
                        i += 2;
                    },
                    None => {
                        return None;
                    },
                }
            }
        } else {
            acc.push(c);
            i += 1;
        }
    }
    None
}

/// Finds where the value of the field `name` begins.
pub fn find_value(v: &Vec<char>, name: &Vec<char>) -> (at: Option<usize>)
    ensures
        match at {
            Some(j) => value_start(v@, name@, 0) == Some(j as int) && j <= v.len(),
            None => value_start(v@, name@, 0) is None,
        },
{
    let mut i: usize = 0;
    while i < v.len()
        invariant
            value_start(v@, name@, 0) == value_start(v@, name@, i as int),
        decreases v.len() - i,
    {
        if v[i] == '"' {
            match read_string(v, i + 1) {
                None => {
                    return None;
                },
                Some((content, close)) => {
                    let colon = skip_space(v, close + 1);
                    if colon < v.len() && v[colon] == ':' {
                        let key = to_chars(content.as_str());
                        if same_text(&key, name) {
                            return Some(skip_space(v, colon + 1));
                        }
                    }
                    i = close + 1;
                },
            }
        } else {
            i += 1;
        }
    }
    None
}

/// Reads the value that begins at `at`.
pub fn read_value(v: &Vec<char>, at: usize) -> (value: Value)
    ensures
        value@ == value_at(v@, at as int),
{
    if at < v.len() && v[at] == '"' {
        match read_string(v, at + 1) {
            Some((text, _)) => Value::Text(text),
            None => Value::Other,
        }
    } else {
        let yes = to_chars("true");
        let no = to_chars("false");
        if has_at(v, &yes, at) {
            Value::True
        } else if has_at(v, &no, at) {
            Value::False
        } else {
            Value::Other
        }
    }
}

/// Reads the value of the field `name` from `v`.
pub fn extract_field(v: &Vec<char>, name: &str) -> (value: Option<Value>)
    ensures
        match value {
            Some(found) => field(v@, name@) == Some(found@),
            None => field(v@, name@) is None,
        },
{
    let key = to_chars(name);
    match find_value(v, &key) {
        Some(at) => Some(read_value(v, at)),
        None => None,
    }
}

/// Reads the text of the field `name` from `v`.
pub fn extract_text(v: &Vec<char>, name: &str) -> (text: Option<String>)
    ensures
        view_of(text) == text_of_field(v@, name@),
{
    match extract_field(v, name) {
        Some(Value::Text(text)) => Some(text),
        _ => None,
    }
}

/// Extracts the transcribed text from a response: the value of its field
/// `text`, with the escapes undone.
pub fn extract_text_from_response(response: &str) -> (text: Option<String>)
    ensures
        view_of(text) == text_field(response@),
{
    let v = to_chars(response);
    extract_text(&v, "text")
}

/// Whether the success flag of the response is set.
pub fn response_succeeded(response: &str) -> (success: bool)
    ensures
        success == says_success(response@),
{
    let v = to_chars(response);
    match extract_field(&v, "success") {
        Some(Value::True) => true,
        _ => false,
    }
}

/// Interprets a response from the daemon: success with its text, failure
/// with its detail, or a success from which no text can be read.
pub fn interpret_response(response: &str) -> (outcome: ResponseOutcome)
    ensures
        outcome@ == interpretation(response@),
{
    if response_succeeded(response) {
        match extract_text_from_response(response) {
            Some(text) => ResponseOutcome::Transcribed(text),
            None => ResponseOutcome::Malformed,
        }
    } else {
        let v = to_chars(response);
        ResponseOutcome::Failed(extract_text(&v, "error"))
    }
}

/// Makes of one connection to the daemon what the client does next: the
/// reaction to the daemon's answer, or, where no daemon was reached, the
/// reason, for the caller to fall back on a run of the backend.
pub fn send_transcription_request(
    exchange: Exchange,
    backend_name: &str,
    use_clipboard: bool,
) -> (result: Result<Reaction, String>)
    ensures
        match exchange {
            Exchange::Answered(response) => result matches Ok(reaction) && reaction_is(
                reaction,
                reaction_to(interpretation(response@), backend_name@, use_clipboard),
            ),
            Exchange::Unreachable(fault) => result matches Err(reason) && reason@ == fault@,
        },
{
    match exchange {
        Exchange::Unreachable(fault) => Err(fault),
        Exchange::Answered(response) => match interpret_response(response.as_str()) {
            ResponseOutcome::Transcribed(text) => {
                let mut label = String::from_str(backend_name);
                label.append(" daemon");
                Ok(
                    Reaction::Deliver {
                        text: trim_text(text.as_str()),
                        use_clipboard,
                        backend_name: label,
                    },
                )
            },
            ResponseOutcome::Malformed => {
                let mut message = String::from_str("⚠️ Could not parse response\nBackend: ");
                message.append(backend_name);
                Ok(
                    Reaction::Malformed {
                        notice: Notification {
                            title: String::from_str("Voice Input"),
                            message,
                            timeout_ms: 2000,
                        },
                    },
                )
            },
            ResponseOutcome::Failed(detail) => {
                let mut message = String::from_str("❌ Transcription failed\nBackend: ");
                message.append(backend_name);
                Ok(
                    Reaction::Failed {
                        notice: Notification {
                            title: String::from_str("Voice Input"),
                            message,
                            timeout_ms: 2000,
                        },
                        detail,
                    },
                )
            },
        },
    }
}

/// Writes the request for the audio file `audio_file`.
pub fn encode_request(audio_file: &str) -> (payload: String)
    ensures
        payload@ == request_envelope(audio_file@),
{
    let mut payload = String::from_str("{\"audio_path\": \"");
    push_escaped(&mut payload, audio_file);
    payload.append("\"}");
    payload
}

/// Reads the audio path from a request.
pub fn decode_request(payload: &str) -> (path: Option<String>)
    ensures
        view_of(path) == path_field(payload@),
{
    let v = to_chars(payload);
    extract_text(&v, "audio_path")
}

/// What the server does with a request.
#[derive(Clone, Debug, PartialEq, Eq)]
pub enum ServerStep {
    /// Transcribe the audio file at this path, then answer with
    /// `encode_response`.
    Transcribe(String),
    /// Answer with this response at once.
    Reject(String),
}

/// Reads a request on the server's side: the audio file to transcribe, or,
/// for a request that names none, the failure to answer with. Every request
/// gets a response.
pub fn handle_request(payload: &str) -> (step: ServerStep)
    ensures
        match path_field(payload@) {
            Some(path) => step matches ServerStep::Transcribe(p) && p@ == path,
            None => step matches ServerStep::Reject(response) && response@ == failure_envelope(
                "request names no audio file"@,
            ),
        },
{
    match decode_request(payload) {
        Some(path) => ServerStep::Transcribe(path),
        None => {
            let mut response = String::from_str("{\"success\": false, \"error\": \"");
            push_escaped(&mut response, "request names no audio file");
            response.append("\"}");
            ServerStep::Reject(response)
        },
    }
}

/// Writes the response to a request, given what the backend made of its
/// audio file: the text, or a detail of the failure. A failure is never
/// written without a detail.
pub fn encode_response(result: Result<&str, &str>) -> (response: String)
    ensures
        response@ == response_envelope(
            match result {
                Ok(text) => Ok(text@),
                Err(detail) => Err(detail@),
            },
        ),
{
    match result {
        Ok(text) => {
            let mut response = String::from_str("{\"success\": true, \"text\": \"");
            push_escaped(&mut response, text);
            response.append("\"}");
            response
        },
        Err(detail) => {
            let mut response = String::from_str("{\"success\": false, \"error\": \"");
            if detail.is_empty() {
                push_escaped(&mut response, "transcription failed");
            } else {
                push_escaped(&mut response, detail);
            }
            response.append("\"}");
            response
        },
    }
}

} // verus!
