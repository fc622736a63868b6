use vstd::prelude::*;
use vstd::string::StringExecFns;
use crate::model::Summary;

verus! {

/// The status of a successful reply.
pub const OK_STATUS: u16 = 200;

/// The status of every failed reply.
pub const ERROR_STATUS: u16 = 500;

/// Why a request produced no summary.
#[derive(PartialEq, Eq, Structural, Clone, Copy, Debug)]
pub enum SummaryError {
    /// The route gave no conversation id.
    MissingParameter,
    /// The store had no readable history under the id.
    HistoryUnavailable,
    /// The model gave no text.
    InferenceFailure,
    /// The reply's JSON could not be written.
    SerializationFailure,
}

/// The body of the failed reply for `e`.
pub open spec fn error_text(e: SummaryError) -> Seq<char> {
    match e {
        SummaryError::MissingParameter => "cannot get conversation ID from param"@,
        SummaryError::HistoryUnavailable => "cannot load conversation history"@,
        SummaryError::InferenceFailure => "cannot generate a summary"@,
        SummaryError::SerializationFailure => "cannot serialize the summary"@,
    }
}

impl SummaryError {
    /// A short description of the failure.
    pub fn message(&self) -> (r: String)
        ensures
            r@ == error_text(*self),
    {
        match self {
            SummaryError::MissingParameter => String::from_str("cannot get conversation ID from param"),
            SummaryError::HistoryUnavailable => String::from_str("cannot load conversation history"),
            SummaryError::InferenceFailure => String::from_str("cannot generate a summary"),
            SummaryError::SerializationFailure => String::from_str("cannot serialize the summary"),
        }
    }
}

/// An HTTP reply: a status and a body.
pub struct Reply {
    pub status: u16,
    pub body: String,
}

pub struct ReplyView {
    pub status: u16,
    pub body: Seq<char>,
}

impl View for Reply {
    type V = ReplyView;

    open spec fn view(&self) -> ReplyView {
        ReplyView { status: self.status, body: self.body@ }
    }
}

/// The reply for a failure `e`.
pub open spec fn error_view(e: SummaryError) -> ReplyView {
    ReplyView { status: ERROR_STATUS, body: error_text(e) }
}

/// The failed reply for `e`.
pub fn error_reply(e: SummaryError) -> (r: Reply)
    ensures
        r@ == error_view(e),
{
    Reply { status: ERROR_STATUS, body: e.message() }
}

/// The lower-case hexadecimal digit for `n`, which is below 16.
pub open spec fn hex_digit(n: u32) -> char {
    seq!['0', '1', '2', '3', '4', '5', '6', '7', '8', '9', 'a', 'b', 'c', 'd', 'e', 'f'][n as int]
}

/// How one character stands inside a JSON string: a quote, a backslash and the
/// control characters are escaped, every other character stands as it is.
pub open spec fn json_escape(c: char) -> Seq<char> {
    if c == '"' {
        seq!['\\', '"']
    } else if c == '\\' {
        seq!['\\', '\\']
    } else if c == '\u{8}' {
        seq!['\\', 'b']
    } else if c == '\t' {
        seq!['\\', 't']
    } else if c == '\n' {
        seq!['\\', 'n']
    } else if c == '\u{c}' {
        seq!['\\', 'f']
    } else if c == '\r' {
        seq!['\\', 'r']
    } else if (c as u32) < 0x20 {
        seq!['\\', 'u', '0', '0', hex_digit((c as u32) / 16), hex_digit((c as u32) % 16)]
    } else {
        seq![c]
    }
}

/// The characters of `s`, each escaped for a JSON string, in order.
pub open spec fn json_escaped(s: Seq<char>) -> Seq<char>
    decreases s.len(),
{
    if s.len() == 0 {
        Seq::empty()
    } else {
        json_escaped(s.drop_last()) + json_escape(s.last())
    }
}

/// The compact JSON string literal for `s`.
pub open spec fn json_string_of(s: Seq<char>) -> Seq<char> {
    seq!['"'] + json_escaped(s) + seq!['"']
}

#[verifier::external_type_specification]
#[verifier::external_body]
pub struct ExJsonError(serde_json::Error);

/// Relies on serde_json::to_string applied to a string slice: it writes into a
/// `Vec`, which never fails, the quoted string with `"`, `\` and the control
/// characters escaped by serde_json's escape table.
#[verifier::external_body]
fn json_string(s: &str) -> (r: Result<String, serde_json::Error>)
    ensures
        r is Ok,
        r matches Ok(t) ==> t@ == json_string_of(s@),
{
    serde_json::to_string(s)
}

/// A JSON object with the fields `id` and `summary` in that order, whose values
/// are the JSON texts `id_json` and `summary_json`, written compactly.
pub open spec fn summary_frame(id_json: Seq<char>, summary_json: Seq<char>) -> Seq<char> {
    "{\"id\":"@ + id_json + ",\"summary\":"@ + summary_json + "}"@
}

/// The compact JSON of a `Summary` with this id and text.
pub open spec fn summary_json(id: Seq<char>, text: Seq<char>) -> Seq<char> {
    summary_frame(json_string_of(id), json_string_of(text))
}

/// The successful reply that carries `text` as the summary of conversation `id`.
pub open spec fn summary_view(id: Seq<char>, text: Seq<char>) -> ReplyView {
    ReplyView { status: OK_STATUS, body: summary_json(id, text) }
}

/// Writes the summary object around two JSON values that are already encoded.
pub fn frame_summary(id_json: &str, summary_json: &str) -> (r: String)
    ensures
        r@ == summary_frame(id_json@, summary_json@),
{
    let mut out = String::from_str("{\"id\":");
    out.append(id_json);
    out.append(",\"summary\":");
    out.append(summary_json);
    out.append("}");
    out
}

impl Summary {
    /// The summary as compact JSON, `{"id":...,"summary":...}`.
    pub fn to_json(&self) -> (r: Result<String, SummaryError>)
        ensures
            r is Ok,
            r matches Ok(b) ==> b@ == summary_json(self.id@, self.summary@),
    {
        let id_json = match json_string(self.id.as_str()) {
            Ok(t) => t,
            Err(_) => return Err(SummaryError::SerializationFailure),
        };
        let summary_json = match json_string(self.summary.as_str()) {
            Ok(t) => t,
            Err(_) => return Err(SummaryError::SerializationFailure),
        };
        Ok(frame_summary(id_json.as_str(), summary_json.as_str()))
    }
}

/// The reply that carries `text` as the summary of conversation `id`.
pub fn respond(id: &str, text: &str) -> (r: Reply)
    ensures
        r@ == summary_view(id@, text@),
{
    let summary = Summary { id: id.to_owned(), summary: text.to_owned() };
    match summary.to_json() {
        Ok(body) => Reply { status: OK_STATUS, body },
        Err(e) => error_reply(e),
    }
}

} // verus!
