//! What the transport layer sends for a failure: a status and a JSON body.

use vstd::prelude::*;

verus! {

/// The JSON string literal that `serde_json` writes for a text: the text in
/// double quotes, with the characters escaped that JSON does not take as
/// they are.
pub uninterp spec fn json_string_literal(text: Seq<char>) -> Seq<char>;

/// Whether JSON takes every character of `text` as it is: none is a control
/// character below U+0020, a double quote or a backslash.
pub open spec fn needs_no_escape(text: Seq<char>) -> bool {
    forall|i: int|
        0 <= i < text.len() ==> ' ' <= #[trigger] text[i] && text[i] != '"' && text[i] != '\\'
}

/// A text between two double quotes.
pub open spec fn quoted(text: Seq<char>) -> Seq<char> {
    seq!['"'] + text + seq!['"']
}

/// The body of a failure response, given the JSON string literals of its
/// type label and of its message.
pub open spec fn error_envelope(type_literal: Seq<char>, message_literal: Seq<char>) -> Seq<char> {
    "{\"error\":{\"type\":"@ + type_literal + ",\"message\":"@ + message_literal + "}}"@
}

/// The body of a failure response with the given type label and message.
pub open spec fn error_body(error_type: Seq<char>, message: Seq<char>) -> Seq<char> {
    error_envelope(json_string_literal(error_type), json_string_literal(message))
}

/// Writes a text as a JSON string literal.
///
/// Trusted: makes a `serde_json::Value` of the text with its `From<&str>`
/// and writes it with the value's `Display`, which for a string is the
/// compact string literal. The result depends on the text alone and is
/// named `json_string_literal`. `serde_json` escapes the characters below
/// U+0020, the double quote and the backslash and no others, so the literal
/// of a text without them is the text between two double quotes.
#[verifier::external_body]
pub(crate) fn json_string(text: &str) -> (literal: String)
    ensures
        literal@ == json_string_literal(text@),
        needs_no_escape(text@) ==> literal@ == quoted(text@),
{
    serde_json::Value::from(text).to_string()
}

/// Puts the JSON string literals of a type label and of a message into the
/// body of a failure response.
pub fn frame_error(type_literal: &str, message_literal: &str) -> (body: String)
    ensures
        body@ == error_envelope(type_literal@, message_literal@),
{
    let mut body = "{\"error\":{\"type\":".to_string();
    body.append(type_literal);
    body.append(",\"message\":");
    body.append(message_literal);
    body.append("}}");
    body
}

/// The body of a failure response with the given type label and message:
/// the JSON object `{"error":{"type":…,"message":…}}`. Where neither text
/// holds a character that JSON escapes, the two stand in the body as they
/// are, each between double quotes.
pub fn json_error(error_type: &str, message: &str) -> (body: String)
    ensures
        body@ == error_body(error_type@, message@),
        needs_no_escape(error_type@) && needs_no_escape(message@) ==> body@ == error_envelope(
            quoted(error_type@),
            quoted(message@),
        ),
{
    let type_literal = json_string(error_type);
    let message_literal = json_string(message);
    frame_error(type_literal.as_str(), message_literal.as_str())
}

/// A failure as the transport layer answers it.
#[derive(Debug)]
pub struct ErrorResponse {
    /// The HTTP status.
    pub status: u16,
    /// The label of the kind of failure.
    pub error_type: String,
    /// The detail of the failure.
    pub message: String,
}

impl ErrorResponse {
    /// The JSON body of the response.
    pub fn body(&self) -> (body: String)
        ensures
            body@ == error_body(self.error_type@, self.message@),
            needs_no_escape(self.error_type@) && needs_no_escape(self.message@) ==> body@
                == error_envelope(quoted(self.error_type@), quoted(self.message@)),
    {
        json_error(self.error_type.as_str(), self.message.as_str())
    }
}

} // verus!
