//! RPC failures: an HTTP status and a message, rendered by the transport as
//! `{ "error": message }` (a `409` carries a ready JSON body instead).

use vstd::prelude::*;
use crate::hex::hex_digit;
use crate::text_support::concat3;

verus! {

pub const STATUS_BAD_REQUEST: u16 = 400;
pub const STATUS_UNAUTHORIZED: u16 = 401;
pub const STATUS_FORBIDDEN: u16 = 403;
pub const STATUS_NOT_FOUND: u16 = 404;
pub const STATUS_CONFLICT: u16 = 409;
pub const STATUS_INTERNAL: u16 = 500;
pub const STATUS_NOT_IMPLEMENTED: u16 = 501;

/// An RPC failure: HTTP status code and message.
#[derive(Debug)]
pub struct RpcError {
    pub status: u16,
    pub message: String,
}

impl RpcError {
    /// A `400 Bad Request` with `message`.
    pub fn bad_request(message: String) -> (e: RpcError)
        ensures
            e.status == STATUS_BAD_REQUEST,
            e.message@ == message@,
    {
        RpcError { status: STATUS_BAD_REQUEST, message }
    }

    /// A `500 Internal Server Error` with `message`.
    pub fn internal(message: String) -> (e: RpcError)
        ensures
            e.status == STATUS_INTERNAL,
            e.message@ == message@,
    {
        RpcError { status: STATUS_INTERNAL, message }
    }
}

/// A `400` whose message is the literal `message`.
pub fn bad_request_text(message: &str) -> (e: RpcError)
    ensures
        e.status == STATUS_BAD_REQUEST,
        e.message@ == message@,
{
    RpcError::bad_request(message.to_owned())
}

/// The `501` for a command the web server does not implement.
pub fn unsupported(command: &str) -> (e: RpcError)
    ensures
        e.status == STATUS_NOT_IMPLEMENTED,
        e.message@ == "command '"@ + command@ + "' is not supported on web"@,
{
    RpcError {
        status: STATUS_NOT_IMPLEMENTED,
        message: concat3("command '", command, "' is not supported on web"),
    }
}

/// How `serde_json` writes one character inside a string literal: `"` and
/// `\` are backslash-escaped, backspace, tab, line feed, form feed and
/// carriage return get their short escapes, other characters below `0x20`
/// are written `\u00XX` with lowercase hex digits, and every other
/// character is copied.
pub open spec fn json_escape(c: char) -> Seq<char> {
    if c == '"' {
        seq!['\\', '"']
    } else if c == '\\' {
        seq!['\\', '\\']
    } else if c == '\u{8}' {
        seq!['\\', 'b']
    } else if c == '\t' {
        seq!['\\', 't']
    } else if c == '\n' {
        seq!['\\', 'n']
    } else if c == '\u{c}' {
        seq!['\\', 'f']
    } else if c == '\r' {
        seq!['\\', 'r']
    } else if (c as u32) < 0x20 {
        seq!['\\', 'u', '0', '0', hex_digit(((c as u32) / 16) as u8), hex_digit(((c as u32) % 16) as u8)]
    } else {
        seq![c]
    }
}

/// The escaped characters of `s`, in order.
pub open spec fn json_escaped(s: Seq<char>) -> Seq<char>
    decreases s.len(),
{
    if s.len() == 0 {
        Seq::empty()
    } else {
        json_escaped(s.drop_last()) + json_escape(s.last())
    }
}

/// The JSON string literal that `serde_json` writes for `s`.
pub open spec fn json_quoted(s: Seq<char>) -> Seq<char> {
    seq!['"'] + json_escaped(s) + seq!['"']
}

/// `serde_json::to_string` of a string slice: the quoted, escaped JSON
/// literal for `s`. Serialising a `str` into the in-memory buffer never
/// fails in serde_json's source (`serialize_str` writes the escaped bytes to
/// a `Vec`, whose writes cannot fail), so the call always succeeds.
#[verifier::external_body]
fn quote_json(s: &str) -> (r: Result<String, String>)
    ensures
        r is Ok,
        r matches Ok(q) ==> q@ == json_quoted(s@),
{
    serde_json::to_string(s).map_err(|e| e.to_string())
}

/// The body of a `409` for a stale save: `{"currentContent":..,"error":"conflict"}`
/// (serde_json orders object keys).
pub open spec fn conflict_body(current: Seq<char>) -> Seq<char> {
    "{\"currentContent\":"@ + json_quoted(current) + ",\"error\":\"conflict\"}"@
}

/// The `409 Conflict` returned when a save's base hash is stale; the message
/// is the JSON body carrying the current on-disk content.
pub fn conflict_error(current_content: &str) -> (e: RpcError)
    ensures
        e.status == STATUS_CONFLICT,
        e.message@ == conflict_body(current_content@),
{
    let message = match quote_json(current_content) {
        Ok(q) => concat3("{\"currentContent\":", q.as_str(), ",\"error\":\"conflict\"}"),
        Err(_) => "{\"error\":\"conflict\"}".to_owned(),
    };
    RpcError { status: STATUS_CONFLICT, message }
}

} // verus!
