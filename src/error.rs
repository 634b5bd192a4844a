use vstd::prelude::*;

verus! {

/// Message of every authorization failure.
pub const NOT_AUTHORIZED: &'static str = "Not Authorized";

/// Message used when the upstream answered without a launched run.
pub const INTERNAL_SERVER_ERROR: &'static str = "Internal server error";

/// The lowercase hexadecimal digit of `n`, for `n < 16`.
pub open spec fn hex_digit(n: u32) -> char {
    seq!['0', '1', '2', '3', '4', '5', '6', '7', '8', '9', 'a', 'b', 'c', 'd', 'e', 'f'][n as int]
}

/// How one character stands inside a JSON string: `"` and `\` get a
/// backslash, the five control characters with a short escape get it,
/// the other characters below U+0020 become `\u00` and two hex digits, and
/// every other character stands for itself.
pub open spec fn json_escape_char(c: char) -> Seq<char> {
    let u = c as u32;
    if c == '"' {
        seq!['\\', '"']
    } else if c == '\\' {
        seq!['\\', '\\']
    } else if u == 0x08 {
        seq!['\\', 'b']
    } else if u == 0x09 {
        seq!['\\', 't']
    } else if u == 0x0a {
        seq!['\\', 'n']
    } else if u == 0x0c {
        seq!['\\', 'f']
    } else if u == 0x0d {
        seq!['\\', 'r']
    } else if u < 0x20 {
        seq!['\\', 'u', '0', '0', hex_digit(u / 16), hex_digit(u % 16)]
    } else {
        seq![c]
    }
}

/// The characters of `s`, each escaped as inside a JSON string.
pub open spec fn json_escaped(s: Seq<char>) -> Seq<char>
    decreases s.len(),
{
    if s.len() == 0 {
        Seq::empty()
    } else {
        json_escaped(s.drop_last()) + json_escape_char(s.last())
    }
}

/// The JSON string literal holding `s`, as `serde_json` writes it.
pub open spec fn json_string_of(s: Seq<char>) -> Seq<char> {
    seq!['"'] + json_escaped(s) + seq!['"']
}

/// Relies on `serde_json::Value::String` rendered by its `Display` impl
/// (compact form): a quote, the characters of `s` escaped by serde_json's
/// table (`"`, `\`, short escapes for backspace, tab, line feed, form feed
/// and carriage return, `\u00xx` with lowercase digits for the other control
/// characters below U+0020, nothing else), and a quote.
#[verifier::external_body]
pub(crate) fn json_string(s: &str) -> (r: String)
    ensures
        r@ == json_string_of(s@),
{
    serde_json::Value::String(s.to_string()).to_string()
}

/// The compact JSON object `{"msg":<msg>}`.
pub open spec fn error_json(msg: Seq<char>) -> Seq<char> {
    "{\"msg\":"@ + json_string_of(msg) + "}"@
}

/// An error carrying a human-readable message; its textual form is the JSON
/// object `{"msg": ...}`.
#[derive(Debug, Clone)]
pub struct CustomError {
    pub msg: String,
}

impl CustomError {
    pub fn new(msg: &str) -> (r: CustomError)
        ensures
            r.msg@ == msg@,
    {
        CustomError { msg: msg.to_owned() }
    }

    /// The error of a missing or mismatched signature.
    pub fn not_authorized() -> (r: CustomError)
        ensures
            r.msg@ == NOT_AUTHORIZED@,
    {
        CustomError::new(NOT_AUTHORIZED)
    }

    /// The error of an upstream answer without a launched run.
    pub fn internal() -> (r: CustomError)
        ensures
            r.msg@ == INTERNAL_SERVER_ERROR@,
    {
        CustomError::new(INTERNAL_SERVER_ERROR)
    }

    /// The error rendered as a compact JSON object with a single `msg` field.
    pub fn to_json(&self) -> (r: String)
        ensures
            r@ == error_json(self.msg@),
    {
        let quoted = json_string(self.msg.as_str());
        let r = String::from_str("{\"msg\":").concat(quoted.as_str()).concat("}");
        r
    }
}

} // verus!
