//! JSON text through `serde_json`: quoting a string and reading a string
//! member of an object.
use vstd::prelude::*;
use crate::text::digit_char;

verus! {

/// A lower-case hexadecimal digit.
pub open spec fn hex_digit(d: nat) -> char {
    if d < 10 {
        digit_char(d)
    } else {
        ((d - 10 + 97) as u32) as char
    }
}

/// How `serde_json` writes one character inside a string: `"` and `\`
/// escaped with a backslash, backspace, tab, line feed, form feed and
/// carriage return as `\b \t \n \f \r`, other characters below U+0020 as
/// `\u00XX`, everything else as it is.
pub open spec fn json_escape_char(c: char) -> Seq<char> {
    let u = c as u32;
    if c == '"' {
        seq!['\\', '"']
    } else if c == '\\' {
        seq!['\\', '\\']
    } else if u == 8 {
        seq!['\\', 'b']
    } else if u == 9 {
        seq!['\\', 't']
    } else if u == 10 {
        seq!['\\', 'n']
    } else if u == 12 {
        seq!['\\', 'f']
    } else if u == 13 {
        seq!['\\', 'r']
    } else if u < 32 {
        seq!['\\', 'u', '0', '0', hex_digit((u / 16) as nat), hex_digit((u % 16) as nat)]
    } else {
        seq![c]
    }
}

/// The escaped characters of a text.
pub open spec fn json_escape(s: Seq<char>) -> Seq<char>
    decreases s.len(),
{
    if s.len() == 0 {
        seq![]
    } else {
        json_escape(s.drop_last()) + json_escape_char(s.last())
    }
}

/// A text as a JSON string literal.
pub open spec fn json_string_literal(s: Seq<char>) -> Seq<char> {
    seq!['"'] + json_escape(s) + seq!['"']
}

/// The string member `key` of the JSON text `body`: an error text when
/// `body` is not JSON, no value when it is not an object or the member is
/// missing or not a string.
pub uninterp spec fn json_text_member(body: Seq<char>, key: Seq<char>) -> Result<
    Option<Seq<char>>,
    Seq<char>,
>;

/// The text view of a member lookup.
pub open spec fn member_view(r: Result<Option<String>, String>) -> Result<Option<Seq<char>>, Seq<char>> {
    match r {
        Ok(Some(s)) => Ok(Some(s@)),
        Ok(None) => Ok(None),
        Err(e) => Err(e@),
    }
}

/// Calls `serde_json::to_string` on a `&str`. Serialising a string never
/// fails in `serde_json` (it writes into a `Vec`), and its escaping is the
/// table that `json_escape_char` states.
#[verifier::external_body]
pub(crate) fn json_quote(s: &str) -> (r: String)
    ensures
        r@ == json_string_literal(s@),
{
    match serde_json::to_string(s) {
        Ok(q) => q,
        Err(_) => String::new(),
    }
}

/// Calls `serde_json::from_str::<Value>` on `body` and `Value::get(key)`,
/// keeping the member when it is a string. The result is named; whether the
/// text parses, and the error text, do not depend on the key.
#[verifier::external_body]
pub(crate) fn json_member_text(body: &str, key: &str) -> (r: Result<Option<String>, String>)
    ensures
        member_view(r) == json_text_member(body@, key@),
        r is Err ==> forall|k: Seq<char>| #[trigger] json_text_member(body@, k) == member_view(r),
        r is Ok ==> forall|k: Seq<char>| #[trigger] json_text_member(body@, k) is Ok,
{
    match serde_json::from_str::<serde_json::Value>(body) {
        Ok(value) => Ok(match value.get(key) {
            Some(serde_json::Value::String(s)) => Some(s.clone()),
            _ => None,
        }),
        Err(error) => Err(error.to_string()),
    }
}

} // verus!
