//! JSON documents, as far as their members are looked at.

use crate::text::text_view;
use vstd::prelude::*;

verus! {

/// A parsed JSON document.
#[verifier::external_type_specification]
#[verifier::external_body]
pub struct ExJsonValue(serde_json::Value);

/// A member of a JSON object.
#[derive(Debug, Clone, PartialEq, Eq)]
pub struct JsonField {
    /// Its text, where it is a string.
    pub text: Option<String>,
    /// Its number, where it is an integer from zero up that fits.
    pub unsigned: Option<u64>,
    /// What is shown for it.
    pub rendered: String,
}

/// A member of a JSON object, as a value of mathematics.
#[verifier::ext_equal]
pub struct JsonFieldView {
    pub text: Option<Seq<char>>,
    pub unsigned: Option<u64>,
    pub rendered: Seq<char>,
}

impl View for JsonField {
    type V = JsonFieldView;

    open spec fn view(&self) -> JsonFieldView {
        JsonFieldView {
            text: text_view(self.text),
            unsigned: self.unsigned,
            rendered: self.rendered@,
        }
    }
}

/// The view of an optional member.
pub open spec fn field_view(f: Option<JsonField>) -> Option<JsonFieldView> {
    match f {
        Some(f) => Some(f@),
        None => None,
    }
}

/// The members of a document that is a JSON object; none for any other document.
pub uninterp spec fn json_members(value: serde_json::Value) -> Map<Seq<char>, JsonFieldView>;

/// What serde_json makes of some bytes: the members of the document in them, or what it says
/// against them.
pub uninterp spec fn json_document(bytes: Seq<u8>) -> Result<
    Map<Seq<char>, JsonFieldView>,
    Seq<char>,
>;

/// A digit of a hexadecimal number.
pub open spec fn hex_digit(n: int) -> char {
    if n < 10 {
        ('0' as int + n) as char
    } else {
        ('a' as int + n - 10) as char
    }
}

/// How a character is written in a JSON string.
pub open spec fn json_char(c: char) -> Seq<char> {
    if c == '"' || c == '\\' {
        seq!['\\', c]
    } else if c == '\u{8}' {
        seq!['\\', 'b']
    } else if c == '\t' {
        seq!['\\', 't']
    } else if c == '\n' {
        seq!['\\', 'n']
    } else if c == '\u{c}' {
        seq!['\\', 'f']
    } else if c == '\r' {
        seq!['\\', 'r']
    } else if c <= '\u{1f}' {
        seq!['\\', 'u', '0', '0', hex_digit(c as int / 16), hex_digit(c as int % 16)]
    } else {
        seq![c]
    }
}

/// How a text is written in a JSON string.
pub open spec fn json_chars(text: Seq<char>) -> Seq<char>
    decreases text.len(),
{
    if text.len() == 0 {
        Seq::empty()
    } else {
        json_chars(text.drop_last()) + json_char(text.last())
    }
}

/// The JSON string for a text, with its quotation marks.
pub open spec fn json_text(text: Seq<char>) -> Seq<char> {
    seq!['"'] + json_chars(text) + seq!['"']
}

/// A member of a map, where it is there.
pub open spec fn member_of(members: Map<Seq<char>, JsonFieldView>, name: Seq<char>) -> Option<
    JsonFieldView,
> {
    if members.contains_key(name) {
        Some(members[name])
    } else {
        None
    }
}

/// Calls `serde_json::from_slice`. What document, or what error, it gives depends on the bytes
/// alone, and is not said further.
#[verifier::external_body]
pub(crate) fn parse(bytes: &[u8]) -> (r: Result<serde_json::Value, String>)
    ensures
        match r {
            Ok(value) => json_document(bytes@) == Ok::<_, Seq<char>>(json_members(value)),
            Err(text) => json_document(bytes@) == Err::<Map<Seq<char>, JsonFieldView>, _>(text@),
        },
{
    serde_json::from_slice(bytes).map_err(|error| error.to_string())
}

/// Calls `serde_json::Value::get`, which gives a member of an object, and nothing where there is
/// none or the value is no object. Of the member it takes the text, the unsigned number and
/// what is shown for it, as `as_str`, `as_u64` and `to_string` give them.
#[verifier::external_body]
pub(crate) fn member(value: &serde_json::Value, name: &str) -> (r: Option<JsonField>)
    ensures
        field_view(r) == member_of(json_members(*value), name@),
{
    value.get(name).map(
        |found|
            JsonField {
                text: found.as_str().map(str::to_owned),
                unsigned: found.as_u64(),
                rendered: found.to_string(),
            },
    )
}

/// Calls `serde_json::Value::from` on a string and then `to_string`, which writes the text
/// between quotation marks. Quotation marks and backslashes follow a backslash; backspace, tab,
/// line feed, form feed and carriage return are written as a backslash and a letter, and the other
/// characters below the space as `\u` and their number in four hexadecimal digits. Every other
/// character stays as it is.
#[verifier::external_body]
pub(crate) fn quote(text: &str) -> (r: String)
    ensures
        r@ == json_text(text@),
{
    serde_json::Value::from(text).to_string()
}

} // verus!
