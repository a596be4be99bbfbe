//! Text shown in the terminal: JSON bodies pretty-printed, long lines
//! wrapped.
use vstd::prelude::*;
use vstd::utf8::{decode_utf8, valid_utf8};
use crate::text::utf8_string;

verus! {

/// What serde_json writes for the JSON document `text` with its pretty
/// formatter and the given indent; `None` when `text` is not JSON.
pub uninterp spec fn json_pretty(text: Seq<char>, indent: Seq<u8>) -> Option<Seq<u8>>;

/// Parses `text` with `serde_json::from_str` into a `serde_json::Value` and
/// writes the value back through `serde_json::ser::PrettyFormatter` with
/// `indent`. The contract names the outcome and says no more of it.
#[verifier::external_body]
fn pretty_json(text: &str, indent: &[u8]) -> (r: Option<Vec<u8>>)
    ensures
        match r {
            Some(b) => json_pretty(text@, indent@) == Some(b@),
            None => json_pretty(text@, indent@) is None,
        },
{
    let value: serde_json::Value = match serde_json::from_str(text) {
        Ok(v) => v,
        Err(_) => return None,
    };
    let mut buffer: Vec<u8> = Vec::new();
    let formatter = serde_json::ser::PrettyFormatter::with_indent(indent);
    let mut serializer = serde_json::Serializer::with_formatter(&mut buffer, formatter);
    match serde::Serialize::serialize(&value, &mut serializer) {
        Ok(()) => Some(buffer),
        Err(_) => None,
    }
}

/// Four spaces.
pub open spec fn default_indent() -> Seq<u8> {
    seq![32u8, 32u8, 32u8, 32u8]
}

/// The text shown for a body whose pretty-printed form is `pretty`: that
/// form when there is one and it is UTF-8, else the body as it came.
pub open spec fn code_or_text(text: Seq<char>, pretty: Option<Seq<u8>>) -> Seq<char> {
    match pretty {
        Some(b) => if valid_utf8(b) {
            decode_utf8(b)
        } else {
            text
        },
        None => text,
    }
}

/// The formatted form of a body: JSON pretty-printed with four spaces of
/// indent, anything else unchanged.
pub open spec fn formatted_code(text: Seq<char>) -> Seq<char> {
    code_or_text(text, json_pretty(text, default_indent()))
}

/// Chooses between the pretty-printed form of `text` and `text` itself.
pub fn code_from_pretty(text: &str, pretty: Option<Vec<u8>>) -> (r: String)
    ensures
        r@ == code_or_text(
            text@,
            match pretty {
                Some(b) => Some(b@),
                None => None,
            },
        ),
{
    match pretty {
        Some(bytes) => match utf8_string(bytes) {
            Some(s) => s,
            None => text.to_string(),
        },
        None => text.to_string(),
    }
}

/// Pretty-prints `text` when it is JSON, with an indent of four spaces;
/// returns it unchanged otherwise.
pub fn format_code(text: &str) -> (r: String)
    ensures
        r@ == formatted_code(text@),
{
    let indent: Vec<u8> = vec![32u8, 32u8, 32u8, 32u8];
    assert(indent@ == default_indent());
    let pretty = pretty_json(text, indent.as_slice());
    code_from_pretty(text, pretty)
}

/// What `textwrap::fill` makes of `text` at `width` columns.
pub uninterp spec fn filled(text: Seq<char>, width: usize) -> Seq<char>;

/// `textwrap::fill` with a plain width. The contract names the result and
/// says no more of it.
#[verifier::external_body]
fn fill(text: &str, width: usize) -> (r: String)
    ensures
        r@ == filled(text@, width),
{
    textwrap::fill(text, width)
}

/// Wraps `text` into lines of at most `max_width` columns.
pub fn wrap_text(text: &str, max_width: usize) -> (r: String)
    ensures
        r@ == filled(text@, max_width),
{
    fill(text, max_width)
}

} // verus!
