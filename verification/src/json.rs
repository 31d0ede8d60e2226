//! JSON text, as `serde_json` reads and writes it.

use vstd::prelude::*;
use crate::text::opt_text;

verus! {

/// The hexadecimal digit for a number below 16, in lower case.
pub open spec fn hex_digit(n: int) -> char
    recommends
        0 <= n < 16,
{
    "0123456789abcdef"@[n]
}

/// Whether a character is written otherwise than as itself inside a JSON
/// string: the double quote, the backslash and the control characters below
/// the space.
pub open spec fn needs_escape(c: char) -> bool {
    c == '"' || c == '\\' || (c as u32) < 0x20
}

/// A character as it stands inside a JSON string. The double quote and the
/// backslash get a backslash in front; backspace, tab, line feed, form feed
/// and carriage return are written with their letter; any other control
/// character below the space is written with four hexadecimal digits; every
/// other character stands for itself.
pub open spec fn escape(c: char) -> Seq<char> {
    if c == '"' {
        seq!['\\', '"']
    } else if c == '\\' {
        seq!['\\', '\\']
    } else if c == '\u{8}' {
        seq!['\\', 'b']
    } else if c == '\t' {
        seq!['\\', 't']
    } else if c == '\n' {
        seq!['\\', 'n']
    } else if c == '\u{c}' {
        seq!['\\', 'f']
    } else if c == '\r' {
        seq!['\\', 'r']
    } else if (c as u32) < 0x20 {
        seq!['\\', 'u', '0', '0', hex_digit((c as u32) as int / 16), hex_digit((c as u32) as int % 16)]
    } else {
        seq![c]
    }
}

/// A text as it stands inside a JSON string: each character escaped, in
/// order.
pub open spec fn escaped(text: Seq<char>) -> Seq<char>
    decreases text.len(),
{
    if text.len() == 0 {
        Seq::empty()
    } else {
        escaped(text.drop_last()) + escape(text.last())
    }
}

/// The JSON string literal for a text: the escaped text in double quotes.
pub open spec fn json_string_literal(text: Seq<char>) -> Seq<char> {
    seq!['"'] + escaped(text) + seq!['"']
}

/// The compact JSON text of the JSON value that a text parses to, or `None`
/// where the text is not JSON.
pub uninterp spec fn json_rendering(text: Seq<char>) -> Option<Seq<char>>;

/// A text without a double quote, a backslash or a control character is
/// its own content as a JSON string: the literal is the text in double
/// quotes.
pub proof fn lemma_plain_text_is_quoted_as_is(text: Seq<char>)
    requires
        forall|i: int| 0 <= i < text.len() ==> !needs_escape(#[trigger] text[i]),
    ensures
        escaped(text) == text,
        json_string_literal(text) == seq!['"'] + text + seq!['"'],
    decreases text.len(),
{
    if text.len() > 0 {
        lemma_plain_text_is_quoted_as_is(text.drop_last());
        assert(text.drop_last() + seq![text.last()] =~= text);
    }
}

/// Calls `serde_json::to_string` on a string slice. The contract states
/// what `serde_json` writes for a string: a double quote, the characters
/// with the escapes of `escape`, a double quote. It is not proved. Writing
/// a string to memory does not fail, and the error arm is there for the
/// type only.
#[verifier::external_body]
pub(crate) fn quote(text: &str) -> (r: String)
    ensures
        r@ == json_string_literal(text@),
{
    match serde_json::to_string(text) {
        Ok(literal) => literal,
        Err(_) => String::new(),
    }
}

/// Calls `serde_json::from_str` for a `serde_json::Value` and, where the
/// text parses, `serde_json::to_string` on the value. The contract names the
/// result: the compact text of the parsed value, or `None` where
/// `serde_json` rejects the text. Nothing is proved of it.
#[verifier::external_body]
pub(crate) fn render(text: &str) -> (r: Option<String>)
    ensures
        opt_text(r) == json_rendering(text@),
{
    match serde_json::from_str::<serde_json::Value>(text) {
        Ok(value) => serde_json::to_string(&value).ok(),
        Err(_) => None,
    }
}

} // verus!
