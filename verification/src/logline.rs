//! Log lines that start with a timestamp prefix of fixed width.

use vstd::prelude::*;
use vstd::string::*;
use vstd::utf8::is_char_boundary;

verus! {

/// The width of the timestamp prefix, in bytes.
pub const PREFIX_WIDTH: usize = 33;

/// The byte `-`.
pub const DASH: u8 = 45;

/// Whether a line is long enough to hold the prefix, and the prefix ends
/// between two characters.
pub open spec fn has_prefix(line: &str) -> bool {
    line.spec_bytes().len() >= PREFIX_WIDTH && is_char_boundary(
        line.spec_bytes(),
        PREFIX_WIDTH as int,
    )
}

/// What follows the prefix.
pub open spec fn after_prefix(line: &str) -> Seq<u8> {
    line.spec_bytes().subrange(PREFIX_WIDTH as int, line.spec_bytes().len() as int)
}

/// Whether the text is a rule: it starts with two dashes.
pub open spec fn is_rule(text: Seq<u8>) -> bool {
    text.len() >= 2 && text[0] == DASH && text[1] == DASH
}

/// Whether a line holds the prefix.
pub fn line_has_prefix(line: &str) -> (yes: bool)
    ensures
        yes == has_prefix(line),
{
    line.as_bytes().len() >= PREFIX_WIDTH && line.is_char_boundary(PREFIX_WIDTH)
}

/// What a line shows once its prefix is taken off: the rest of the line, or
/// nothing where the rest is a rule.
pub fn visible_part(line: &str) -> (out: Option<&str>)
    requires
        has_prefix(line),
    ensures
        out is None <==> is_rule(after_prefix(line)),
        out is Some ==> out.unwrap().spec_bytes() == after_prefix(line),
{
    let (_, rest) = line.split_at(PREFIX_WIDTH);
    let bytes = rest.as_bytes();
    if bytes.len() >= 2 && bytes[0] == DASH && bytes[1] == DASH {
        None
    } else {
        Some(rest)
    }
}

} // verus!
