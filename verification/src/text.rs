//! Small text utilities: decimal numerals, splitting at a separator and
//! joining with a separator.

use vstd::prelude::*;
use vstd::string::*;
use joinery::JoinableIterator;

verus! {

/// The views of a sequence of strings.
pub open spec fn texts(v: Seq<String>) -> Seq<Seq<char>> {
    Seq::new(v.len(), |i: int| v[i]@)
}

/// The character that stands for the decimal digit `d`.
pub open spec fn digit_char(d: nat) -> char {
    if d == 0 {
        '0'
    } else if d == 1 {
        '1'
    } else if d == 2 {
        '2'
    } else if d == 3 {
        '3'
    } else if d == 4 {
        '4'
    } else if d == 5 {
        '5'
    } else if d == 6 {
        '6'
    } else if d == 7 {
        '7'
    } else if d == 8 {
        '8'
    } else {
        '9'
    }
}

/// The decimal numeral of `n`, without sign or leading zeros.
pub open spec fn decimal(n: nat) -> Seq<char>
    decreases n,
{
    if n < 10 {
        seq![digit_char(n)]
    } else {
        decimal(n / 10).push(digit_char(n % 10))
    }
}

/// The decimal numeral of `n`, padded with a zero to two places.
pub open spec fn decimal_two_places(n: nat) -> Seq<char> {
    if n < 10 {
        seq!['0'] + decimal(n)
    } else {
        decimal(n)
    }
}

/// `parts` joined, with `sep` between each two neighbours.
pub open spec fn joined(parts: Seq<Seq<char>>, sep: Seq<char>) -> Seq<char>
    decreases parts.len(),
{
    if parts.len() == 0 {
        Seq::empty()
    } else if parts.len() == 1 {
        parts[0]
    } else {
        joined(parts.drop_last(), sep) + sep + parts.last()
    }
}

/// Whether `i` is the place of the first `sep` in `s`.
pub open spec fn is_first_at(s: Seq<char>, sep: char, i: int) -> bool {
    &&& 0 <= i < s.len()
    &&& s[i] == sep
    &&& forall|j: int| 0 <= j < i ==> s[j] != sep
}

/// The place of the first `sep` in `s`, where `s` holds one.
pub open spec fn first_at(s: Seq<char>, sep: char) -> int {
    choose|i: int| is_first_at(s, sep, i)
}

/// The first occurrence of a character is at one place only.
pub proof fn lemma_first_at_unique(s: Seq<char>, sep: char, i: int)
    requires
        is_first_at(s, sep, i),
    ensures
        first_at(s, sep) == i,
        s.contains(sep),
{
    let k = first_at(s, sep);
    assert(is_first_at(s, sep, k));
    if k < i {
        assert(s[k] != sep);
    }
    if i < k {
        assert(s[i] != sep);
    }
}

/// `String::push` of std appends one character to the string.
pub assume_specification[ String::push ](s: &mut String, c: char)
    ensures
        final(s)@ == old(s)@.push(c),
;

/// `joinery::JoinableIterator::join_with`, written out through `Display`:
/// the parts in order, with the separator between each two neighbours and
/// nowhere else.
#[verifier::external_body]
pub(crate) fn join_with_separator(parts: &Vec<String>, sep: &str) -> (out: String)
    ensures
        out@ == joined(texts(parts@), sep@),
{
    parts.iter().join_with(sep).to_string()
}

/// `std::str::from_utf8`: the text that the bytes encode, where they are
/// well-formed UTF-8, and nothing where they are not.
#[verifier::external_body]
pub(crate) fn utf8_text(bytes: &Vec<u8>) -> (out: Option<String>)
    ensures
        out is Some <==> vstd::utf8::valid_utf8(bytes@),
        out is Some ==> out.unwrap()@ == vstd::utf8::decode_utf8(bytes@),
{
    std::str::from_utf8(bytes.as_slice()).ok().map(|s| s.to_owned())
}

fn digit(d: u32) -> (c: char)
    requires
        d < 10,
    ensures
        c == digit_char(d as nat),
{
    if d == 0 {
        '0'
    } else if d == 1 {
        '1'
    } else if d == 2 {
        '2'
    } else if d == 3 {
        '3'
    } else if d == 4 {
        '4'
    } else if d == 5 {
        '5'
    } else if d == 6 {
        '6'
    } else if d == 7 {
        '7'
    } else if d == 8 {
        '8'
    } else {
        '9'
    }
}

/// Appends the decimal numeral of `n` to `out`.
pub fn push_decimal(out: &mut String, n: u32)
    ensures
        final(out)@ == old(out)@ + decimal(n as nat),
    decreases n,
{
    if n >= 10 {
        push_decimal(out, n / 10);
    }
    out.push(digit(n % 10));
    assert(out@ =~= old(out)@ + decimal(n as nat));
}

/// The place of the first `sep` in `s`, counted in characters.
pub fn find_first(s: &str, sep: char) -> (at: Option<usize>)
    ensures
        match at {
            Some(i) => is_first_at(s@, sep, i as int),
            None => !s@.contains(sep),
        },
{
    let n: usize = s.unicode_len();
    let mut i: usize = 0;
    while i < n
        invariant
            n == s@.len(),
            i <= n,
            forall|j: int| 0 <= j < i ==> s@[j] != sep,
        decreases n - i,
    {
        if s.get_char(i) == sep {
            return Some(i);
        }
        i = i + 1;
    }
    None
}

} // verus!
