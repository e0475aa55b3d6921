use vstd::prelude::*;
use vstd::string::StrSliceExecFns;
use vstd::utf8::encode_utf8;

verus! {

/// The number of bytes that the first `char_idx` characters of `chars` take
/// in UTF-8, or that all of them take where there are fewer.
pub open spec fn byte_offset(chars: Seq<char>, char_idx: nat) -> nat {
    if char_idx <= chars.len() {
        encode_utf8(chars.take(char_idx as int)).len()
    } else {
        encode_utf8(chars).len()
    }
}

/// Turns a character index into the byte offset at which that character
/// starts. An index at or past the end gives the length of `s` in bytes.
pub fn char_to_byte_idx(s: &str, char_idx: usize) -> (idx: usize)
    ensures
        idx == byte_offset(s@, char_idx as nat),
{
    let count = s.unicode_len();
    let upto = if char_idx <= count {
        char_idx
    } else {
        count
    };
    proof {
        assert(s@.take(count as int) =~= s@);
    }
    s.substring_char(0, upto).as_bytes().len()
}

/// Number of characters of `s`.
pub fn line_len_chars(s: &str) -> (len: usize)
    ensures
        len == s@.len(),
{
    s.unicode_len()
}

/// The characters of `s`, one element each.
pub fn chars_of(s: &str) -> (chars: Vec<char>)
    ensures
        chars@ == s@,
{
    broadcast use vstd::string::group_string_axioms;

    let mut chars: Vec<char> = Vec::new();
    let source = s.chars();
    for c in it: source
        invariant
            it.seq() == s@,
            chars@ == it.seq().take(it.index()),
    {
        chars.push(c);
    }
    chars
}

/// The character that stands for a digit from 0 to 9.
pub open spec fn digit_char(d: nat) -> char {
    if d == 0 {
        '0'
    } else if d == 1 {
        '1'
    } else if d == 2 {
        '2'
    } else if d == 3 {
        '3'
    } else if d == 4 {
        '4'
    } else if d == 5 {
        '5'
    } else if d == 6 {
        '6'
    } else if d == 7 {
        '7'
    } else if d == 8 {
        '8'
    } else {
        '9'
    }
}

/// `n` written in decimal digits, without leading zeros.
pub open spec fn decimal(n: nat) -> Seq<char>
    decreases n,
{
    if n < 10 {
        seq![digit_char(n)]
    } else {
        decimal(n / 10).push(digit_char(n % 10))
    }
}

fn digit(d: usize) -> (c: char)
    requires
        d < 10,
    ensures
        c == digit_char(d as nat),
{
    if d == 0 {
        '0'
    } else if d == 1 {
        '1'
    } else if d == 2 {
        '2'
    } else if d == 3 {
        '3'
    } else if d == 4 {
        '4'
    } else if d == 5 {
        '5'
    } else if d == 6 {
        '6'
    } else if d == 7 {
        '7'
    } else if d == 8 {
        '8'
    } else {
        '9'
    }
}

/// Writes `n` in decimal digits behind what `s` holds.
pub fn push_decimal(s: &mut String, n: usize)
    ensures
        final(s)@ == old(s)@ + decimal(n as nat),
    decreases n,
{
    if n >= 10 {
        push_decimal(s, n / 10);
    }
    push_char(s, digit(n % 10));
    assert(s@ =~= old(s)@ + decimal(n as nat));
}

/// `String::push` of std, which puts one character at the end of the string
/// and leaves what was there before untouched.
#[verifier::external_body]
pub(crate) fn push_char(s: &mut String, c: char)
    ensures
        final(s)@ == old(s)@.push(c),
{
    s.push(c);
}

} // verus!
