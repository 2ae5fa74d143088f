//! Small string helpers: decimal rendering of numbers, a substring
//! predicate, and trusted wrappers over `String`'s append operations.

use vstd::prelude::*;

verus! {

/// The decimal digit character for `d` (`0 <= d <= 9`).
pub open spec fn digit_char(d: nat) -> char {
    ((0x30 + d) as u8) as char
}

/// The usual decimal rendering of `n`, most significant digit first,
/// without leading zeros (`0` renders as "0").
pub open spec fn decimal_chars(n: nat) -> Seq<char>
    decreases n,
{
    if n < 10 {
        seq![digit_char(n)]
    } else {
        decimal_chars(n / 10).push(digit_char(n % 10))
    }
}

/// `sub` occurs contiguously somewhere in `s`.
pub open spec fn has_substring(s: Seq<char>, sub: Seq<char>) -> bool {
    exists|i: int| 0 <= i && i + sub.len() <= s.len() && #[trigger] s.subrange(i, i + sub.len())
        == sub
}

/// Relies on `String::push`: appends exactly the given character.
#[verifier::external_body]
pub fn string_push(s: &mut String, c: char)
    ensures
        final(s)@ == old(s)@.push(c),
{
    s.push(c);
}

/// Relies on `String::push_str`: appends exactly the characters of `t`.
#[verifier::external_body]
pub fn string_push_str(s: &mut String, t: &str)
    ensures
        final(s)@ == old(s)@ + t@,
{
    s.push_str(t);
}

/// Appends the decimal rendering of `n` to `s`.
pub fn push_decimal(s: &mut String, n: u16)
    ensures
        final(s)@ == old(s)@ + decimal_chars(n as nat),
    decreases n,
{
    if n < 10 {
        string_push(s, ((0x30 + n) as u8) as char);
        assert(s@ =~= old(s)@ + decimal_chars(n as nat));
    } else {
        push_decimal(s, n / 10);
        string_push(s, ((0x30 + n % 10) as u8) as char);
        assert(s@ =~= old(s)@ + decimal_chars(n as nat));
    }
}

/// The characters of `u`, each byte read as the character with that code.
pub open spec fn chars_of(u: Seq<u8>) -> Seq<char> {
    u.map_values(|b: u8| b as char)
}

/// Builds the string whose characters are the bytes of `u`, read as
/// character codes.
pub fn bytes_to_string(u: &Vec<u8>) -> (r: String)
    ensures
        r@ == chars_of(u@),
{
    let mut s = String::new();
    let mut k: usize = 0;
    while k < u.len()
        invariant
            k <= u.len(),
            s@ == chars_of(u@.subrange(0, k as int)),
        decreases u.len() - k,
    {
        string_push(&mut s, u[k] as char);
        assert(u@.subrange(0, k as int).push(u@[k as int]) =~= u@.subrange(0, k + 1int));
        assert(s@ =~= chars_of(u@.subrange(0, k + 1int)));
        k = k + 1;
    }
    assert(u@.subrange(0, u@.len() as int) =~= u@);
    s
}

} // verus!
