//! Strings as sequences of characters: decimal numerals and the one
//! operation on `String` that the standard specifications lack.

use vstd::prelude::*;

verus! {

/// The character of one decimal digit.
pub open spec fn digit(d: int) -> char {
    (48 + d) as char
}

/// The decimal numeral of `n`, without leading zeros.
pub open spec fn decimal(n: nat) -> Seq<char>
    decreases n,
{
    if n < 10 {
        seq![digit(n as int)]
    } else {
        decimal(n / 10).push(digit((n % 10) as int))
    }
}

/// The character with the code point `b`: a byte read as one character.
pub open spec fn byte_char(b: int) -> char {
    b as char
}

/// `String::push` of the standard library: the character is added at the
/// end of the string, and nothing else changes.
#[verifier::external_body]
pub(crate) fn push_char(s: &mut String, c: char)
    ensures
        final(s)@ == old(s)@.push(c),
{
    s.push(c)
}

/// Writes `n` as a decimal numeral.
pub fn decimal_string(n: u8) -> (s: String)
    ensures
        s@ == decimal(n as nat),
{
    let mut s = String::new();
    if n >= 100 {
        push_char(&mut s, (48 + n / 100) as char);
    }
    if n >= 10 {
        push_char(&mut s, (48 + (n / 10) % 10) as char);
    }
    push_char(&mut s, (48 + n % 10) as char);
    proof {
        reveal_with_fuel(decimal, 3);
        assert(s@ =~= decimal(n as nat));
    }
    s
}

} // verus!
