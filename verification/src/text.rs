//! Small string helpers shared by the modules that speak to JavaScript.
use vstd::prelude::*;

verus! {

/// Whether two strings hold the same characters.
pub fn str_eq(a: &str, b: &str) -> (r: bool)
    ensures
        r == (a@ == b@),
{
    let x: String = a.to_owned();
    let y: String = b.to_owned();
    x == y
}

/// An owned copy of a string slice.
pub fn owned(s: &str) -> (r: String)
    ensures
        r@ == s@,
{
    s.to_owned()
}

/// `String::push`: appends one character.
#[verifier::external_body]
pub fn push_char(s: &mut String, c: char)
    ensures
        final(s)@ == old(s)@.push(c),
{
    s.push(c);
}

/// The decimal digit character for a value below ten.
pub open spec fn digit_char(d: nat) -> char {
    if d == 0 { '0' }
    else if d == 1 { '1' }
    else if d == 2 { '2' }
    else if d == 3 { '3' }
    else if d == 4 { '4' }
    else if d == 5 { '5' }
    else if d == 6 { '6' }
    else if d == 7 { '7' }
    else if d == 8 { '8' }
    else { '9' }
}

/// The decimal representation of a natural number, without leading zeros.
pub open spec fn decimal(n: nat) -> Seq<char>
    decreases n,
{
    if n < 10 {
        seq![digit_char(n)]
    } else {
        decimal(n / 10).push(digit_char(n % 10))
    }
}

fn digit(d: u8) -> (c: char)
    requires
        d < 10,
    ensures
        c == digit_char(d as nat),
{
    if d == 0 { '0' }
    else if d == 1 { '1' }
    else if d == 2 { '2' }
    else if d == 3 { '3' }
    else if d == 4 { '4' }
    else if d == 5 { '5' }
    else if d == 6 { '6' }
    else if d == 7 { '7' }
    else if d == 8 { '8' }
    else { '9' }
}

/// Appends the decimal representation of `n` to `s`.
pub fn push_decimal(s: &mut String, n: u8)
    ensures
        final(s)@ == old(s)@ + decimal(n as nat),
{
    if n >= 100 {
        push_char(s, digit(n / 100));
        push_char(s, digit((n / 10) % 10));
        push_char(s, digit(n % 10));
        assert(decimal(n as nat) == seq![digit_char((n / 100) as nat), digit_char(((n / 10) % 10) as nat), digit_char((n % 10) as nat)]) by {
            assert((n / 10) / 10 == n / 100);
            assert(decimal((n / 100) as nat) == seq![digit_char((n / 100) as nat)]);
            assert(decimal((n / 10) as nat) == decimal((n / 100) as nat).push(digit_char(((n / 10) % 10) as nat)));
            assert(decimal(n as nat) =~= seq![digit_char((n / 100) as nat), digit_char(((n / 10) % 10) as nat), digit_char((n % 10) as nat)]);
        }
    } else if n >= 10 {
        push_char(s, digit(n / 10));
        push_char(s, digit(n % 10));
        assert(decimal((n / 10) as nat) == seq![digit_char((n / 10) as nat)]);
        assert(decimal(n as nat) =~= seq![digit_char((n / 10) as nat), digit_char((n % 10) as nat)]);
    } else {
        push_char(s, digit(n));
    }
    assert(final(s)@ =~= old(s)@ + decimal(n as nat));
}

} // verus!
