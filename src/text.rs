use vstd::prelude::*;

verus! {

/// The decimal digit `d`, for `0 <= d < 10`.
pub open spec fn digit_char(d: int) -> char {
    seq!['0', '1', '2', '3', '4', '5', '6', '7', '8', '9'][d]
}

/// The decimal digits of `n`, most significant first, without leading zeros.
pub open spec fn digits(n: nat) -> Seq<char>
    decreases n,
{
    if n < 10 {
        seq![digit_char(n as int)]
    } else {
        digits(n / 10).push(digit_char((n % 10) as int))
    }
}

/// The decimal representation of `v`, with a leading `-` when negative.
pub open spec fn decimal(v: int) -> Seq<char> {
    if v < 0 {
        seq!['-'] + digits((-v) as nat)
    } else {
        digits(v as nat)
    }
}

/// A UTF-16 code unit that is a character on its own.
pub open spec fn is_scalar_unit(u: u16) -> bool {
    u < 0xD800 || u > 0xDFFF
}

/// Relies on `ToString` for `i64`: it writes the decimal representation.
#[verifier::external_body]
pub(crate) fn decimal_string(v: i64) -> (r: String)
    ensures
        r@ == decimal(v as int),
{
    v.to_string()
}

/// Relies on `char::from_u32`: the character with that code, none for a surrogate.
#[verifier::external_body]
pub(crate) fn char_from_unit(u: u16) -> (r: Option<char>)
    ensures
        r == if is_scalar_unit(u) {
            Some(u as char)
        } else {
            None::<char>
        },
{
    char::from_u32(u as u32)
}

/// Relies on `String::push`: it appends the character.
#[verifier::external_body]
pub(crate) fn push_char(s: &mut String, c: char)
    ensures
        final(s)@ == old(s)@.push(c),
{
    s.push(c)
}

} // verus!
