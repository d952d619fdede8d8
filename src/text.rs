use vstd::prelude::*;

verus! {

/// The character of the decimal digit `d`.
pub open spec fn digit_char(d: nat) -> char {
    seq!['0', '1', '2', '3', '4', '5', '6', '7', '8', '9'][d as int]
}

/// The decimal digits of `n`, without leading zeros.
pub open spec fn decimal(n: nat) -> Seq<char>
    decreases n,
{
    if n < 10 {
        seq![digit_char(n)]
    } else {
        decimal(n / 10).push(digit_char(n % 10))
    }
}

/// `n` in decimal, with a leading `-` where it is negative.
pub open spec fn signed_decimal(n: int) -> Seq<char> {
    if n < 0 {
        seq!['-'] + decimal((-n) as nat)
    } else {
        decimal(n as nat)
    }
}

/// Relies on `u64`'s `Display` (through `to_string`): plain decimal digits.
#[verifier::external_body]
pub(crate) fn u64_text(n: u64) -> (r: String)
    ensures
        r@ == decimal(n as nat),
{
    n.to_string()
}

/// Relies on `i64`'s `Display` (through `to_string`): decimal digits, with a
/// leading `-` for negative values.
#[verifier::external_body]
pub(crate) fn i64_text(n: i64) -> (r: String)
    ensures
        r@ == signed_decimal(n as int),
{
    n.to_string()
}

/// Relies on `String::push_str`: appends the characters of `s`.
#[verifier::external_body]
pub(crate) fn append(out: &mut String, s: &str)
    ensures
        final(out)@ == old(out)@ + s@,
{
    out.push_str(s);
}

} // verus!
