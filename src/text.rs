use vstd::prelude::*;

verus! {

/// The character of a decimal digit `d < 10`.
pub open spec fn digit_char(d: nat) -> char {
    seq!['0', '1', '2', '3', '4', '5', '6', '7', '8', '9'][d as int]
}

/// The decimal digits of `n`, most significant first, without leading zeros.
pub open spec fn digits(n: nat) -> Seq<char>
    decreases n,
{
    if n < 10 {
        seq![digit_char(n)]
    } else {
        digits(n / 10).push(digit_char(n % 10))
    }
}

/// The decimal text of `v`: its digits, after a `-` when it is negative.
pub open spec fn decimal_text(v: int) -> Seq<char> {
    if v < 0 {
        seq!['-'] + digits((-v) as nat)
    } else {
        digits(v as nat)
    }
}

/// The items of `s` in decimal, separated by a comma and a space.
pub open spec fn joined(s: Seq<isize>) -> Seq<char>
    decreases s.len(),
{
    if s.len() == 0 {
        Seq::empty()
    } else if s.len() == 1 {
        decimal_text(s[0] as int)
    } else {
        joined(s.drop_last()) + seq![',', ' '] + decimal_text(s.last() as int)
    }
}

/// The items of `s` as a bracketed list: `[1, 2, 3]`, or `[]` when empty.
pub open spec fn list_text(s: Seq<isize>) -> Seq<char> {
    seq!['['] + joined(s) + seq![']']
}

/// Relies on `ToString::to_string` for `isize`, which goes through its
/// `Display`: the decimal digits, with a leading `-` for a negative value.
#[verifier::external_body]
pub(crate) fn decimal(v: isize) -> (r: String)
    ensures
        r@ == decimal_text(v as int),
{
    v.to_string()
}

/// Relies on `String::push_str`: the characters of `t` are appended to `s`.
#[verifier::external_body]
pub(crate) fn append(s: &mut String, t: &str)
    ensures
        final(s)@ == old(s)@ + t@,
{
    s.push_str(t)
}

} // verus!
