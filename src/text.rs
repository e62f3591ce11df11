use vstd::prelude::*;

verus! {

/// `s` with every occurrence of the non-empty pattern `from`, taken left to
/// right without overlaps, replaced by `to`.
pub open spec fn spec_replaced(s: Seq<char>, from: Seq<char>, to: Seq<char>) -> Seq<char>
    decreases s.len(),
{
    if from.len() == 0 || s.len() < from.len() {
        s
    } else if s.take(from.len() as int) == from {
        to + spec_replaced(s.skip(from.len() as int), from, to)
    } else {
        seq![s[0]] + spec_replaced(s.skip(1), from, to)
    }
}

/// The part of `s` before the first occurrence of `pat` (all of `s` if none).
pub open spec fn spec_prefix_before(s: Seq<char>, pat: Seq<char>) -> Seq<char>
    decreases s.len(),
{
    if s.len() == 0 || s.len() < pat.len() {
        s
    } else if s.take(pat.len() as int) == pat {
        Seq::empty()
    } else {
        seq![s[0]] + spec_prefix_before(s.skip(1), pat)
    }
}

pub open spec fn spec_digit(d: nat) -> char {
    if d == 0 { '0' } else if d == 1 { '1' } else if d == 2 { '2' } else if d == 3 { '3' }
    else if d == 4 { '4' } else if d == 5 { '5' } else if d == 6 { '6' } else if d == 7 { '7' }
    else if d == 8 { '8' } else { '9' }
}

/// Decimal digits of `n`, without leading zeros.
pub open spec fn spec_decimal(n: nat) -> Seq<char>
    decreases n,
{
    if n < 10 {
        seq![spec_digit(n)]
    } else {
        spec_decimal(n / 10).push(spec_digit(n % 10))
    }
}

/// Relies on `str::replace`: all non-overlapping matches, left to right, are replaced.
#[verifier::external_body]
pub(crate) fn replace_all(s: &str, from: &str, to: &str) -> (r: String)
    requires
        from@.len() > 0,
    ensures
        r@ == spec_replaced(s@, from@, to@),
{
    s.replace(from, to)
}

/// Relies on `str::split`: its first piece is the text before the first match.
#[verifier::external_body]
pub(crate) fn prefix_before(s: &str, pat: &str) -> (r: String)
    ensures
        r@ == spec_prefix_before(s@, pat@),
{
    s.split(pat).next().unwrap_or_default().to_string()
}

/// Relies on `u64`'s `to_string`: its decimal digits.
#[verifier::external_body]
pub(crate) fn decimal(n: u64) -> (r: String)
    ensures
        r@ == spec_decimal(n as nat),
{
    n.to_string()
}

} // verus!
