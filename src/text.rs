use itertools::Itertools;
use vstd::prelude::*;

verus! {

/// Relies on `Itertools::collect_vec` over `str::chars`: the characters of
/// `s`, in order.
#[verifier::external_body]
pub(crate) fn chars_of(s: &str) -> (r: Vec<char>)
    ensures
        r@ == s@,
{
    s.chars().collect_vec()
}

/// Relies on `Itertools::join` with an empty separator: the characters of
/// `v` written one after the other.
#[verifier::external_body]
pub(crate) fn string_of(v: &Vec<char>) -> (r: String)
    ensures
        r@ == v@,
{
    v.iter().join("")
}

} // verus!
