use vstd::prelude::*;

verus! {

/// Whether an integer is exactly zero.
pub fn is_i32_zero(v: i32) -> (r: bool)
    ensures
        r == (v == 0),
{
    v == 0
}

/// A fraction of integers is well formed when its denominator is not zero;
/// the numerator plays no part.
pub fn is_valid_frac_i32(_numerator: i32, denominator: i32) -> (r: bool)
    ensures
        r == (denominator != 0),
{
    !is_i32_zero(denominator)
}

/// A real root exists for a radicand that is not negative.
pub fn is_valid_root_i32(radicand: i32) -> (r: bool)
    ensures
        r == (radicand >= 0),
{
    radicand >= 0
}

} // verus!
