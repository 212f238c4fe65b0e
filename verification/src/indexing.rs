//! Quotient and remainder facts used to bound flattened array indices.

use vstd::prelude::*;

verus! {

/// Quotient and remainder bounds of a non-negative `x` divided by a positive `d`.
pub proof fn lemma_split(x: int, d: int)
    requires
        0 <= x,
        0 < d,
    ensures
        x == d * (x / d) + x % d,
        0 <= x % d < d,
        0 <= x / d,
{
    vstd::arithmetic::div_mod::lemma_fundamental_div_mod(x, d);
    vstd::arithmetic::div_mod::lemma_mod_pos_bound(x, d);
    vstd::arithmetic::div_mod::lemma_div_pos_is_pos(x, d);
}

/// A non-negative `x` below `n * d` has a quotient by `d` below `n`.
pub proof fn lemma_quotient_below(x: int, d: int, n: int)
    requires
        0 <= x < n * d,
        0 < d,
    ensures
        x / d < n,
{
    lemma_split(x, d);
    let q = x / d;
    let r = x % d;
    assert(q < n) by (nonlinear_arith)
        requires
            x == d * q + r,
            0 <= r < d,
            0 <= x < n * d,
            0 < d,
    ;
}

} // verus!
