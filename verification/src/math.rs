//! Integer vectors and the arithmetic of tiling.

use vstd::prelude::*;

verus! {

/// A pair of unsigned pixel counts: a width `x` and a height `y`.
#[derive(Clone, Copy, Debug, PartialEq, Eq, Structural)]
pub struct UVec2 {
    pub x: u32,
    pub y: u32,
}

impl UVec2 {
    pub fn new(x: u32, y: u32) -> (v: UVec2)
        ensures
            v == (UVec2 { x, y }),
    {
        UVec2 { x, y }
    }

    /// Whether both extents are positive, so that the rectangle holds a pixel.
    pub open spec fn has_area(self) -> bool {
        self.x > 0 && self.y > 0
    }
}

/// `n / d` rounded up: the number of tiles of `d` units that it takes to lay
/// out `n` units. Meaningful for `d > 0`.
pub open spec fn ceil_div(n: nat, d: nat) -> nat {
    ((n + d - 1) / (d as int)) as nat
}

/// Whether `k` tiles of `d` units reach over `n` units.
pub open spec fn covers(k: nat, d: nat, n: nat) -> bool {
    k * d >= n
}

/// `ceil_div(n, d)` tiles cover `n` units, and one tile fewer would not.
pub proof fn lemma_ceil_div_bounds(n: nat, d: nat)
    requires
        d > 0,
    ensures
        covers(ceil_div(n, d), d, n),
        n > 0 ==> ceil_div(n, d) >= 1 && (ceil_div(n, d) - 1) * d < n,
        n == 0 ==> ceil_div(n, d) == 0,
        ceil_div(n, d) == n / d + (if n % d == 0 { 0nat } else { 1nat }),
{
    let q = (n / d) as int;
    let r = (n % d) as int;
    let di = d as int;
    assert(n == q * di + r && 0 <= r < di) by {
        vstd::arithmetic::div_mod::lemma_fundamental_div_mod(n as int, di);
        vstd::arithmetic::div_mod::lemma_mod_bound(n as int, di);
        vstd::arithmetic::mul::lemma_mul_is_commutative(q, di);
    }
    let m = n + di - 1;
    let c = m / di;
    if r == 0 {
        assert(m == q * di + (di - 1));
        vstd::arithmetic::div_mod::lemma_fundamental_div_mod_converse(m, di, q, di - 1);
        assert(c == q);
    } else {
        assert(m == (q + 1) * di + (r - 1)) by (nonlinear_arith)
            requires
                m == n + di - 1,
                n == q * di + r,
        ;
        vstd::arithmetic::div_mod::lemma_fundamental_div_mod_converse(m, di, q + 1, r - 1);
        assert(c == q + 1);
    }
    let k = ceil_div(n, d);
    assert(k == c);
    assert(k * d >= n) by (nonlinear_arith)
        requires
            n == q * d + r,
            0 <= r < d,
            (r == 0 && k == q) || (r != 0 && k == q + 1),
    ;
    if n > 0 {
        assert(k >= 1 && (k - 1) * d < n) by (nonlinear_arith)
            requires
                n > 0,
                d > 0,
                n == q * d + r,
                0 <= r < d,
                q >= 0,
                (r == 0 && k == q) || (r != 0 && k == q + 1),
        ;
    }
}

/// No smaller number of tiles than `ceil_div(n, d)` covers `n` units.
pub proof fn lemma_ceil_div_least(n: nat, d: nat, k: nat)
    requires
        d > 0,
        covers(k, d, n),
    ensures
        k >= ceil_div(n, d),
{
    lemma_ceil_div_bounds(n, d);
    let c = ceil_div(n, d);
    if k < c {
        assert(k * d <= (c - 1) * d) by (nonlinear_arith)
            requires
                k <= c - 1,
                d > 0,
        ;
    }
}

} // verus!
