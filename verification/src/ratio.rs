//! Exact price values.
//!
//! A derived price is a positive rational number.  It is kept in the form
//! it was derived in — a quotient of two reserves, a squared Q64.96
//! square-root price, or a product of two other prices — together with a
//! power-of-ten decimals correction.  The numerator and denominator the
//! value denotes are unbounded mathematical integers, so no derivation
//! step rounds, overflows, or divides by zero.

use vstd::prelude::*;
use crate::decimal::pow10;
use vstd::arithmetic::power2::pow2;

verus! {

/// The factor a decimals correction `10^e` contributes to a numerator.
pub open spec fn exp10_num_factor(e: int) -> nat {
    if e >= 0 {
        pow10(e as nat)
    } else {
        1
    }
}

/// The factor a decimals correction `10^e` contributes to a denominator.
pub open spec fn exp10_den_factor(e: int) -> nat {
    if e >= 0 {
        1
    } else {
        pow10((-e) as nat)
    }
}

/// An exactly represented price: "one unit of the base token is worth
/// this many units of the quote token".
#[derive(Debug, PartialEq)]
pub enum PriceRatio {
    /// `num / den * 10^exp10`, from a pair's reserves.
    Scaled { num: u128, den: u128, exp10: i32 },
    /// `(sqrt_price_x96^2 / 2^192)^(+-1) * 10^exp10`, from a V3 pool's
    /// slot0 value; `inverted` selects the reciprocal.
    SqrtScaled { sqrt_price_x96: u128, inverted: bool, exp10: i32 },
    /// The product of two prices (a price routed through a middle token).
    Product { left: Box<PriceRatio>, right: Box<PriceRatio> },
}

impl PriceRatio {
    /// The exact numerator of the denoted rational.
    pub open spec fn num(self) -> nat
        decreases self,
    {
        match self {
            PriceRatio::Scaled { num, den, exp10 } => (num as nat) * exp10_num_factor(exp10 as int),
            PriceRatio::SqrtScaled { sqrt_price_x96, inverted, exp10 } => (
            if inverted {
                pow2(192)
            } else {
                (sqrt_price_x96 * sqrt_price_x96) as nat
            }) * exp10_num_factor(exp10 as int),
            PriceRatio::Product { left, right } => left.num() * right.num(),
        }
    }

    /// The exact denominator of the denoted rational.
    pub open spec fn den(self) -> nat
        decreases self,
    {
        match self {
            PriceRatio::Scaled { num, den, exp10 } => (den as nat) * exp10_den_factor(exp10 as int),
            PriceRatio::SqrtScaled { sqrt_price_x96, inverted, exp10 } => (
            if inverted {
                (sqrt_price_x96 * sqrt_price_x96) as nat
            } else {
                pow2(192)
            }) * exp10_den_factor(exp10 as int),
            PriceRatio::Product { left, right } => left.den() * right.den(),
        }
    }

    /// Well-formedness: the denoted denominator is never zero, so the
    /// price is a genuine rational and can never be an infinity.
    pub open spec fn wf(self) -> bool
        decreases self,
    {
        match self {
            PriceRatio::Scaled { num, den, exp10 } => den > 0,
            PriceRatio::SqrtScaled { sqrt_price_x96, inverted, exp10 } => inverted
                ==> sqrt_price_x96 > 0,
            PriceRatio::Product { left, right } => left.wf() && right.wf(),
        }
    }

    /// Whether the denoted rational is exactly one.
    pub open spec fn is_one(self) -> bool {
        self.num() == self.den()
    }

    /// The price one, used for a stablecoin quoted against itself.
    pub fn one() -> (r: PriceRatio)
        ensures
            r.wf(),
            r.is_one(),
            r.num() == 1,
            r.den() == 1,
            r == (PriceRatio::Scaled { num: 1u128, den: 1u128, exp10: 0i32 }),
    {
        let r = PriceRatio::Scaled { num: 1, den: 1, exp10: 0 };
        proof {
            assert(r.num() == 1 * exp10_num_factor(0));
            assert(r.den() == 1 * exp10_den_factor(0));
        }
        r
    }

    /// The exact product of two prices.
    pub fn times(self, other: PriceRatio) -> (r: PriceRatio)
        ensures
            r.num() == self.num() * other.num(),
            r.den() == self.den() * other.den(),
            self.wf() && other.wf() ==> r.wf(),
    {
        PriceRatio::Product { left: Box::new(self), right: Box::new(other) }
    }

    /// A structurally equal copy, with the equality carried in the
    /// contract (a derived `Clone` would say nothing).
    pub fn duplicate(&self) -> (r: PriceRatio)
        ensures
            r == *self,
        decreases *self,
    {
        match self {
            PriceRatio::Scaled { num, den, exp10 } => PriceRatio::Scaled {
                num: *num,
                den: *den,
                exp10: *exp10,
            },
            PriceRatio::SqrtScaled { sqrt_price_x96, inverted, exp10 } => PriceRatio::SqrtScaled {
                sqrt_price_x96: *sqrt_price_x96,
                inverted: *inverted,
                exp10: *exp10,
            },
            PriceRatio::Product { left, right } => PriceRatio::Product {
                left: Box::new(left.duplicate()),
                right: Box::new(right.duplicate()),
            },
        }
    }
}

/// The price a V2 pair's reserves denote: one unit of the base token (with
/// `reserve_base` and `dec_base`) is worth `reserve_quote / reserve_base *
/// 10^(dec_base - dec_quote)` units of the quote token.
pub open spec fn spec_v2_ratio(
    reserve_base: u128,
    dec_base: u8,
    reserve_quote: u128,
    dec_quote: u8,
) -> PriceRatio {
    PriceRatio::Scaled {
        num: reserve_quote,
        den: reserve_base,
        exp10: (dec_base - dec_quote) as i32,
    }
}

/// The price a V3 pool's slot0 value denotes for the base token:
/// `(sqrt_price_x96^2 / 2^192)^(+-1) * 10^(dec_quote - dec_base)`, where the
/// ratio is taken as-is when the base token is the pool's token0 and
/// inverted otherwise.
pub open spec fn spec_v3_ratio(
    sqrt_price_x96: u128,
    inverted: bool,
    dec_base: u8,
    dec_quote: u8,
) -> PriceRatio {
    PriceRatio::SqrtScaled { sqrt_price_x96, inverted, exp10: (dec_quote - dec_base) as i32 }
}

/// Anti-symmetry of the V2 price under swapping the two tokens: with both
/// reserves non-zero, the price of A in B times the price of B in A is
/// exactly one (as rationals: the cross products agree).
pub proof fn lemma_v2_price_antisymmetric(
    reserve_a: u128,
    dec_a: u8,
    reserve_b: u128,
    dec_b: u8,
)
    requires
        reserve_a > 0,
        reserve_b > 0,
    ensures
        ({
            let p = spec_v2_ratio(reserve_a, dec_a, reserve_b, dec_b);
            let q = spec_v2_ratio(reserve_b, dec_b, reserve_a, dec_a);
            p.num() * q.num() == p.den() * q.den()
        }),
{
    let e = dec_a as int - dec_b as int;
    let p = spec_v2_ratio(reserve_a, dec_a, reserve_b, dec_b);
    let q = spec_v2_ratio(reserve_b, dec_b, reserve_a, dec_a);
    assert(p.num() == (reserve_b as nat) * exp10_num_factor(e));
    assert(p.den() == (reserve_a as nat) * exp10_den_factor(e));
    assert(q.num() == (reserve_a as nat) * exp10_num_factor(-e));
    assert(q.den() == (reserve_b as nat) * exp10_den_factor(-e));
    assert(exp10_num_factor(e) == exp10_den_factor(-e));
    assert(exp10_num_factor(-e) == exp10_den_factor(e));
    assert(p.num() * q.num() == p.den() * q.den()) by (nonlinear_arith)
        requires
            p.num() == (reserve_b as nat) * exp10_num_factor(e),
            p.den() == (reserve_a as nat) * exp10_den_factor(e),
            q.num() == (reserve_a as nat) * exp10_num_factor(-e),
            q.den() == (reserve_b as nat) * exp10_den_factor(-e),
            exp10_num_factor(e) == exp10_den_factor(-e),
            exp10_num_factor(-e) == exp10_den_factor(e),
    {}
}

/// A V3 pool whose square-root price encodes a one-to-one raw ratio
/// (`sqrt_price_x96 == 2^96`) between two tokens of equal decimals prices
/// the base token at exactly one, in either calling order.
pub proof fn lemma_v3_unit_ratio(inverted: bool, dec: u8)
    ensures
        spec_v3_ratio(0x1000000000000000000000000, inverted, dec, dec).is_one(),
{
    let s: u128 = 0x1000000000000000000000000;
    vstd::arithmetic::power2::lemma2_to64();
    vstd::arithmetic::power2::lemma2_to64_rest();
    vstd::arithmetic::power2::lemma_pow2_adds(64, 32);
    assert(s as nat == pow2(96));
    vstd::arithmetic::power2::lemma_pow2_adds(96, 96);
    assert((s * s) as nat == pow2(96) * pow2(96)) by (nonlinear_arith)
        requires
            s as nat == pow2(96),
    {}
    let r = spec_v3_ratio(s, inverted, dec, dec);
    assert(r.num() == (if inverted {
        pow2(192)
    } else {
        (s * s) as nat
    }) * exp10_num_factor(0));
    assert(r.den() == (if inverted {
        (s * s) as nat
    } else {
        pow2(192)
    }) * exp10_den_factor(0));
}

/// A well-formed price has a positive denominator: price derivation can
/// signal "undefined" but can never denote an infinity or a `NaN`.
pub proof fn lemma_wf_den_pos(p: PriceRatio)
    requires
        p.wf(),
    ensures
        p.den() > 0,
    decreases p,
{
    match p {
        PriceRatio::Scaled { num, den, exp10 } => {
            let e = exp10 as int;
            if e >= 0 {
            } else {
                crate::decimal::lemma_pow10_pos_mono((-e) as nat, (-e) as nat);
            }
            assert(den * exp10_den_factor(e) > 0) by (nonlinear_arith)
                requires
                    den > 0,
                    exp10_den_factor(e) > 0,
            {}
        },
        PriceRatio::SqrtScaled { sqrt_price_x96, inverted, exp10 } => {
            let e = exp10 as int;
            if e >= 0 {
            } else {
                crate::decimal::lemma_pow10_pos_mono((-e) as nat, (-e) as nat);
            }
            let base: nat = if inverted {
                (sqrt_price_x96 * sqrt_price_x96) as nat
            } else {
                pow2(192)
            };
            if inverted {
                assert(sqrt_price_x96 * sqrt_price_x96 > 0) by (nonlinear_arith)
                    requires
                        sqrt_price_x96 > 0,
                {}
            } else {
                vstd::arithmetic::power2::lemma_pow2_pos(192);
            }
            assert(base * exp10_den_factor(e) > 0) by (nonlinear_arith)
                requires
                    base > 0,
                    exp10_den_factor(e) > 0,
            {}
        },
        PriceRatio::Product { left, right } => {
            lemma_wf_den_pos(*left);
            lemma_wf_den_pos(*right);
            assert(left.den() * right.den() > 0) by (nonlinear_arith)
                requires
                    left.den() > 0,
                    right.den() > 0,
            {}
        },
    }
}

} // verus!
