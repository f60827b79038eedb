//! Exact rational multipliers used for every percentage computation.
//!
//! A `FeeFraction` is a pair `(numerator, denominator)` standing for a
//! multiplier in `[0, 1]`; it is applied to balances with exact integer
//! arithmetic (`floor(numerator * value / denominator)`), never floating
//! point, so fee computations cannot drift.
use vstd::prelude::*;

use crate::errors::MarketError;

verus! {

/// A rational multiplier `numerator / denominator` in `[0, 1]`.
#[derive(Clone, Copy, PartialEq, Eq, Structural, Debug)]
pub struct FeeFraction {
    pub numerator: u32,
    pub denominator: u32,
}

impl FeeFraction {
    /// A fraction is valid when its denominator is positive and it does not
    /// exceed one.
    pub open spec fn valid(self) -> bool {
        self.denominator > 0 && self.numerator <= self.denominator
    }

    /// `floor(numerator * value / denominator)`, the exact product of a
    /// balance with this fraction.
    pub open spec fn mul_spec(self, value: u128) -> int
        recommends
            self.valid(),
    {
        (self.numerator * value) / (self.denominator as int)
    }

    /// Applies the fraction to `value` with exact integer arithmetic.
    pub fn multiply(&self, value: u128) -> (r: u128)
        requires
            self.valid(),
        ensures
            r == self.mul_spec(value),
            r <= value,
    {
        let n = self.numerator as u128;
        let d = self.denominator as u128;
        let q = value / d;
        let rem = value % d;
        proof {
            lemma_fraction_parts(self.numerator as int, self.denominator as int, value as int);
        }
        n * q + (n * rem) / d
    }

    /// Checks the fraction's invariants: a positive denominator and a value
    /// of at most one.
    pub fn assert_valid(&self) -> (r: Result<(), MarketError>)
        ensures
            r is Ok <==> self.valid(),
            r is Err ==> r == Err::<(), MarketError>(MarketError::ConfigurationInvalid),
    {
        if self.denominator == 0 {
            Err(MarketError::ConfigurationInvalid)
        } else if self.numerator > self.denominator {
            Err(MarketError::ConfigurationInvalid)
        } else {
            Ok(())
        }
    }
}

/// A valid fraction never yields more than the multiplied value.
pub proof fn lemma_mul_spec_le(f: FeeFraction, value: u128) by (nonlinear_arith)
    requires
        f.valid(),
    ensures
        0 <= f.mul_spec(value) <= value,
{
    let n = f.numerator as int;
    let d = f.denominator as int;
    let v = value as int;
    assert(n * v <= d * v);
    assert((n * v) / d <= (d * v) / d);
    assert((d * v) / d == v);
}

/// Whether the three fractions of the split sum to at most one, compared
/// exactly by cross-multiplication.
pub open spec fn fractions_fit(a: FeeFraction, b: FeeFraction, c: FeeFraction) -> bool {
    a.numerator * b.denominator * c.denominator + b.numerator * a.denominator * c.denominator
        + c.numerator * a.denominator * b.denominator <= a.denominator * b.denominator
        * c.denominator
}

/// Checks that the seller and referral fractions together never claim more
/// than the whole price increase, so the treasury share can always be paid.
pub fn assert_fees_overflow(
    seller: &FeeFraction,
    referral_1: &FeeFraction,
    referral_2: &FeeFraction,
) -> (r: Result<(), MarketError>)
    requires
        seller.valid(),
        referral_1.valid(),
        referral_2.valid(),
    ensures
        r is Ok <==> fractions_fit(*seller, *referral_1, *referral_2),
        r is Err ==> r == Err::<(), MarketError>(MarketError::ConfigurationInvalid),
{
    let ad = seller.denominator as u128;
    let bd = referral_1.denominator as u128;
    let cd = referral_2.denominator as u128;
    let an = seller.numerator as u128;
    let bn = referral_1.numerator as u128;
    let cn = referral_2.numerator as u128;
    proof {
        lemma_triple_products(an as int, ad as int, bn as int, bd as int, cn as int, cd as int);
    }
    if an * bd * cd + bn * ad * cd + cn * ad * bd <= ad * bd * cd {
        Ok(())
    } else {
        Err(MarketError::ConfigurationInvalid)
    }
}

/// Bounds that keep the cross-multiplied comparison of three fractions
/// inside `u128`.
proof fn lemma_triple_products(an: int, ad: int, bn: int, bd: int, cn: int, cd: int) by (
    nonlinear_arith
)
    requires
        0 < ad < 0x1_0000_0000,
        0 < bd < 0x1_0000_0000,
        0 < cd < 0x1_0000_0000,
        0 <= an <= ad,
        0 <= bn <= bd,
        0 <= cn <= cd,
    ensures
        0 <= an * bd <= ad * bd < 0x1_0000_0000_0000_0000,
        0 <= an * bd * cd <= ad * bd * cd,
        0 <= bn * ad <= ad * bd,
        0 <= bn * ad * cd <= ad * bd * cd,
        0 <= cn * ad <= ad * cd < 0x1_0000_0000_0000_0000,
        0 <= cn * ad * bd <= ad * bd * cd,
        ad * bd * cd < 0x1_0000_0000_0000_0000_0000_0000,
        an * bd * cd + bn * ad * cd + cn * ad * bd <= 3 * (ad * bd * cd),
{
}

/// `floor(n*v/d) == n*(v/d) + (n*(v%d))/d`, with the bounds that let the
/// computation stay inside `u128` when `n <= d`.
proof fn lemma_fraction_parts(n: int, d: int, v: int) by (nonlinear_arith)
    requires
        0 < d < 0x1_0000_0000,
        0 <= n <= d,
        0 <= v,
    ensures
        (n * v) / d == n * (v / d) + (n * (v % d)) / d,
        n * (v / d) + (n * (v % d)) / d <= v,
        0 <= n * (v % d) < 0x1_0000_0000_0000_0000,
        0 <= n * (v / d) <= v,
{
    let q = v / d;
    let rem = v % d;
    assert(v == d * q + rem);
    assert(n * v == d * (n * q) + n * rem);
    assert((n * v) / d == n * q + (n * rem) / d);
    assert(n * v <= d * v);
    assert((n * v) / d <= (d * v) / d);
    assert((d * v) / d == v);
    assert(n * q <= d * q);
    assert(d * q <= v);
    assert(n * rem <= d * d);
}

} // verus!
