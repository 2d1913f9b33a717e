//! Fixed-point decimal numbers as the order book reads them: a signed
//! mantissa and a scale (a power of ten), as `rust_decimal::Decimal` holds
//! them. The arithmetic itself is done by `rust_decimal`.

use rust_decimal::prelude::ToPrimitive;
use rust_decimal::{Decimal, RoundingStrategy};
use std::str::FromStr;
use vstd::prelude::*;

verus! {

/// The largest magnitude of a mantissa: 2^96 - 1.
pub open spec fn max_mantissa() -> int {
    0xFFFF_FFFF_FFFF_FFFF_FFFF_FFFFint
}

/// The largest scale a decimal can have.
pub open spec fn max_scale() -> nat {
    28
}

/// 10 to the power `n`.
pub open spec fn pow10(n: nat) -> int
    decreases n,
{
    if n == 0 {
        1
    } else {
        10 * pow10((n - 1) as nat)
    }
}

pub proof fn lemma_pow10_positive(n: nat)
    ensures
        pow10(n) >= 1,
    decreases n,
{
    if n > 0 {
        lemma_pow10_positive((n - 1) as nat);
    }
}

pub proof fn lemma_pow10_monotone(a: nat, b: nat)
    requires
        a <= b,
    ensures
        pow10(a) <= pow10(b),
    decreases b,
{
    if a < b {
        lemma_pow10_monotone(a, (b - 1) as nat);
        lemma_pow10_positive((b - 1) as nat);
    }
}

/// A decimal number `mantissa / 10^scale`.
#[derive(Clone, Copy, Debug, PartialEq, Eq)]
pub struct Dec {
    pub mantissa: i128,
    pub scale: u32,
}

impl Dec {
    /// The mantissa fits in 96 bits and the scale is at most 28, as in every
    /// `rust_decimal::Decimal`.
    pub open spec fn wf(self) -> bool {
        &&& -max_mantissa() <= self.mantissa <= max_mantissa()
        &&& self.scale <= max_scale()
    }

    /// The pair of plain values that stands for this decimal.
    pub open spec fn parts(self) -> (int, int) {
        (self.mantissa as int, self.scale as int)
    }

    /// The value is a whole number.
    pub open spec fn is_integral(self) -> bool {
        (self.mantissa as int) % pow10(self.scale as nat) == 0
    }
}

/// The decimals given by (mantissa, scale) pairs have the same value.
pub open spec fn parts_eq(a: (int, int), b: (int, int)) -> bool {
    a.0 * pow10(b.1 as nat) == b.0 * pow10(a.1 as nat)
}

/// The decimal given by the pair `a` has a smaller value than `b`.
pub open spec fn parts_lt(a: (int, int), b: (int, int)) -> bool {
    a.0 * pow10(b.1 as nat) < b.0 * pow10(a.1 as nat)
}

/// The decimal given by the pair is a whole number.
pub open spec fn parts_integral(a: (int, int)) -> bool {
    a.0 % pow10(a.1 as nat) == 0
}

/// The whole number that `Decimal::to_u128` gives for the pair: its whole
/// part, `None` for a negative value.
pub open spec fn parts_to_u128(a: (int, int)) -> Option<int> {
    if a.0 < 0 {
        None
    } else {
        Some(a.0 / pow10(a.1 as nat))
    }
}

/// The pair rounded half away from zero to a whole number and converted
/// with `Decimal::to_u128`.
pub open spec fn parts_round_u128(a: (int, int)) -> Option<int> {
    let r = round_half_away(a.0, a.1 as nat);
    if r < 0 { None } else { Some(r) }
}

/// `a` and `b` have the same value.
pub open spec fn value_eq(a: Dec, b: Dec) -> bool {
    parts_eq(a.parts(), b.parts())
}

/// The value of `a` is smaller than the value of `b`.
pub open spec fn value_lt(a: Dec, b: Dec) -> bool {
    parts_lt(a.parts(), b.parts())
}

/// The decimal for a whole number.
pub open spec fn dec_of(n: int) -> Dec {
    Dec { mantissa: n as i128, scale: 0 }
}

/// `|m| / 10^s` rounded to the nearest whole number, halves away from zero,
/// with the sign of `m`.
pub open spec fn round_half_away(m: int, s: nat) -> int {
    if s == 0 {
        m
    } else {
        let a = if m < 0 { -m } else { m };
        let q = a / pow10(s);
        let r = a % pow10(s);
        let q2 = if 2 * r >= pow10(s) { q + 1 } else { q };
        if m < 0 { -q2 } else { q2 }
    }
}

/// What `Decimal::from_str` gives back for a string: the mantissa and the
/// scale of the parsed decimal, or `None` where it refuses the string.
pub uninterp spec fn decimal_from_str(s: Seq<char>) -> Option<(int, int)>;

/// What `Decimal::checked_mul` gives back for two decimals, each given by
/// its mantissa and scale.
pub uninterp spec fn decimal_checked_mul(am: int, ascale: int, bm: int, bscale: int) -> Option<(int, int)>;

/// What `Decimal::checked_div` gives back for two decimals, each given by
/// its mantissa and scale.
pub uninterp spec fn decimal_checked_div(am: int, ascale: int, bm: int, bscale: int) -> Option<(int, int)>;

/// What `Decimal::checked_sub` gives back for two decimals, each given by
/// its mantissa and scale.
pub uninterp spec fn decimal_checked_sub(am: int, ascale: int, bm: int, bscale: int) -> Option<(int, int)>;

/// What `Decimal`'s `Display` writes for a decimal given by its mantissa
/// and scale.
pub uninterp spec fn decimal_to_string(m: int, s: int) -> Seq<char>;

/// Parses a decimal with `Decimal::from_str` (`rust_decimal`).
///
/// Trusted: the result is the named `decimal_from_str` of the string, and a
/// parsed decimal has a mantissa of at most 96 bits and a scale of at most
/// 28, as every `Decimal` has.
#[verifier::external_body]
pub(crate) fn dec_from_str(s: &str) -> (r: Option<Dec>)
    ensures
        match r {
            Some(d) => d.wf() && decimal_from_str(s@) == Some(d.parts()),
            None => decimal_from_str(s@) is None,
        },
{
    match Decimal::from_str(s) {
        Ok(d) => Some(Dec { mantissa: d.mantissa(), scale: d.scale() }),
        Err(_) => None,
    }
}

/// Multiplies with `Decimal::checked_mul` (`rust_decimal`).
///
/// Trusted: the result is the named `decimal_checked_mul` of the operands.
/// As `mul_impl` shows, a zero operand gives zero at scale 0; when the
/// product of the mantissas fits in 96 bits and the scales add up to at
/// most 28 the product is exact, at the sum of the scales; two operands that
/// are not negative give a result that is not negative.
#[verifier::external_body]
pub(crate) fn dec_checked_mul(a: Dec, b: Dec) -> (r: Option<Dec>)
    requires
        a.wf(),
        b.wf(),
    ensures
        match r {
            Some(d) => d.wf() && decimal_checked_mul(a.mantissa as int, a.scale as int, b.mantissa as int, b.scale as int) == Some(d.parts()),
            None => decimal_checked_mul(a.mantissa as int, a.scale as int, b.mantissa as int, b.scale as int) is None,
        },
        (a.mantissa == 0 || b.mantissa == 0) ==> r == Some(Dec { mantissa: 0, scale: 0 }),
        (a.mantissa != 0 && b.mantissa != 0 && -max_mantissa() <= a.mantissa * b.mantissa <= max_mantissa()
            && a.scale + b.scale <= max_scale()) ==> r == Some(Dec { mantissa: (a.mantissa * b.mantissa) as i128, scale: (a.scale + b.scale) as u32 }),
        (a.mantissa >= 0 && b.mantissa >= 0 && r is Some) ==> r->0.mantissa >= 0,
{
    let x = Decimal::from_i128_with_scale(a.mantissa, a.scale);
    let y = Decimal::from_i128_with_scale(b.mantissa, b.scale);
    x.checked_mul(y).map(|d| Dec { mantissa: d.mantissa(), scale: d.scale() })
}

/// Subtracts with `Decimal::checked_sub` (`rust_decimal`).
///
/// Trusted: the result is the named `decimal_checked_sub` of the operands.
/// As `add_sub_internal` shows, two operands of the same scale whose
/// difference fits in 96 bits give the exact difference at that scale; and
/// two whole operands that are not negative give exactly their difference
/// (a whole number below 2^96): the smaller-scale operand is scaled up
/// without rounding, in 96 bits where it fits and else in the 192-bit
/// buffer of `unaligned_add`, whose `rescale` then drops only trailing
/// zeros.
#[verifier::external_body]
pub(crate) fn dec_checked_sub(a: Dec, b: Dec) -> (r: Option<Dec>)
    requires
        a.wf(),
        b.wf(),
    ensures
        match r {
            Some(d) => d.wf() && decimal_checked_sub(a.mantissa as int, a.scale as int, b.mantissa as int, b.scale as int) == Some(d.parts()),
            None => decimal_checked_sub(a.mantissa as int, a.scale as int, b.mantissa as int, b.scale as int) is None,
        },
        (a.scale == b.scale && -max_mantissa() <= a.mantissa - b.mantissa <= max_mantissa())
            ==> r == Some(Dec { mantissa: (a.mantissa - b.mantissa) as i128, scale: a.scale }),
        (0 <= a.mantissa && 0 <= b.mantissa && a.is_integral() && b.is_integral()) ==> (r is Some
            && r->0.mantissa == ((a.mantissa as int) / pow10(a.scale as nat) - (b.mantissa as int) / pow10(b.scale as nat))
                * pow10(r->0.scale as nat)),
{
    let x = Decimal::from_i128_with_scale(a.mantissa, a.scale);
    let y = Decimal::from_i128_with_scale(b.mantissa, b.scale);
    x.checked_sub(y).map(|d| Dec { mantissa: d.mantissa(), scale: d.scale() })
}

/// Divides with `Decimal::checked_div` (`rust_decimal`).
///
/// Trusted: the result is the named `decimal_checked_div` of the operands.
/// As `div_impl` shows, a zero divisor gives `None`, a zero dividend (with a
/// divisor that is not zero) gives zero at scale 0; a quotient of two whole
/// numbers cannot overflow, so it is there; an operand pair that is not
/// negative gives a result that is not negative.
#[verifier::external_body]
pub(crate) fn dec_checked_div(a: Dec, b: Dec) -> (r: Option<Dec>)
    requires
        a.wf(),
        b.wf(),
    ensures
        match r {
            Some(d) => d.wf() && decimal_checked_div(a.mantissa as int, a.scale as int, b.mantissa as int, b.scale as int) == Some(d.parts()),
            None => decimal_checked_div(a.mantissa as int, a.scale as int, b.mantissa as int, b.scale as int) is None,
        },
        b.mantissa == 0 ==> r is None,
        (a.mantissa == 0 && b.mantissa != 0) ==> r == Some(Dec { mantissa: 0, scale: 0 }),
        (a.scale == 0 && b.scale == 0 && b.mantissa != 0) ==> r is Some,
        (a.mantissa >= 0 && b.mantissa > 0 && r is Some) ==> r->0.mantissa >= 0,
{
    let x = Decimal::from_i128_with_scale(a.mantissa, a.scale);
    let y = Decimal::from_i128_with_scale(b.mantissa, b.scale);
    x.checked_div(y).map(|d| Dec { mantissa: d.mantissa(), scale: d.scale() })
}

/// Rounds to a whole number with `Decimal::round_dp_with_strategy(0,
/// MidpointAwayFromZero)` (`rust_decimal`).
///
/// Trusted: the result has scale 0 and its mantissa is the value rounded
/// half away from zero (a decimal that already has scale 0 comes back as it
/// is).
#[verifier::external_body]
pub(crate) fn dec_round_whole(a: Dec) -> (r: Dec)
    requires
        a.wf(),
    ensures
        r.wf(),
        r.scale == 0,
        r.mantissa == round_half_away(a.mantissa as int, a.scale as nat),
{
    let x = Decimal::from_i128_with_scale(a.mantissa, a.scale);
    let d = x.round_dp_with_strategy(0, RoundingStrategy::MidpointAwayFromZero);
    Dec { mantissa: d.mantissa(), scale: d.scale() }
}

/// Converts to `u128` with `Decimal::to_u128` (`rust_decimal`).
///
/// Trusted: a negative decimal gives `None`; any other gives its whole part.
#[verifier::external_body]
pub(crate) fn dec_to_u128(a: Dec) -> (r: Option<u128>)
    requires
        a.wf(),
    ensures
        a.mantissa < 0 ==> r is None,
        a.mantissa >= 0 ==> r == Some(((a.mantissa as int) / pow10(a.scale as nat)) as u128),
{
    Decimal::from_i128_with_scale(a.mantissa, a.scale).to_u128()
}

/// Compares two decimals by value with `Decimal`'s `==` (`rust_decimal`).
///
/// Trusted: `Decimal` equality is equality of the values.
#[verifier::external_body]
pub(crate) fn dec_eq(a: Dec, b: Dec) -> (r: bool)
    requires
        a.wf(),
        b.wf(),
    ensures
        r == value_eq(a, b),
{
    Decimal::from_i128_with_scale(a.mantissa, a.scale) == Decimal::from_i128_with_scale(b.mantissa, b.scale)
}

/// Compares two decimals by value with `Decimal`'s `<` (`rust_decimal`).
///
/// Trusted: `Decimal` is ordered by value.
#[verifier::external_body]
pub(crate) fn dec_lt(a: Dec, b: Dec) -> (r: bool)
    requires
        a.wf(),
        b.wf(),
    ensures
        r == value_lt(a, b),
{
    Decimal::from_i128_with_scale(a.mantissa, a.scale) < Decimal::from_i128_with_scale(b.mantissa, b.scale)
}

/// Writes a decimal with `Decimal`'s `Display` (`rust_decimal`).
///
/// Trusted: the text is the named `decimal_to_string` of the decimal.
#[verifier::external_body]
pub(crate) fn dec_to_string(a: Dec) -> (r: String)
    requires
        a.wf(),
    ensures
        r@ == decimal_to_string(a.mantissa as int, a.scale as int),
{
    Decimal::from_i128_with_scale(a.mantissa, a.scale).to_string()
}

/// `Decimal::from_u128`: a whole number below 2^96 as a decimal at scale 0.
pub fn dec_from_u128(n: u128) -> (r: Option<Dec>)
    ensures
        n <= max_mantissa() ==> r == Some(dec_of(n as int)),
        n > max_mantissa() ==> r is None,
        r is Some ==> r->0.wf(),
{
    if n <= 0xFFFF_FFFF_FFFF_FFFF_FFFF_FFFFu128 {
        Some(Dec { mantissa: n as i128, scale: 0 })
    } else {
        None
    }
}

/// 10^n as a `u128`.
pub fn pow10_u128(n: u32) -> (r: u128)
    requires
        n <= 38,
    ensures
        r as int == pow10(n as nat),
{
    let mut r: u128 = 1;
    let mut i: u32 = 0;
    while i < n
        invariant
            i <= n,
            n <= 38,
            r as int == pow10(i as nat),
        decreases n - i,
    {
        proof {
            lemma_pow10_bound(i as nat);
        }
        r = r * 10;
        i = i + 1;
    }
    r
}

proof fn lemma_pow10_bound(i: nat)
    requires
        i < 38,
    ensures
        pow10(i) * 10 <= 100_000_000_000_000_000_000_000_000_000_000_000_000int,
    decreases i,
{
    lemma_pow10_monotone(i + 1, 38);
    reveal_with_fuel(pow10, 39);
}

/// The value is a whole number: the fractional part (`Decimal::fract`) is
/// zero.
pub fn dec_is_integral(a: Dec) -> (r: bool)
    requires
        a.wf(),
    ensures
        r == a.is_integral(),
        r == parts_integral(a.parts()),
{
    let p = pow10_u128(a.scale);
    let abs: u128 = if a.mantissa < 0 { (-a.mantissa) as u128 } else { a.mantissa as u128 };
    proof {
        lemma_pow10_positive(a.scale as nat);
        lemma_mod_abs(a.mantissa as int, p as int);
    }
    abs % p == 0
}

proof fn lemma_mod_abs(m: int, p: int)
    requires
        p > 0,
    ensures
        ((if m < 0 { -m } else { m }) % p == 0) == (m % p == 0),
{
    if m < 0 {
        vstd::arithmetic::div_mod::lemma_mod_multiples_vanish(0, m, p);
        assert((-m) % p == 0 <==> m % p == 0) by {
            vstd::arithmetic::div_mod::lemma_fundamental_div_mod(m, p);
            vstd::arithmetic::div_mod::lemma_fundamental_div_mod(-m, p);
            if m % p == 0 {
                vstd::arithmetic::div_mod::lemma_mod_multiples_basic(-(m / p), p);
                assert(-m == (-(m / p)) * p) by (nonlinear_arith)
                    requires m == p * (m / p);
            }
            if (-m) % p == 0 {
                vstd::arithmetic::div_mod::lemma_mod_multiples_basic(-((-m) / p), p);
                assert(m == (-((-m) / p)) * p) by (nonlinear_arith)
                    requires -m == p * ((-m) / p);
            }
        }
    }
}

} // verus!
