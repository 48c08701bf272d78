use vstd::prelude::*;
use rust_decimal::Decimal;
use rust_decimal::MathematicalOps;

verus! {

/// A decimal number as `rust_decimal` holds it: a sign, a magnitude below
/// 2^96, and a scale (the count of digits after the point) of at most 28.
/// Its value is `(-1)^negative * magnitude / 10^scale`.
#[derive(Debug, Clone, Copy, PartialEq, Eq, Structural)]
pub struct Dec {
    pub negative: bool,
    pub magnitude: u128,
    pub scale: u32,
}

/// Whether `d` is within the bounds of a decimal: a 96-bit magnitude and a
/// scale of at most 28.
pub open spec fn dec_valid(d: Dec) -> bool {
    d.magnitude < 0x1_0000_0000_0000_0000_0000_0000u128 && d.scale <= 28
}

/// Ten to the power `n`.
pub open spec fn pow10(n: nat) -> nat
    decreases n,
{
    if n == 0 { 1 } else { 10 * pow10((n - 1) as nat) }
}

/// The decimal of a whole number, as `Decimal::from` makes it.
pub open spec fn dec_int(x: u64) -> Dec {
    Dec { negative: false, magnitude: x as u128, scale: 0 }
}

/// The decimal of a whole number.
pub fn dec_from_u64(x: u64) -> (r: Dec)
    ensures
        r == dec_int(x),
        dec_valid(r),
{
    Dec { negative: false, magnitude: x as u128, scale: 0 }
}

/// The whole part of a non-negative decimal as a `u32`, if it fits; `None`
/// for a decimal with its sign set, zero included.
pub open spec fn dec_whole_u32(d: Dec) -> Option<u32> {
    if d.negative {
        None
    } else if (d.magnitude as nat) / pow10(d.scale as nat) <= u32::MAX {
        Some(((d.magnitude as nat) / pow10(d.scale as nat)) as u32)
    } else {
        None
    }
}

/// What `Decimal::checked_add` gives for two decimals.
pub uninterp spec fn dec_sum(a: Dec, b: Dec) -> Option<Dec>;

/// What `Decimal::checked_mul` gives for two decimals.
pub uninterp spec fn dec_product(a: Dec, b: Dec) -> Option<Dec>;

/// What `Decimal::checked_div` gives for two decimals.
pub uninterp spec fn dec_quotient(a: Dec, b: Dec) -> Option<Dec>;

/// What `MathematicalOps::sqrt` gives for a decimal.
pub uninterp spec fn dec_square_root(a: Dec) -> Option<Dec>;

/// What `MathematicalOps::checked_ln` gives for a decimal.
pub uninterp spec fn dec_natural_log(a: Dec) -> Option<Dec>;

/// What `MathematicalOps::checked_powd` gives for a base and an exponent.
pub uninterp spec fn dec_power(a: Dec, e: Dec) -> Option<Dec>;

/// The sum of two decimals, `None` on overflow.
///
/// Trusted: calls `rust_decimal::Decimal::checked_add`; the result is named,
/// and is within the bounds of a decimal.
#[verifier::external_body]
pub(crate) fn dec_add(a: Dec, b: Dec) -> (r: Option<Dec>)
    requires
        dec_valid(a),
        dec_valid(b),
    ensures
        r == dec_sum(a, b),
        r matches Some(s) ==> dec_valid(s),
{
    let mut x = Decimal::from_i128_with_scale(a.magnitude as i128, a.scale);
    x.set_sign_negative(a.negative);
    let mut y = Decimal::from_i128_with_scale(b.magnitude as i128, b.scale);
    y.set_sign_negative(b.negative);
    match x.checked_add(y) {
        Some(s) => Some(Dec { negative: s.is_sign_negative(), magnitude: s.mantissa().unsigned_abs(), scale: s.scale() }),
        None => None,
    }
}

/// The product of two decimals, `None` on overflow.
///
/// Trusted: calls `rust_decimal::Decimal::checked_mul`; the result is named,
/// and is within the bounds of a decimal.
#[verifier::external_body]
pub(crate) fn dec_mul(a: Dec, b: Dec) -> (r: Option<Dec>)
    requires
        dec_valid(a),
        dec_valid(b),
    ensures
        r == dec_product(a, b),
        r matches Some(p) ==> dec_valid(p),
{
    let mut x = Decimal::from_i128_with_scale(a.magnitude as i128, a.scale);
    x.set_sign_negative(a.negative);
    let mut y = Decimal::from_i128_with_scale(b.magnitude as i128, b.scale);
    y.set_sign_negative(b.negative);
    match x.checked_mul(y) {
        Some(p) => Some(Dec { negative: p.is_sign_negative(), magnitude: p.mantissa().unsigned_abs(), scale: p.scale() }),
        None => None,
    }
}

/// The quotient of two decimals, `None` on overflow or for a zero divisor.
///
/// Trusted: calls `rust_decimal::Decimal::checked_div`; the result is named,
/// is within the bounds of a decimal, and is `None` when the divisor is zero.
#[verifier::external_body]
pub(crate) fn dec_div(a: Dec, b: Dec) -> (r: Option<Dec>)
    requires
        dec_valid(a),
        dec_valid(b),
    ensures
        r == dec_quotient(a, b),
        r matches Some(q) ==> dec_valid(q),
        b.magnitude == 0 ==> r is None,
{
    let mut x = Decimal::from_i128_with_scale(a.magnitude as i128, a.scale);
    x.set_sign_negative(a.negative);
    let mut y = Decimal::from_i128_with_scale(b.magnitude as i128, b.scale);
    y.set_sign_negative(b.negative);
    match x.checked_div(y) {
        Some(q) => Some(Dec { negative: q.is_sign_negative(), magnitude: q.mantissa().unsigned_abs(), scale: q.scale() }),
        None => None,
    }
}

/// The square root of a decimal, `None` for one with its sign set.
///
/// Trusted: calls `rust_decimal::MathematicalOps::sqrt`; the result is named,
/// is within the bounds of a decimal, and is `None` for a decimal with its
/// sign set. Whether its iteration can stop on its internal bound of 1000
/// rounds (a panic) is not said.
#[verifier::external_body]
pub(crate) fn dec_sqrt(a: Dec) -> (r: Option<Dec>)
    requires
        dec_valid(a),
    ensures
        r == dec_square_root(a),
        r matches Some(s) ==> dec_valid(s),
        a.negative ==> r is None,
{
    let mut x = Decimal::from_i128_with_scale(a.magnitude as i128, a.scale);
    x.set_sign_negative(a.negative);
    match x.sqrt() {
        Some(s) => Some(Dec { negative: s.is_sign_negative(), magnitude: s.mantissa().unsigned_abs(), scale: s.scale() }),
        None => None,
    }
}

/// The natural logarithm of a decimal, `None` where it cannot be computed.
///
/// Trusted: calls `rust_decimal::MathematicalOps::checked_ln`; the result is
/// named, and is within the bounds of a decimal.
#[verifier::external_body]
pub(crate) fn dec_ln(a: Dec) -> (r: Option<Dec>)
    requires
        dec_valid(a),
    ensures
        r == dec_natural_log(a),
        r matches Some(l) ==> dec_valid(l),
{
    let mut x = Decimal::from_i128_with_scale(a.magnitude as i128, a.scale);
    x.set_sign_negative(a.negative);
    match x.checked_ln() {
        Some(l) => Some(Dec { negative: l.is_sign_negative(), magnitude: l.mantissa().unsigned_abs(), scale: l.scale() }),
        None => None,
    }
}

/// A decimal raised to a decimal power, `None` on overflow.
///
/// Trusted: calls `rust_decimal::MathematicalOps::checked_powd`; the result is
/// named, and is within the bounds of a decimal. For a fractional exponent it
/// takes the logarithm of the base with `ln`, whose panic for a logarithm it
/// cannot compute is not ruled out here.
#[verifier::external_body]
pub(crate) fn dec_powd(a: Dec, e: Dec) -> (r: Option<Dec>)
    requires
        dec_valid(a),
        dec_valid(e),
    ensures
        r == dec_power(a, e),
        r matches Some(p) ==> dec_valid(p),
{
    let mut x = Decimal::from_i128_with_scale(a.magnitude as i128, a.scale);
    x.set_sign_negative(a.negative);
    let mut y = Decimal::from_i128_with_scale(e.magnitude as i128, e.scale);
    y.set_sign_negative(e.negative);
    match x.checked_powd(y) {
        Some(p) => Some(Dec { negative: p.is_sign_negative(), magnitude: p.mantissa().unsigned_abs(), scale: p.scale() }),
        None => None,
    }
}

/// The whole part of a decimal as a `u32`.
///
/// Trusted: calls `rust_decimal::prelude::ToPrimitive::to_u32`, which
/// truncates toward zero and fails for a decimal with its sign set or a whole
/// part above `u32::MAX`.
#[verifier::external_body]
pub(crate) fn dec_to_u32(a: Dec) -> (r: Option<u32>)
    requires
        dec_valid(a),
    ensures
        r == dec_whole_u32(a),
{
    let mut x = Decimal::from_i128_with_scale(a.magnitude as i128, a.scale);
    x.set_sign_negative(a.negative);
    rust_decimal::prelude::ToPrimitive::to_u32(&x)
}

} // verus!
