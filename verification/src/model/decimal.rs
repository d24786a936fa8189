//! The arithmetic of `rust_decimal` on amounts. Each function here hands its
//! arguments to that crate and states what comes back; nothing in this file
//! is proved.
//!
//! An amount goes over as `Decimal::from_i128_with_scale` makes it, which
//! panics on a mantissa of more than 96 bits or on a scale above 28: every
//! function here asks for amounts within that range. What comes back is read
//! with `Decimal::mantissa` and `Decimal::scale`.

use super::amount::{fits, pow10, round_half_away, Amount, AmountView, MAX_SCALE};
use rust_decimal::Decimal;
use vstd::prelude::*;

verus! {

/// `Decimal::checked_add`. For two amounts of one scale the sum of the
/// mantissas is exact and keeps that scale whenever it fits in 96 bits;
/// when it does not fit, the crate either reports overflow or rounds the sum
/// to a smaller scale. Nothing is claimed for amounts of different scales but
/// that the result is a valid amount.
#[verifier::external_body]
pub(crate) fn checked_add(a: Amount, b: Amount) -> (sum: Option<Amount>)
    requires
        a@.in_range(),
        b@.in_range(),
    ensures
        sum is Some ==> sum.unwrap()@.in_range(),
        a@.scale == b@.scale && fits(a@.mantissa + b@.mantissa) ==> sum is Some && sum.unwrap()@
            == (AmountView { mantissa: a@.mantissa + b@.mantissa, scale: a@.scale }),
        a@.scale == b@.scale && !fits(a@.mantissa + b@.mantissa) ==> sum is None
            || sum.unwrap()@.scale < a@.scale,
{
    let x = Decimal::from_i128_with_scale(a.mantissa, a.scale);
    let y = Decimal::from_i128_with_scale(b.mantissa, b.scale);
    match x.checked_add(y) {
        Some(d) => Some(Amount { mantissa: d.mantissa(), scale: d.scale() }),
        None => None,
    }
}

/// `Decimal::checked_sub`. For two amounts of one scale the difference of the
/// mantissas is exact and keeps that scale whenever it fits in 96 bits;
/// when it does not fit, the crate either reports overflow or rounds the
/// difference to a smaller scale. Nothing is claimed for amounts of different
/// scales but that the result is a valid amount.
#[verifier::external_body]
pub(crate) fn checked_sub(a: Amount, b: Amount) -> (difference: Option<Amount>)
    requires
        a@.in_range(),
        b@.in_range(),
    ensures
        difference is Some ==> difference.unwrap()@.in_range(),
        a@.scale == b@.scale && fits(a@.mantissa - b@.mantissa) ==> difference is Some
            && difference.unwrap()@ == (
        AmountView { mantissa: a@.mantissa - b@.mantissa, scale: a@.scale }),
        a@.scale == b@.scale && !fits(a@.mantissa - b@.mantissa) ==> difference is None
            || difference.unwrap()@.scale < a@.scale,
{
    let x = Decimal::from_i128_with_scale(a.mantissa, a.scale);
    let y = Decimal::from_i128_with_scale(b.mantissa, b.scale);
    match x.checked_sub(y) {
        Some(d) => Some(Amount { mantissa: d.mantissa(), scale: d.scale() }),
        None => None,
    }
}

/// `Decimal::rescale`, for a scale of at most 28. An amount that has the
/// scale asked for comes back as it is, and zero comes back with the scale
/// asked for. Towards a smaller scale, the digits that are dropped round the
/// mantissa half away from zero. Towards a larger scale the number stays what
/// it is: zeros are added to the mantissa, as many as were asked for or, if
/// the mantissa would then need more than 96 bits, as many as it can take.
#[verifier::external_body]
pub(crate) fn rescale(a: Amount, scale: u32) -> (rescaled: Amount)
    requires
        a@.in_range(),
        scale <= MAX_SCALE,
    ensures
        rescaled@.in_range(),
        a@.scale == scale ==> rescaled@ == a@,
        a@.mantissa == 0 ==> rescaled@.mantissa == 0 && rescaled@.scale == scale,
        a@.scale > scale ==> rescaled@.scale == scale && rescaled@.mantissa == round_half_away(
            a@.mantissa,
            pow10((a@.scale - scale) as nat),
        ),
        a@.scale < scale ==> a@.scale <= rescaled@.scale <= scale && rescaled@.mantissa
            == a@.mantissa * pow10((rescaled@.scale - a@.scale) as nat),
        a@.scale < scale && a@.mantissa != 0 ==> rescaled@.scale == scale || !fits(
            rescaled@.mantissa * 10,
        ),
{
    let mut d = Decimal::from_i128_with_scale(a.mantissa, a.scale);
    d.rescale(scale);
    Amount { mantissa: d.mantissa(), scale: d.scale() }
}

/// The `>` of `Decimal`, which compares two amounts as numbers, whatever
/// their scales.
#[verifier::external_body]
pub(crate) fn greater_than(a: Amount, b: Amount) -> (greater: bool)
    requires
        a@.in_range(),
        b@.in_range(),
    ensures
        greater == b@.less_than(a@),
{
    Decimal::from_i128_with_scale(a.mantissa, a.scale) > Decimal::from_i128_with_scale(
        b.mantissa,
        b.scale,
    )
}

} // verus!
