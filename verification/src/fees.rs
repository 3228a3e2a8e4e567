//! Basis-point fee arithmetic: the fixed-point split of a payment amount into
//! a fee share and a counterparty share, with an optional discount when the
//! payment is made in the marketplace's discount mint.

use vstd::prelude::*;
use vstd::arithmetic::div_mod::{lemma_div_is_ordered, lemma_div_multiples_vanish, lemma_div_pos_is_pos};
use vstd::arithmetic::mul::{lemma_mul_inequality, lemma_mul_nonnegative};
use crate::errors::ErrorCode;

verus! {

/// Which party absorbs the marketplace fee. With `Seller`, the fee is taken
/// out of the amount and the seller nets the remainder; with `Buyer`, the
/// seller receives the full amount and the fee is charged on top.
#[derive(Clone, Copy, Debug, PartialEq, Eq, Structural)]
pub enum FeePayer {
    Buyer,
    Seller,
}

/// Full scale of basis-point arithmetic: 10000 basis points are 100%.
pub const BPS_SCALE: u16 = 10000;

/// The basis points actually charged: when the payment is made in the
/// discount mint the reduction is subtracted, saturating at zero.
pub open spec fn effective_bps(fee: u16, fee_reduction: u16, discounted: bool) -> u16 {
    if discounted {
        if fee >= fee_reduction {
            (fee - fee_reduction) as u16
        } else {
            0u16
        }
    } else {
        fee
    }
}

/// floor(bps * amount / 10000), as an unbounded integer.
pub open spec fn bps_share(bps: u16, amount: u64) -> int {
    ((bps as int) * (amount as int)) / (BPS_SCALE as int)
}

/// The split of `amount` under a fee schedule: the fee share and the
/// counterparty (seller) share. Fails with `NumericalOverflow` instead of
/// wrapping whenever the fee share cannot be represented or would leave the
/// seller share negative.
pub open spec fn distribution(
    fee: u16,
    fee_reduction: u16,
    discounted: bool,
    fee_payer: FeePayer,
    amount: u64,
) -> Result<(u64, u64), ErrorCode> {
    let f = bps_share(effective_bps(fee, fee_reduction, discounted), amount);
    if f > u64::MAX {
        Err(ErrorCode::NumericalOverflow)
    } else if fee_payer is Seller && f > amount {
        Err(ErrorCode::NumericalOverflow)
    } else {
        Ok((f as u64, if fee_payer is Seller { (amount - f) as u64 } else { amount }))
    }
}

/// Splits `amount` at the already-adjusted basis points: the fee share and
/// the counterparty share. The widened intermediate cannot overflow; the
/// split fails only where the result could not be represented.
pub fn split_at_bps(bps: u16, fee_payer: FeePayer, amount: u64) -> (r: Result<(u64, u64), ErrorCode>)
    ensures
        r == distribution(bps, 0u16, false, fee_payer, amount),
{
    proof {
        assert((bps as int) * (amount as int) <= 65535int * 0xffff_ffff_ffff_ffffu64 as int)
            by (nonlinear_arith)
            requires
                bps as int <= 65535,
                0 <= amount as int <= 0xffff_ffff_ffff_ffffu64 as int,
        ;
    }
    let fee_wide: u128 = (bps as u128) * (amount as u128);
    let fee_scaled: u128 = fee_wide / 10000u128;
    if fee_scaled > u64::MAX as u128 {
        return Err(ErrorCode::NumericalOverflow);
    }
    let total_fee: u64 = fee_scaled as u64;
    match fee_payer {
        FeePayer::Buyer => Ok((total_fee, amount)),
        FeePayer::Seller => {
            if total_fee > amount {
                Err(ErrorCode::NumericalOverflow)
            } else {
                Ok((total_fee, amount - total_fee))
            }
        },
    }
}

/// The reward or promotion share of a sale volume: floor(bps * amount /
/// 10000), which at up to 10000 basis points always fits the amount's type.
pub fn bonus_amount(bps: u16, amount: u64) -> (r: u64)
    requires
        bps <= 10000,
    ensures
        r == bps_share(bps, amount),
{
    proof {
        lemma_share_le_amount(bps, amount);
        assert((bps as int) * (amount as int) <= 65535int * 0xffff_ffff_ffff_ffffu64 as int)
            by (nonlinear_arith)
            requires
                bps as int <= 65535,
                0 <= amount as int <= 0xffff_ffff_ffff_ffffu64 as int,
        ;
    }
    (((bps as u128) * (amount as u128)) / 10000u128) as u64
}

/// A basis-point share is never negative.
pub proof fn lemma_share_nonnegative(bps: u16, amount: u64)
    ensures
        0 <= bps_share(bps, amount),
{
    lemma_mul_nonnegative(bps as int, amount as int);
    lemma_div_pos_is_pos((bps as int) * (amount as int), BPS_SCALE as int);
}

/// The share grows with the basis points: fewer basis points never yield a
/// larger share.
pub proof fn lemma_share_monotone(b1: u16, b2: u16, amount: u64)
    requires
        b1 <= b2,
    ensures
        bps_share(b1, amount) <= bps_share(b2, amount),
{
    lemma_mul_inequality(b1 as int, b2 as int, amount as int);
    lemma_div_is_ordered((b1 as int) * (amount as int), (b2 as int) * (amount as int), BPS_SCALE as int);
}

/// At up to 10000 basis points the share never exceeds the amount itself.
pub proof fn lemma_share_le_amount(bps: u16, amount: u64)
    requires
        bps <= 10000,
    ensures
        0 <= bps_share(bps, amount) <= amount,
{
    lemma_share_nonnegative(bps, amount);
    lemma_share_monotone(bps, 10000u16, amount);
    lemma_div_multiples_vanish(amount as int, BPS_SCALE as int);
    assert((10000int * (amount as int)) / (BPS_SCALE as int) == amount as int);
}

/// Conservation of the distribution: for any fee schedule within bounds the
/// split succeeds, the fee share never exceeds the amount nor the
/// undiscounted floor(fee * amount / 10000), and when the seller absorbs
/// the fee the two shares sum back to the amount.
pub proof fn lemma_distribution_conservation(fee: u16, fee_reduction: u16, discounted: bool, fee_payer: FeePayer, amount: u64)
    requires
        fee <= 10000,
        fee_reduction <= 10000,
    ensures
        ({
            let r = distribution(fee, fee_reduction, discounted, fee_payer, amount);
            &&& r is Ok
            &&& r->Ok_0.0 <= amount
            &&& r->Ok_0.0 <= bps_share(fee, amount)
            &&& fee_payer is Seller ==> r->Ok_0.0 + r->Ok_0.1 == amount
        }),
{
    let eff = effective_bps(fee, fee_reduction, discounted);
    lemma_share_le_amount(eff, amount);
    lemma_share_monotone(eff, fee, amount);
}

/// Discount monotonicity: paying in the discount mint never yields a larger
/// fee share than paying in any other mint, all other inputs equal.
pub proof fn lemma_discount_never_increases_fee(fee: u16, fee_reduction: u16, fee_payer: FeePayer, amount: u64)
    requires
        fee <= 10000,
        fee_reduction <= 10000,
    ensures
        ({
            let with_discount = distribution(fee, fee_reduction, true, fee_payer, amount);
            let without = distribution(fee, fee_reduction, false, fee_payer, amount);
            &&& with_discount is Ok
            &&& without is Ok
            &&& with_discount->Ok_0.0 <= without->Ok_0.0
        }),
{
    lemma_share_le_amount(effective_bps(fee, fee_reduction, true), amount);
    lemma_share_le_amount(effective_bps(fee, fee_reduction, false), amount);
    lemma_share_monotone(effective_bps(fee, fee_reduction, true), fee, amount);
}

} // verus!
