use brick::address::Address;
use brick::errors::ErrorCode;
use brick::fees::FeePayer;
use brick::marketplace::{FeesConfig, Marketplace};
use brick::utils::get_withdraw_amounts;

fn addr(tag: u8) -> Address {
    Address([tag; 32])
}

fn fees(fee: u16, fee_reduction: u16, discount_mint: Address, fee_payer: FeePayer) -> FeesConfig {
    FeesConfig {
        discount_mint,
        fee,
        fee_reduction,
        fee_payer,
    }
}

#[test]
fn discounted_sale_fee_and_seller_share() {
    // 250 bps reduced by 100 bps on a 100_000 sale paid in the discount mint.
    let discount = addr(1);
    let cfg = fees(250, 100, discount, FeePayer::Seller);
    let (fee, seller) = Marketplace::calculate_transfer_distribution(&cfg, &discount, 100_000).unwrap();
    assert_eq!(fee, 1_500);
    assert_eq!(seller, 98_500);
}

#[test]
fn undiscounted_sale_fee_and_seller_share() {
    // Same schedule, paid in another mint: the full 250 bps apply.
    let cfg = fees(250, 100, addr(1), FeePayer::Seller);
    let (fee, seller) = Marketplace::calculate_transfer_distribution(&cfg, &addr(2), 100_000).unwrap();
    assert_eq!(fee, 2_500);
    assert_eq!(seller, 97_500);
}

#[test]
fn shares_sum_to_amount_when_seller_absorbs() {
    let cfg = fees(10_000, 0, addr(1), FeePayer::Seller);
    for amount in [0u64, 1, 9_999, 10_000, 123_456_789, u64::MAX] {
        let (fee, seller) = Marketplace::calculate_transfer_distribution(&cfg, &addr(2), amount).unwrap();
        assert_eq!(fee.checked_add(seller), Some(amount));
        assert!(fee <= amount);
    }
}

#[test]
fn buyer_pays_fee_on_top() {
    let cfg = fees(250, 0, addr(1), FeePayer::Buyer);
    let (fee, seller) = Marketplace::calculate_transfer_distribution(&cfg, &addr(2), 100_000).unwrap();
    assert_eq!(fee, 2_500);
    assert_eq!(seller, 100_000);
}

#[test]
fn discount_never_increases_fee() {
    let discount = addr(1);
    for (fee_bps, reduction) in [(250u16, 100u16), (10_000, 10_000), (1, 10_000), (9_999, 1)] {
        let cfg = fees(fee_bps, reduction, discount, FeePayer::Seller);
        let (with_discount, _) = Marketplace::calculate_transfer_distribution(&cfg, &discount, 77_777).unwrap();
        let (without, _) = Marketplace::calculate_transfer_distribution(&cfg, &addr(9), 77_777).unwrap();
        assert!(with_discount <= without);
    }
}

#[test]
fn reduction_saturates_at_zero() {
    let discount = addr(1);
    let cfg = fees(100, 250, discount, FeePayer::Seller);
    let (fee, seller) = Marketplace::calculate_transfer_distribution(&cfg, &discount, 100_000).unwrap();
    assert_eq!(fee, 0);
    assert_eq!(seller, 100_000);
}

#[test]
fn rounding_is_floor() {
    let cfg = fees(250, 0, addr(1), FeePayer::Seller);
    // 250 * 39 / 10000 = 0.975, floored to 0.
    let (fee, seller) = Marketplace::calculate_transfer_distribution(&cfg, &addr(2), 39).unwrap();
    assert_eq!(fee, 0);
    assert_eq!(seller, 39);
}

#[test]
fn out_of_range_basis_points_overflow() {
    // A raw schedule above 100% would owe the seller a negative share.
    let cfg = fees(20_000, 0, addr(1), FeePayer::Seller);
    let r = Marketplace::calculate_transfer_distribution(&cfg, &addr(2), 100_000);
    assert_eq!(r, Err(ErrorCode::NumericalOverflow));
}

#[test]
fn withdraw_amounts_split_exactly() {
    let (fee, seller) = get_withdraw_amounts(250, 100_000).unwrap();
    assert_eq!(fee, 2_500);
    assert_eq!(seller, 97_500);
    let (fee, seller) = get_withdraw_amounts(0, 5).unwrap();
    assert_eq!(fee, 0);
    assert_eq!(seller, 5);
    assert_eq!(
        get_withdraw_amounts(10_001, u64::MAX),
        Err(ErrorCode::NumericalOverflow)
    );
}
