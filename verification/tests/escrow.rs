use brick::address::Address;
use brick::errors::ErrorCode;
use brick::ledger::TokenOp;
use brick::payment::{refund, register_escrow_buy, withdraw_funds, Payment};
use brick::product::{Product, ProductBumps, SellerConfig};

fn addr(tag: u8) -> Address {
    Address([tag; 32])
}

fn product() -> Product {
    Product {
        authority: addr(2),
        first_id: vec![b'x'; 32],
        second_id: vec![b' '; 32],
        marketplace: addr(3),
        product_mint: addr(4),
        seller_config: SellerConfig {
            payment_mint: addr(5),
            product_price: 100_000,
        },
        bumps: ProductBumps { bump: 255, mint_bump: 254 },
        active_payments: 0,
    }
}

/// A payment created at t=1000 with a 500-tick refund window.
fn open_payment(p: &mut Product) -> Payment {
    let (payment, plan) = register_escrow_buy(p, &addr(10), &addr(11), &addr(12), 1_000, 500, 255, 254).unwrap();
    assert_eq!(payment.refund_consumed_at, 1_500);
    assert_eq!(payment.payment_timestamp, 1_000);
    assert_eq!(payment.buyer.0, [10u8; 32]);
    assert_eq!(payment.seller.0, [2u8; 32]);
    assert_eq!(p.active_payments, 1);
    assert_eq!(
        plan,
        vec![TokenOp::Transfer {
            from: addr(11),
            to: addr(12),
            authority: addr(10),
            amount: 100_000,
        }]
    );
    payment
}

#[test]
fn refund_inside_the_window_succeeds() {
    let mut p = product();
    let payment = open_payment(&mut p);
    let mut slot = Some(payment);
    let plan = refund(&mut slot, &mut p, &addr(10), &addr(20), &addr(12), &addr(21), 1_400).unwrap();
    assert!(slot.is_none());
    assert_eq!(p.active_payments, 0);
    assert_eq!(
        plan,
        vec![
            TokenOp::Transfer {
                from: addr(12),
                to: addr(21),
                authority: addr(20),
                amount: 100_000,
            },
            TokenOp::CloseAccount {
                account: addr(12),
                destination: addr(10),
                authority: addr(20),
            },
        ]
    );
}

#[test]
fn refund_after_the_window_fails() {
    let mut p = product();
    let payment = open_payment(&mut p);
    let mut slot = Some(payment);
    let r = refund(&mut slot, &mut p, &addr(10), &addr(20), &addr(12), &addr(21), 1_600);
    assert_eq!(r.err(), Some(ErrorCode::TimeForRefundHasConsumed));
    assert!(slot.is_some());
    assert_eq!(p.active_payments, 1);
}

#[test]
fn withdrawal_before_the_window_closes_fails() {
    let mut p = product();
    let payment = open_payment(&mut p);
    let mut slot = Some(payment);
    let r = withdraw_funds(
        &mut slot, &mut p, &addr(2), 250, &addr(20), &addr(12), &addr(22), &addr(23), &addr(10), 1_400,
    );
    assert_eq!(r.err(), Some(ErrorCode::CannotWithdrawYet));
    assert!(slot.is_some());
}

#[test]
fn withdrawal_after_the_window_splits_by_fee() {
    let mut p = product();
    let payment = open_payment(&mut p);
    let mut slot = Some(payment);
    let plan = withdraw_funds(
        &mut slot, &mut p, &addr(2), 250, &addr(20), &addr(12), &addr(22), &addr(23), &addr(10), 1_600,
    )
    .unwrap();
    assert!(slot.is_none());
    assert_eq!(p.active_payments, 0);
    assert_eq!(
        plan,
        vec![
            TokenOp::Transfer {
                from: addr(12),
                to: addr(22),
                authority: addr(20),
                amount: 2_500,
            },
            TokenOp::Transfer {
                from: addr(12),
                to: addr(23),
                authority: addr(20),
                amount: 97_500,
            },
            TokenOp::CloseAccount {
                account: addr(12),
                destination: addr(10),
                authority: addr(20),
            },
        ]
    );
}

#[test]
fn zero_fee_withdrawal_pays_the_seller_whole() {
    let mut p = product();
    let payment = open_payment(&mut p);
    let mut slot = Some(payment);
    let plan = withdraw_funds(
        &mut slot, &mut p, &addr(2), 0, &addr(20), &addr(12), &addr(22), &addr(23), &addr(10), 2_000,
    )
    .unwrap();
    assert_eq!(plan.len(), 2);
    assert_eq!(
        plan[0],
        TokenOp::Transfer {
            from: addr(12),
            to: addr(23),
            authority: addr(20),
            amount: 100_000,
        }
    );
}

#[test]
fn only_the_buyer_refunds_and_only_the_seller_withdraws() {
    let mut p = product();
    let payment = open_payment(&mut p);
    let mut slot = Some(payment);
    assert_eq!(
        refund(&mut slot, &mut p, &addr(2), &addr(20), &addr(12), &addr(21), 1_400).err(),
        Some(ErrorCode::IncorrectAuthority)
    );
    assert_eq!(
        withdraw_funds(
            &mut slot, &mut p, &addr(10), 250, &addr(20), &addr(12), &addr(22), &addr(23), &addr(10), 1_600,
        )
        .err(),
        Some(ErrorCode::IncorrectAuthority)
    );
    assert!(slot.is_some());
}

#[test]
fn a_payment_is_resolved_exactly_once() {
    // Refund first: the record is closed, so a later withdrawal finds no
    // account even after the deadline.
    let mut p = product();
    let payment = open_payment(&mut p);
    let mut slot = Some(payment);
    refund(&mut slot, &mut p, &addr(10), &addr(20), &addr(12), &addr(21), 1_500).unwrap();
    let r = withdraw_funds(
        &mut slot, &mut p, &addr(2), 250, &addr(20), &addr(12), &addr(22), &addr(23), &addr(10), 1_600,
    );
    assert_eq!(r.err(), Some(ErrorCode::OptionalAccountNotProvided));
    assert_eq!(p.active_payments, 0);

    // Withdrawal first: a later refund finds no account either.
    let mut p = product();
    let payment = open_payment(&mut p);
    let mut slot = Some(payment);
    withdraw_funds(
        &mut slot, &mut p, &addr(2), 250, &addr(20), &addr(12), &addr(22), &addr(23), &addr(10), 1_500,
    )
    .unwrap();
    let r = refund(&mut slot, &mut p, &addr(10), &addr(20), &addr(12), &addr(21), 1_500);
    assert_eq!(r.err(), Some(ErrorCode::OptionalAccountNotProvided));
}

#[test]
fn open_payments_block_product_deletion() {
    let mut p = product();
    let payment = open_payment(&mut p);
    assert_eq!(p.delete(&addr(2)).err(), Some(ErrorCode::CannotCloseProduct));
    assert_eq!(p.delete(&addr(99)).err(), Some(ErrorCode::IncorrectAuthority));
    let mut slot = Some(payment);
    refund(&mut slot, &mut p, &addr(10), &addr(20), &addr(12), &addr(21), 1_000).unwrap();
    assert!(p.delete(&addr(2)).is_ok());
}

#[test]
fn deadline_overflow_is_rejected() {
    let mut p = product();
    let r = register_escrow_buy(&mut p, &addr(10), &addr(11), &addr(12), u64::MAX, 1, 255, 254);
    assert_eq!(r.err(), Some(ErrorCode::NumericalOverflow));
    assert_eq!(p.active_payments, 0);
}
