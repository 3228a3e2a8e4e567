//! The escrow state machine of a purchase: a payment record is created with
//! the buyer's funds held in a vault owned by the record's derived address,
//! and is resolved exactly once, by a buyer refund before the refund
//! deadline or a seller withdrawal after it. The resolution closes the
//! record, so the losing side finds no account left and fails without
//! moving value.

use vstd::prelude::*;
use crate::address::{address_eq, Address};
use crate::errors::ErrorCode;
use crate::fees::{distribution, FeePayer};
use crate::ledger::TokenOp;
use crate::product::Product;
use crate::utils::get_withdraw_amounts;

verus! {

/// One escrowed purchase, created at payment time and closed by whichever
/// of refund or withdrawal resolves it.
#[derive(Clone, Copy, Debug)]
pub struct Payment {
    /// The product's proof-of-payment mint.
    pub token_mint: Address,
    /// The mint the buyer paid in.
    pub paid_mint: Address,
    /// The seller owed the funds after the refund window.
    pub seller: Address,
    /// The buyer who paid, and may reclaim within the refund window.
    pub buyer: Address,
    /// The escrowed amount, in the smallest unit of the paid mint.
    pub token_price: u64,
    /// When the payment was made.
    pub payment_timestamp: u64,
    /// The deadline: refunds are allowed up to and including it, the
    /// seller's withdrawal from it on.
    pub refund_consumed_at: u64,
    /// Bump of the payment account itself.
    pub bump: u8,
    /// Bump of the escrow vault.
    pub bump_vault: u8,
}

impl Payment {
    /// Serialized size of the record: discriminator, the four addresses,
    /// the three 64-bit fields and the two bumps.
    pub const SIZE: usize = 8 + 32 + 32 + 32 + 32 + 8 + 8 + 8 + 1 + 1;
}

/// A refund resolves the slot: the record still exists, the caller is its
/// buyer, and the deadline has not passed.
pub open spec fn refund_succeeds(slot: Option<Payment>, caller: Seq<u8>, now: u64) -> bool {
    &&& slot matches Some(p)
    &&& caller == slot->Some_0.buyer@
    &&& now <= slot->Some_0.refund_consumed_at
}

/// The slot after a refund attempt: emptied exactly when it succeeded.
pub open spec fn slot_after_refund(slot: Option<Payment>, caller: Seq<u8>, now: u64) -> Option<Payment> {
    if refund_succeeds(slot, caller, now) {
        None
    } else {
        slot
    }
}

/// A withdrawal resolves the slot: the record still exists, the caller is
/// its seller, the deadline has been reached, and the fee split of the
/// escrowed amount is representable.
pub open spec fn withdraw_succeeds(slot: Option<Payment>, caller: Seq<u8>, fee_basis_points: u16, now: u64) -> bool {
    &&& slot matches Some(p)
    &&& caller == slot->Some_0.seller@
    &&& now >= slot->Some_0.refund_consumed_at
    &&& distribution(fee_basis_points, 0u16, false, FeePayer::Seller, slot->Some_0.token_price) is Ok
}

/// The slot after a withdrawal attempt: emptied exactly when it succeeded.
pub open spec fn slot_after_withdraw(slot: Option<Payment>, caller: Seq<u8>, fee_basis_points: u16, now: u64) -> Option<Payment> {
    if withdraw_succeeds(slot, caller, fee_basis_points, now) {
        None
    } else {
        slot
    }
}

/// Escrow exclusivity, one direction: once a refund has resolved a payment,
/// no withdrawal can ever succeed against it, whoever calls and whenever.
pub proof fn lemma_refund_excludes_withdraw(slot: Option<Payment>, buyer_caller: Seq<u8>, seller_caller: Seq<u8>, fee_basis_points: u16, t1: u64, t2: u64)
    requires
        refund_succeeds(slot, buyer_caller, t1),
    ensures
        !withdraw_succeeds(slot_after_refund(slot, buyer_caller, t1), seller_caller, fee_basis_points, t2),
{
}

/// Escrow exclusivity, the other direction: once a withdrawal has resolved
/// a payment, no refund can ever succeed against it.
pub proof fn lemma_withdraw_excludes_refund(slot: Option<Payment>, buyer_caller: Seq<u8>, seller_caller: Seq<u8>, fee_basis_points: u16, t1: u64, t2: u64)
    requires
        withdraw_succeeds(slot, seller_caller, fee_basis_points, t1),
    ensures
        !refund_succeeds(slot_after_withdraw(slot, seller_caller, fee_basis_points, t1), buyer_caller, t2),
{
}

/// Creates the escrowed payment of a purchase: the payment record, with its
/// refund deadline `now + refund_timespan`, and the plan moving the price
/// from the buyer's token account into the escrow vault. Increments the
/// product's open-payment counter. The account bumps were recorded by the
/// embedding program when it created the two accounts.
pub fn register_escrow_buy(
    product: &mut Product,
    buyer: &Address,
    buyer_transfer_vault: &Address,
    payment_vault: &Address,
    now: u64,
    refund_timespan: u64,
    bump: u8,
    bump_vault: u8,
) -> (r: Result<(Payment, Vec<TokenOp>), ErrorCode>)
    ensures
        r is Ok <==> now + refund_timespan <= u64::MAX && old(product).active_payments + 1 <= u32::MAX,
        r is Err ==> *final(product) == *old(product) && r->Err_0 == ErrorCode::NumericalOverflow,
        r matches Ok(p) ==> {
            &&& *final(product) == (Product {
                active_payments: (old(product).active_payments + 1) as u32,
                ..*old(product)
            })
            &&& p.0 == (Payment {
                token_mint: old(product).product_mint,
                paid_mint: old(product).seller_config.payment_mint,
                seller: old(product).authority,
                buyer: *buyer,
                token_price: old(product).seller_config.product_price,
                payment_timestamp: now,
                refund_consumed_at: (now + refund_timespan) as u64,
                bump,
                bump_vault,
            })
            &&& p.1@ == seq![
                (TokenOp::Transfer {
                    from: *buyer_transfer_vault,
                    to: *payment_vault,
                    authority: *buyer,
                    amount: old(product).seller_config.product_price,
                }),
            ]
        },
{
    if refund_timespan > u64::MAX - now {
        return Err(ErrorCode::NumericalOverflow);
    }
    if product.active_payments == u32::MAX {
        return Err(ErrorCode::NumericalOverflow);
    }
    let payment = Payment {
        token_mint: product.product_mint,
        paid_mint: product.seller_config.payment_mint,
        seller: product.authority,
        buyer: *buyer,
        token_price: product.seller_config.product_price,
        payment_timestamp: now,
        refund_consumed_at: now + refund_timespan,
        bump,
        bump_vault,
    };
    product.active_payments = product.active_payments + 1;
    let mut plan: Vec<TokenOp> = Vec::new();
    plan.push(TokenOp::Transfer {
        from: *buyer_transfer_vault,
        to: *payment_vault,
        authority: *buyer,
        amount: payment.token_price,
    });
    proof {
        assert(plan@ =~= seq![
            (TokenOp::Transfer {
                from: *buyer_transfer_vault,
                to: *payment_vault,
                authority: *buyer,
                amount: old(product).seller_config.product_price,
            }),
        ]);
    }
    Ok((payment, plan))
}

/// Refunds an escrowed payment to its buyer: allowed only for the buyer,
/// and only up to the refund deadline. On success the plan returns the
/// escrowed amount to the buyer's token account and closes the vault, the
/// record is gone, and the product's open-payment counter drops by one.
pub fn refund(
    slot: &mut Option<Payment>,
    product: &mut Product,
    caller: &Address,
    payment_address: &Address,
    payment_vault: &Address,
    receiver_vault: &Address,
    now: u64,
) -> (r: Result<Vec<TokenOp>, ErrorCode>)
    requires
        (*old(slot)) is Some ==> old(product).active_payments >= 1,
    ensures
        r is Err ==> *final(slot) == *old(slot) && *final(product) == *old(product),
        (*old(slot)) is None ==> r is Err && r->Err_0 == ErrorCode::OptionalAccountNotProvided,
        (*old(slot)) matches Some(p) ==> {
            &&& caller@ != p.buyer@ ==> r is Err && r->Err_0 == ErrorCode::IncorrectAuthority
            &&& caller@ == p.buyer@ && p.refund_consumed_at < now
                ==> r is Err && r->Err_0 == ErrorCode::TimeForRefundHasConsumed
        },
        r is Ok <==> refund_succeeds(*old(slot), caller@, now),
        *final(slot) == slot_after_refund(*old(slot), caller@, now),
        r matches Ok(plan) ==> {
            &&& *final(product) == (Product {
                active_payments: (old(product).active_payments - 1) as u32,
                ..*old(product)
            })
            &&& plan@ == seq![
                (TokenOp::Transfer {
                    from: *payment_vault,
                    to: *receiver_vault,
                    authority: *payment_address,
                    amount: (*old(slot))->Some_0.token_price,
                }),
                (TokenOp::CloseAccount {
                    account: *payment_vault,
                    destination: *caller,
                    authority: *payment_address,
                }),
            ]
        },
{
    let payment = match slot {
        Some(p) => *p,
        None => {
            return Err(ErrorCode::OptionalAccountNotProvided);
        },
    };
    if !address_eq(caller, &payment.buyer) {
        return Err(ErrorCode::IncorrectAuthority);
    }
    if payment.refund_consumed_at < now {
        return Err(ErrorCode::TimeForRefundHasConsumed);
    }
    let mut plan: Vec<TokenOp> = Vec::new();
    plan.push(TokenOp::Transfer {
        from: *payment_vault,
        to: *receiver_vault,
        authority: *payment_address,
        amount: payment.token_price,
    });
    plan.push(TokenOp::CloseAccount {
        account: *payment_vault,
        destination: *caller,
        authority: *payment_address,
    });
    *slot = None;
    product.active_payments = product.active_payments - 1;
    proof {
        assert(plan@ =~= seq![
            (TokenOp::Transfer {
                from: *payment_vault,
                to: *receiver_vault,
                authority: *payment_address,
                amount: (*old(slot))->Some_0.token_price,
            }),
            (TokenOp::CloseAccount {
                account: *payment_vault,
                destination: *caller,
                authority: *payment_address,
            }),
        ]);
    }
    Ok(plan)
}

/// Releases an escrowed payment to its seller: allowed only for the seller,
/// and only from the refund deadline on. The escrowed amount is split by
/// the marketplace fee; the plan pays the fee collector first, then the
/// seller, and closes the vault with its rent going back to the buyer who
/// paid it. The record is gone and the product's open-payment counter drops
/// by one.
#[verifier::rlimit(50)]
pub fn withdraw_funds(
    slot: &mut Option<Payment>,
    product: &mut Product,
    caller: &Address,
    fee_basis_points: u16,
    payment_address: &Address,
    payment_vault: &Address,
    fee_collector_vault: &Address,
    receiver_vault: &Address,
    buyer: &Address,
    now: u64,
) -> (r: Result<Vec<TokenOp>, ErrorCode>)
    requires
        (*old(slot)) is Some ==> old(product).active_payments >= 1,
    ensures
        r is Err ==> *final(slot) == *old(slot) && *final(product) == *old(product),
        (*old(slot)) is None ==> r is Err && r->Err_0 == ErrorCode::OptionalAccountNotProvided,
        (*old(slot)) matches Some(p) ==> {
            &&& caller@ != p.seller@ ==> r is Err && r->Err_0 == ErrorCode::IncorrectAuthority
            &&& caller@ == p.seller@ && p.refund_consumed_at > now
                ==> r is Err && r->Err_0 == ErrorCode::CannotWithdrawYet
            &&& caller@ == p.seller@ && p.refund_consumed_at <= now
                && distribution(fee_basis_points, 0u16, false, FeePayer::Seller, p.token_price) is Err
                ==> r is Err && r->Err_0 == ErrorCode::NumericalOverflow
        },
        r is Ok <==> withdraw_succeeds(*old(slot), caller@, fee_basis_points, now),
        *final(slot) == slot_after_withdraw(*old(slot), caller@, fee_basis_points, now),
        r matches Ok(plan) ==> ({
            let price = (*old(slot))->Some_0.token_price;
            let split = distribution(fee_basis_points, 0u16, false, FeePayer::Seller, price);
            &&& *final(product) == (Product {
                active_payments: (old(product).active_payments - 1) as u32,
                ..*old(product)
            })
            &&& fee_basis_points > 0 ==> plan@ == seq![
                (TokenOp::Transfer {
                    from: *payment_vault,
                    to: *fee_collector_vault,
                    authority: *payment_address,
                    amount: split->Ok_0.0,
                }),
                (TokenOp::Transfer {
                    from: *payment_vault,
                    to: *receiver_vault,
                    authority: *payment_address,
                    amount: split->Ok_0.1,
                }),
                (TokenOp::CloseAccount {
                    account: *payment_vault,
                    destination: *buyer,
                    authority: *payment_address,
                }),
            ]
            &&& fee_basis_points == 0 ==> plan@ == seq![
                (TokenOp::Transfer {
                    from: *payment_vault,
                    to: *receiver_vault,
                    authority: *payment_address,
                    amount: price,
                }),
                (TokenOp::CloseAccount {
                    account: *payment_vault,
                    destination: *buyer,
                    authority: *payment_address,
                }),
            ]
        }),
{
    let payment = match slot {
        Some(p) => *p,
        None => {
            return Err(ErrorCode::OptionalAccountNotProvided);
        },
    };
    if !address_eq(caller, &payment.seller) {
        return Err(ErrorCode::IncorrectAuthority);
    }
    if payment.refund_consumed_at > now {
        return Err(ErrorCode::CannotWithdrawYet);
    }
    let mut plan: Vec<TokenOp> = Vec::new();
    if fee_basis_points > 0 {
        let (total_fee, seller_amount) = match get_withdraw_amounts(fee_basis_points, payment.token_price) {
            Ok(p) => p,
            Err(e) => {
                return Err(e);
            },
        };
        plan.push(TokenOp::Transfer {
            from: *payment_vault,
            to: *fee_collector_vault,
            authority: *payment_address,
            amount: total_fee,
        });
        plan.push(TokenOp::Transfer {
            from: *payment_vault,
            to: *receiver_vault,
            authority: *payment_address,
            amount: seller_amount,
        });
    } else {
        plan.push(TokenOp::Transfer {
            from: *payment_vault,
            to: *receiver_vault,
            authority: *payment_address,
            amount: payment.token_price,
        });
    }
    plan.push(TokenOp::CloseAccount {
        account: *payment_vault,
        destination: *buyer,
        authority: *payment_address,
    });
    *slot = None;
    product.active_payments = product.active_payments - 1;
    proof {
        let price = (*old(slot))->Some_0.token_price;
        let split = distribution(fee_basis_points, 0u16, false, FeePayer::Seller, price);
        if fee_basis_points == 0 {
            vstd::arithmetic::mul::lemma_mul_basics(price as int);
            vstd::arithmetic::div_mod::lemma_div_of0(crate::fees::BPS_SCALE as int);
            assert(crate::fees::bps_share(0u16, price) == 0);
        }
        assert(split is Ok);
        assert(withdraw_succeeds(*old(slot), caller@, fee_basis_points, now));
        assert(*slot == slot_after_withdraw(*old(slot), caller@, fee_basis_points, now));
        if fee_basis_points > 0 {
            assert(plan@ =~= seq![
                (TokenOp::Transfer {
                    from: *payment_vault,
                    to: *fee_collector_vault,
                    authority: *payment_address,
                    amount: split->Ok_0.0,
                }),
                (TokenOp::Transfer {
                    from: *payment_vault,
                    to: *receiver_vault,
                    authority: *payment_address,
                    amount: split->Ok_0.1,
                }),
                (TokenOp::CloseAccount {
                    account: *payment_vault,
                    destination: *buyer,
                    authority: *payment_address,
                }),
            ]);
        } else {
            assert(plan@ =~= seq![
                (TokenOp::Transfer {
                    from: *payment_vault,
                    to: *receiver_vault,
                    authority: *payment_address,
                    amount: price,
                }),
                (TokenOp::CloseAccount {
                    account: *payment_vault,
                    destination: *buyer,
                    authority: *payment_address,
                }),
            ]);
        }
    }
    Ok(plan)
}

} // verus!
