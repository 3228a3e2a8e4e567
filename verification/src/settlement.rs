//! The settlement orchestrator: given a validated marketplace and product
//! (and, for reward or promotional sales, the governance and ledger
//! records), each handler re-checks the derived addresses it signs with,
//! computes the fee split and any bonuses, and returns the exact ordered
//! list of token-ledger operations of the sale. The embedding program
//! performs the list atomically; any failure reverts the whole call.

use vstd::prelude::*;
use crate::address::{address_eq, Address};
use crate::errors::ErrorCode;
use crate::fees::{bonus_amount, bps_share, distribution, effective_bps, lemma_share_le_amount, FeePayer};
use crate::governance::{active_promo_spec, governance_seeds, governance_seeds_vec, Governance};
use crate::ledger::TokenOp;
use crate::marketplace::{marketplace_seeds, marketplace_seeds_vec, rewards_active_spec, vault_bump_for, FeesConfig, Marketplace};
use crate::pda::{pda_matches, verify};
use crate::product::{product_seeds, product_seeds_vec, Product};
use crate::reward::Bonus;

verus! {

/// The byte view of the token ledger's native-currency mint address.
pub open spec fn native_mint_bytes() -> Seq<u8> {
    seq![
        131u8, 13u8, 252u8, 159u8, 222u8, 95u8, 230u8, 184u8, 170u8, 124u8, 4u8, 164u8, 118u8,
        233u8, 30u8, 138u8, 198u8, 187u8, 38u8, 74u8, 173u8, 144u8, 250u8, 25u8, 201u8, 223u8,
        73u8, 216u8, 92u8, 62u8, 91u8, 94u8,
    ]
}

/// The mint address that stands for the native currency: a payment in this
/// mint settles by native transfers between plain accounts instead of
/// token-account transfers.
pub fn native_mint() -> (r: Address)
    ensures
        r@ == native_mint_bytes(),
{
    let mut bytes: [u8; 32] = [0u8; 32];
    bytes[0] = 131u8;
    bytes[1] = 13u8;
    bytes[2] = 252u8;
    bytes[3] = 159u8;
    bytes[4] = 222u8;
    bytes[5] = 95u8;
    bytes[6] = 230u8;
    bytes[7] = 184u8;
    bytes[8] = 170u8;
    bytes[9] = 124u8;
    bytes[10] = 4u8;
    bytes[11] = 164u8;
    bytes[12] = 118u8;
    bytes[13] = 233u8;
    bytes[14] = 30u8;
    bytes[15] = 138u8;
    bytes[16] = 198u8;
    bytes[17] = 187u8;
    bytes[18] = 38u8;
    bytes[19] = 74u8;
    bytes[20] = 173u8;
    bytes[21] = 144u8;
    bytes[22] = 250u8;
    bytes[23] = 25u8;
    bytes[24] = 201u8;
    bytes[25] = 223u8;
    bytes[26] = 73u8;
    bytes[27] = 216u8;
    bytes[28] = 92u8;
    bytes[29] = 62u8;
    bytes[30] = 91u8;
    bytes[31] = 94u8;
    proof {
        assert(bytes@ =~= native_mint_bytes());
    }
    Address(bytes)
}

/// The accounts a marketplace sale names. The required ones are always
/// present; the optional ones are demanded exactly when the payment is
/// native, rewards are active, or a proof-of-payment token is delivered.
#[derive(Clone, Copy, Debug)]
pub struct BuyAccounts {
    /// The buyer's wallet, the transaction signer.
    pub signer: Address,
    /// The marketplace account's derived address; signs reward transfers.
    pub marketplace_address: Address,
    /// The product account's derived address; signs the delivery mint.
    pub product_address: Address,
    /// The buyer's token account in the payment mint.
    pub buyer_transfer_vault: Address,
    /// The seller's token account in the payment mint.
    pub seller_transfer_vault: Address,
    /// The fee collector: the operator's token account in the payment mint.
    pub marketplace_transfer_vault: Address,
    /// The seller's plain account; required on the native path.
    pub seller: Option<Address>,
    /// The operator's plain account; required on the native path.
    pub marketplace_auth: Option<Address>,
    /// The bounty vault funding rewards; required when rewards are active.
    pub bounty_vault: Option<Address>,
    /// The seller's reward vault; required for non-native reward payouts.
    pub seller_reward_vault: Option<Address>,
    /// The buyer's reward vault; required for non-native reward payouts.
    pub buyer_reward_vault: Option<Address>,
    /// The product's proof-of-payment mint; required when it is delivered.
    pub product_mint: Option<Address>,
    /// The buyer's token account for that mint; required when delivered.
    pub buyer_token_vault: Option<Address>,
}

/// The fee-split transfers of a sale: with a zero fee a single payment of
/// the whole amount to the seller; otherwise the fee share first, then the
/// counterparty share, both paid by the buyer.
pub open spec fn fee_split_ops(fees: FeesConfig, payment_mint: Seq<u8>, amount: u64, native: bool, acc: BuyAccounts) -> Seq<TokenOp> {
    let split = distribution(fees.fee, fees.fee_reduction, payment_mint == fees.discount_mint@, fees.fee_payer, amount);
    let fee_amount = split->Ok_0.0;
    let seller_amount = split->Ok_0.1;
    if native {
        if fees.fee > 0 {
            seq![
                (TokenOp::NativeTransfer {
                    from: acc.signer,
                    to: acc.marketplace_auth->Some_0,
                    amount: fee_amount,
                }),
                (TokenOp::NativeTransfer { from: acc.signer, to: acc.seller->Some_0, amount: seller_amount }),
            ]
        } else {
            seq![(TokenOp::NativeTransfer { from: acc.signer, to: acc.seller->Some_0, amount })]
        }
    } else {
        if fees.fee > 0 {
            seq![
                (TokenOp::Transfer {
                    from: acc.buyer_transfer_vault,
                    to: acc.marketplace_transfer_vault,
                    authority: acc.signer,
                    amount: fee_amount,
                }),
                (TokenOp::Transfer {
                    from: acc.buyer_transfer_vault,
                    to: acc.seller_transfer_vault,
                    authority: acc.signer,
                    amount: seller_amount,
                }),
            ]
        } else {
            seq![
                (TokenOp::Transfer {
                    from: acc.buyer_transfer_vault,
                    to: acc.seller_transfer_vault,
                    authority: acc.signer,
                    amount,
                }),
            ]
        }
    }
}

/// The reward transfers of a sale: the seller's and the buyer's bonus, both
/// funded from the bounty vault under the marketplace's signing authority.
pub open spec fn reward_ops(m: Marketplace, adjusted: u64, native: bool, acc: BuyAccounts) -> Seq<TokenOp> {
    let seller_bonus = bps_share(m.rewards_config.seller_reward, adjusted) as u64;
    let buyer_bonus = bps_share(m.rewards_config.buyer_reward, adjusted) as u64;
    if native {
        seq![
            (TokenOp::NativeTransfer {
                from: acc.bounty_vault->Some_0,
                to: acc.seller->Some_0,
                amount: seller_bonus,
            }),
            (TokenOp::NativeTransfer { from: acc.bounty_vault->Some_0, to: acc.signer, amount: buyer_bonus }),
        ]
    } else {
        seq![
            (TokenOp::Transfer {
                from: acc.bounty_vault->Some_0,
                to: acc.seller_reward_vault->Some_0,
                authority: acc.marketplace_address,
                amount: seller_bonus,
            }),
            (TokenOp::Transfer {
                from: acc.bounty_vault->Some_0,
                to: acc.buyer_reward_vault->Some_0,
                authority: acc.marketplace_address,
                amount: buyer_bonus,
            }),
        ]
    }
}

/// The delivery mint of a sale: `quantity` proof-of-payment tokens into the
/// buyer's vault under the product's signing authority.
pub open spec fn deliver_ops(quantity: u64, acc: BuyAccounts) -> Seq<TokenOp> {
    seq![
        (TokenOp::MintTo {
            mint: acc.product_mint->Some_0,
            to: acc.buyer_token_vault->Some_0,
            authority: acc.product_address,
            amount: quantity,
        }),
    ]
}

/// The optional accounts a sale demands, given what the sale does: the
/// plain seller and operator accounts on the native path, the bounty vault
/// and reward vaults when rewards are active, and the mint and the buyer's
/// token vault when a proof-of-payment token is delivered.
pub open spec fn register_buy_accounts_ok(m: Marketplace, p: Product, acc: BuyAccounts, program_id: Seq<u8>) -> bool {
    let native = p.seller_config.payment_mint@ == native_mint_bytes();
    let active = rewards_active_spec(m.rewards_config, p.seller_config.payment_mint@, program_id);
    &&& native ==> acc.marketplace_auth is Some && acc.seller is Some
    &&& active ==> acc.bounty_vault is Some
    &&& active && !native ==> acc.seller_reward_vault is Some && acc.buyer_reward_vault is Some
    &&& m.deliver_token ==> acc.product_mint is Some && acc.buyer_token_vault is Some
}

/// The whole plan of a sale: the fee split of the adjusted price, then the
/// rewards when they are active, then the delivery when the marketplace
/// delivers a token.
pub open spec fn register_buy_plan(m: Marketplace, p: Product, acc: BuyAccounts, quantity: u64, program_id: Seq<u8>) -> Seq<TokenOp> {
    let adjusted = (p.seller_config.product_price * quantity) as u64;
    let native = p.seller_config.payment_mint@ == native_mint_bytes();
    let active = rewards_active_spec(m.rewards_config, p.seller_config.payment_mint@, program_id);
    fee_split_ops(m.fees_config, p.seller_config.payment_mint@, adjusted, native, acc)
        + (if active { reward_ops(m, adjusted, native, acc) } else { Seq::empty() })
        + (if m.deliver_token { deliver_ops(quantity, acc) } else { Seq::empty() })
}

/// Appends a batch of operations to a plan.
fn push_ops(plan: &mut Vec<TokenOp>, ops: &Vec<TokenOp>)
    ensures
        final(plan)@ == old(plan)@ + ops@,
{
    let mut i: usize = 0;
    while i < ops.len()
        invariant
            i <= ops@.len(),
            plan@ == old(plan)@ + ops@.subrange(0, i as int),
        decreases ops@.len() - i,
    {
        plan.push(ops[i]);
        proof {
            assert(old(plan)@ + ops@.subrange(0, i as int + 1)
                =~= (old(plan)@ + ops@.subrange(0, i as int)).push(ops@[i as int]));
        }
        i += 1;
    }
    proof {
        assert(ops@.subrange(0, ops@.len() as int) =~= ops@);
    }
}

/// The fee split of a native-currency sale, as ledger operations.
fn handle_sol(fees: &FeesConfig, payment_mint: &Address, adjusted: u64, acc: &BuyAccounts) -> (r: Vec<TokenOp>)
    requires
        fees.fee <= 10000,
        fees.fee_reduction <= 10000,
        acc.marketplace_auth is Some,
        acc.seller is Some,
    ensures
        r@ == fee_split_ops(*fees, payment_mint@, adjusted, true, *acc),
{
    proof {
        lemma_share_le_amount(effective_bps(fees.fee, fees.fee_reduction, payment_mint@ == fees.discount_mint@), adjusted);
    }
    let mut plan: Vec<TokenOp> = Vec::new();
    let seller = match acc.seller {
        Some(a) => a,
        None => {
            proof {
                assert(false);
            }
            acc.signer
        },
    };
    let marketplace_auth = match acc.marketplace_auth {
        Some(a) => a,
        None => {
            proof {
                assert(false);
            }
            acc.signer
        },
    };
    if fees.fee > 0 {
        let (total_fee, seller_amount) = match Marketplace::calculate_transfer_distribution(fees, payment_mint, adjusted) {
            Ok(p) => p,
            Err(_) => {
                proof {
                    assert(false);
                }
                (0u64, 0u64)
            },
        };
        plan.push(TokenOp::NativeTransfer { from: acc.signer, to: marketplace_auth, amount: total_fee });
        plan.push(TokenOp::NativeTransfer { from: acc.signer, to: seller, amount: seller_amount });
    } else {
        plan.push(TokenOp::NativeTransfer { from: acc.signer, to: seller, amount: adjusted });
    }
    proof {
        assert(plan@ =~= fee_split_ops(*fees, payment_mint@, adjusted, true, *acc));
    }
    plan
}

/// The fee split of a token sale, as ledger operations.
fn handle_spl(fees: &FeesConfig, payment_mint: &Address, adjusted: u64, acc: &BuyAccounts) -> (r: Vec<TokenOp>)
    requires
        fees.fee <= 10000,
        fees.fee_reduction <= 10000,
    ensures
        r@ == fee_split_ops(*fees, payment_mint@, adjusted, false, *acc),
{
    proof {
        lemma_share_le_amount(effective_bps(fees.fee, fees.fee_reduction, payment_mint@ == fees.discount_mint@), adjusted);
    }
    let mut plan: Vec<TokenOp> = Vec::new();
    if fees.fee > 0 {
        let (total_fee, seller_amount) = match Marketplace::calculate_transfer_distribution(fees, payment_mint, adjusted) {
            Ok(p) => p,
            Err(_) => {
                proof {
                    assert(false);
                }
                (0u64, 0u64)
            },
        };
        plan.push(TokenOp::Transfer {
            from: acc.buyer_transfer_vault,
            to: acc.marketplace_transfer_vault,
            authority: acc.signer,
            amount: total_fee,
        });
        plan.push(TokenOp::Transfer {
            from: acc.buyer_transfer_vault,
            to: acc.seller_transfer_vault,
            authority: acc.signer,
            amount: seller_amount,
        });
    } else {
        plan.push(TokenOp::Transfer {
            from: acc.buyer_transfer_vault,
            to: acc.seller_transfer_vault,
            authority: acc.signer,
            amount: adjusted,
        });
    }
    proof {
        assert(plan@ =~= fee_split_ops(*fees, payment_mint@, adjusted, false, *acc));
    }
    plan
}

/// Settles a plain or multi-unit sale: validates the marketplace and
/// product addresses against their seeds, computes the adjusted price with
/// a checked multiply, splits it by the fee schedule, adds the reward
/// transfers when the reward system fires for the payment mint, and mints
/// the proof-of-payment tokens when the marketplace delivers them. The
/// returned plan holds the operations in exactly that order.
#[verifier::rlimit(50)]
pub fn register_buy(
    m: &Marketplace,
    p: &Product,
    acc: &BuyAccounts,
    quantity: u64,
    program_id: &Address,
) -> (r: Result<Vec<TokenOp>, ErrorCode>)
    requires
        m.wf(),
        p.wf(),
    ensures
        r is Ok <==> pda_matches(acc.marketplace_address@, marketplace_seeds(m.authority@), program_id@)
            && pda_matches(acc.product_address@, product_seeds(p.first_id@, p.second_id@, p.marketplace@), program_id@)
            && p.seller_config.product_price * quantity <= u64::MAX
            && register_buy_accounts_ok(*m, *p, *acc, program_id@),
        !(pda_matches(acc.marketplace_address@, marketplace_seeds(m.authority@), program_id@)
            && pda_matches(acc.product_address@, product_seeds(p.first_id@, p.second_id@, p.marketplace@), program_id@))
            ==> r is Err && r->Err_0 == ErrorCode::IncorrectSeeds,
        pda_matches(acc.marketplace_address@, marketplace_seeds(m.authority@), program_id@)
            && pda_matches(acc.product_address@, product_seeds(p.first_id@, p.second_id@, p.marketplace@), program_id@)
            && p.seller_config.product_price * quantity > u64::MAX
            ==> r is Err && r->Err_0 == ErrorCode::NumericalOverflow,
        pda_matches(acc.marketplace_address@, marketplace_seeds(m.authority@), program_id@)
            && pda_matches(acc.product_address@, product_seeds(p.first_id@, p.second_id@, p.marketplace@), program_id@)
            && p.seller_config.product_price * quantity <= u64::MAX
            && !register_buy_accounts_ok(*m, *p, *acc, program_id@)
            ==> r is Err && r->Err_0 == ErrorCode::OptionalAccountNotProvided,
        r matches Ok(plan) ==> plan@ == register_buy_plan(*m, *p, *acc, quantity, program_id@),
{
    let m_seeds = marketplace_seeds_vec(&m.authority);
    if !verify(&acc.marketplace_address, &m_seeds, program_id) {
        return Err(ErrorCode::IncorrectSeeds);
    }
    let p_seeds = product_seeds_vec(&p.first_id, &p.second_id, &p.marketplace);
    if !verify(&acc.product_address, &p_seeds, program_id) {
        return Err(ErrorCode::IncorrectSeeds);
    }
    if quantity != 0 && p.seller_config.product_price > u64::MAX / quantity {
        proof {
            assert(p.seller_config.product_price * quantity > u64::MAX) by (nonlinear_arith)
                requires
                    quantity >= 1,
                    p.seller_config.product_price > u64::MAX as int / quantity as int,
            ;
        }
        return Err(ErrorCode::NumericalOverflow);
    }
    proof {
        if quantity == 0 {
            vstd::arithmetic::mul::lemma_mul_basics(p.seller_config.product_price as int);
        } else {
            assert(p.seller_config.product_price * quantity <= u64::MAX) by (nonlinear_arith)
                requires
                    quantity >= 1,
                    p.seller_config.product_price <= u64::MAX as int / quantity as int,
            ;
        }
    }
    let adjusted: u64 = p.seller_config.product_price * quantity;
    let native = address_eq(&p.seller_config.payment_mint, &native_mint());
    if native && (acc.marketplace_auth.is_none() || acc.seller.is_none()) {
        return Err(ErrorCode::OptionalAccountNotProvided);
    }
    let active = Marketplace::is_rewards_active(&m.rewards_config, &p.seller_config.payment_mint, program_id);
    if active {
        if acc.bounty_vault.is_none() {
            return Err(ErrorCode::OptionalAccountNotProvided);
        }
        if !native && (acc.seller_reward_vault.is_none() || acc.buyer_reward_vault.is_none()) {
            return Err(ErrorCode::OptionalAccountNotProvided);
        }
    }
    if m.deliver_token && (acc.product_mint.is_none() || acc.buyer_token_vault.is_none()) {
        return Err(ErrorCode::OptionalAccountNotProvided);
    }
    let mut plan: Vec<TokenOp> = if native {
        handle_sol(&m.fees_config, &p.seller_config.payment_mint, adjusted, acc)
    } else {
        handle_spl(&m.fees_config, &p.seller_config.payment_mint, adjusted, acc)
    };
    if active {
        let reward_batch = build_reward_ops(m, adjusted, native, acc);
        push_ops(&mut plan, &reward_batch);
    }
    if m.deliver_token {
        let deliver_batch = build_deliver_ops(quantity, acc);
        push_ops(&mut plan, &deliver_batch);
    }
    proof {
        assert(plan@ =~= register_buy_plan(*m, *p, *acc, quantity, program_id@));
    }
    Ok(plan)
}

/// The whole plan of a reward-bearing sale of one unit: the seller's share,
/// the fee, both bonuses funded from the bounty vault under the
/// marketplace's signing authority, and one proof-of-payment token.
pub open spec fn reward_buy_plan(m: Marketplace, p: Product, acc: BuyAccounts) -> Seq<TokenOp> {
    let price = p.seller_config.product_price;
    let split = distribution(
        m.fees_config.fee,
        m.fees_config.fee_reduction,
        p.seller_config.payment_mint@ == m.fees_config.discount_mint@,
        m.fees_config.fee_payer,
        price,
    );
    let seller_bonus = bps_share(m.rewards_config.seller_reward, price) as u64;
    let buyer_bonus = bps_share(m.rewards_config.buyer_reward, price) as u64;
    seq![
        (TokenOp::Transfer {
            from: acc.buyer_transfer_vault,
            to: acc.seller_transfer_vault,
            authority: acc.signer,
            amount: split->Ok_0.1,
        }),
        (TokenOp::Transfer {
            from: acc.buyer_transfer_vault,
            to: acc.marketplace_transfer_vault,
            authority: acc.signer,
            amount: split->Ok_0.0,
        }),
        (TokenOp::Transfer {
            from: acc.bounty_vault->Some_0,
            to: acc.seller_reward_vault->Some_0,
            authority: acc.marketplace_address,
            amount: seller_bonus,
        }),
        (TokenOp::Transfer {
            from: acc.bounty_vault->Some_0,
            to: acc.buyer_reward_vault->Some_0,
            authority: acc.marketplace_address,
            amount: buyer_bonus,
        }),
        (TokenOp::MintTo {
            mint: acc.product_mint->Some_0,
            to: acc.buyer_token_vault->Some_0,
            authority: acc.product_address,
            amount: 1u64,
        }),
    ]
}

/// The accounts a reward-bearing sale demands beyond the required ones:
/// the bounty vault, both reward vaults, the product mint and the buyer's
/// token vault.
pub open spec fn reward_buy_accounts_ok(acc: BuyAccounts) -> bool {
    &&& acc.bounty_vault is Some
    &&& acc.seller_reward_vault is Some
    &&& acc.buyer_reward_vault is Some
    &&& acc.product_mint is Some
    &&& acc.buyer_token_vault is Some
}

/// Settles a reward-bearing sale of one unit: validates the marketplace
/// and product addresses and the bounty vault's membership in the
/// marketplace's vault list, demands the reward accounts, and fails with
/// `ClosedPromotion` unless the reward system fires for the payment mint.
/// The plan pays the seller first, then the fee, then both bonuses, and
/// mints one proof-of-payment token.
#[verifier::rlimit(50)]
pub fn register_reward_buy(
    m: &Marketplace,
    p: &Product,
    acc: &BuyAccounts,
    program_id: &Address,
) -> (r: Result<Vec<TokenOp>, ErrorCode>)
    requires
        m.wf(),
        p.wf(),
    ensures
        r is Ok <==> pda_matches(acc.marketplace_address@, marketplace_seeds(m.authority@), program_id@)
            && pda_matches(acc.product_address@, product_seeds(p.first_id@, p.second_id@, p.marketplace@), program_id@)
            && reward_buy_accounts_ok(*acc)
            && vault_bump_for(m.rewards_config.bounty_vaults@, acc.bounty_vault->Some_0@) != 0
            && rewards_active_spec(m.rewards_config, p.seller_config.payment_mint@, program_id@),
        r matches Ok(plan) ==> plan@ == reward_buy_plan(*m, *p, *acc),
        !(pda_matches(acc.marketplace_address@, marketplace_seeds(m.authority@), program_id@)
            && pda_matches(acc.product_address@, product_seeds(p.first_id@, p.second_id@, p.marketplace@), program_id@))
            ==> r is Err && r->Err_0 == ErrorCode::IncorrectSeeds,
        pda_matches(acc.marketplace_address@, marketplace_seeds(m.authority@), program_id@)
            && pda_matches(acc.product_address@, product_seeds(p.first_id@, p.second_id@, p.marketplace@), program_id@)
            && !reward_buy_accounts_ok(*acc)
            ==> r is Err && r->Err_0 == ErrorCode::OptionalAccountNotProvided,
        pda_matches(acc.marketplace_address@, marketplace_seeds(m.authority@), program_id@)
            && pda_matches(acc.product_address@, product_seeds(p.first_id@, p.second_id@, p.marketplace@), program_id@)
            && reward_buy_accounts_ok(*acc)
            && vault_bump_for(m.rewards_config.bounty_vaults@, acc.bounty_vault->Some_0@) == 0
            ==> r is Err && r->Err_0 == ErrorCode::IncorrectSeeds,
        pda_matches(acc.marketplace_address@, marketplace_seeds(m.authority@), program_id@)
            && pda_matches(acc.product_address@, product_seeds(p.first_id@, p.second_id@, p.marketplace@), program_id@)
            && reward_buy_accounts_ok(*acc)
            && vault_bump_for(m.rewards_config.bounty_vaults@, acc.bounty_vault->Some_0@) != 0
            && !rewards_active_spec(m.rewards_config, p.seller_config.payment_mint@, program_id@)
            ==> r is Err && r->Err_0 == ErrorCode::ClosedPromotion,
{
    let m_seeds = marketplace_seeds_vec(&m.authority);
    if !verify(&acc.marketplace_address, &m_seeds, program_id) {
        return Err(ErrorCode::IncorrectSeeds);
    }
    let p_seeds = product_seeds_vec(&p.first_id, &p.second_id, &p.marketplace);
    if !verify(&acc.product_address, &p_seeds, program_id) {
        return Err(ErrorCode::IncorrectSeeds);
    }
    let (bounty_vault, seller_reward_vault, buyer_reward_vault, product_mint, buyer_token_vault) = match (
        acc.bounty_vault,
        acc.seller_reward_vault,
        acc.buyer_reward_vault,
        acc.product_mint,
        acc.buyer_token_vault,
    ) {
        (Some(a), Some(b), Some(c), Some(d), Some(e)) => (a, b, c, d, e),
        _ => {
            return Err(ErrorCode::OptionalAccountNotProvided);
        },
    };
    if Marketplace::get_bump(&bounty_vault, &m.rewards_config.bounty_vaults) == 0 {
        return Err(ErrorCode::IncorrectSeeds);
    }
    if !Marketplace::is_rewards_active(&m.rewards_config, &p.seller_config.payment_mint, program_id) {
        return Err(ErrorCode::ClosedPromotion);
    }
    proof {
        lemma_share_le_amount(
            effective_bps(
                m.fees_config.fee,
                m.fees_config.fee_reduction,
                p.seller_config.payment_mint@ == m.fees_config.discount_mint@,
            ),
            p.seller_config.product_price,
        );
    }
    let (total_fee, seller_amount) = match Marketplace::calculate_transfer_distribution(
        &m.fees_config,
        &p.seller_config.payment_mint,
        p.seller_config.product_price,
    ) {
        Ok(pair) => pair,
        Err(_) => {
            proof {
                assert(false);
            }
            (0u64, 0u64)
        },
    };
    let seller_bonus = bonus_amount(m.rewards_config.seller_reward, p.seller_config.product_price);
    let buyer_bonus = bonus_amount(m.rewards_config.buyer_reward, p.seller_config.product_price);
    proof {
        lemma_share_le_amount(m.rewards_config.seller_reward, p.seller_config.product_price);
        lemma_share_le_amount(m.rewards_config.buyer_reward, p.seller_config.product_price);
    }
    let mut plan: Vec<TokenOp> = Vec::new();
    plan.push(TokenOp::Transfer {
        from: acc.buyer_transfer_vault,
        to: acc.seller_transfer_vault,
        authority: acc.signer,
        amount: seller_amount,
    });
    plan.push(TokenOp::Transfer {
        from: acc.buyer_transfer_vault,
        to: acc.marketplace_transfer_vault,
        authority: acc.signer,
        amount: total_fee,
    });
    plan.push(TokenOp::Transfer {
        from: bounty_vault,
        to: seller_reward_vault,
        authority: acc.marketplace_address,
        amount: seller_bonus,
    });
    plan.push(TokenOp::Transfer {
        from: bounty_vault,
        to: buyer_reward_vault,
        authority: acc.marketplace_address,
        amount: buyer_bonus,
    });
    plan.push(TokenOp::MintTo {
        mint: product_mint,
        to: buyer_token_vault,
        authority: acc.product_address,
        amount: 1u64,
    });
    proof {
        assert(plan@ =~= reward_buy_plan(*m, *p, *acc));
    }
    Ok(plan)
}

/// The accounts a promotional sale names.
#[derive(Clone, Copy, Debug)]
pub struct PromoAccounts {
    /// The buyer's wallet, the transaction signer.
    pub signer: Address,
    /// The governance account's derived address; signs the bonus transfers.
    pub governance_address: Address,
    /// The fee collector: the governance authority's token account.
    pub governance_transfer_vault: Address,
    /// The vault funding both bonuses, owned by the governance address.
    pub governance_bonus_vault: Address,
    /// The seller's token account in the governance mint.
    pub product_authority_transfer_vault: Address,
    /// The buyer's token account in the governance mint.
    pub buyer_transfer_vault: Address,
    /// The buyer's bonus vault.
    pub buyer_bonus_vault: Address,
    /// The seller's bonus vault.
    pub product_authority_bonus_vault: Address,
}

/// The four transfers of a promotional sale: the seller's share and the fee
/// (always computed with the governance-mint discount, since the promotion
/// only runs in that mint), then the seller's and the buyer's bonus from
/// the governance bonus vault under the governance signing authority.
pub open spec fn promo_ops(g: Governance, price: u64, acc: PromoAccounts) -> Seq<TokenOp> {
    let split = distribution(g.fee, g.fee_reduction, true, FeePayer::Seller, price);
    let seller_bonus = bps_share(g.seller_promo, price) as u64;
    let buyer_bonus = bps_share(g.buyer_promo, price) as u64;
    seq![
        (TokenOp::Transfer {
            from: acc.buyer_transfer_vault,
            to: acc.product_authority_transfer_vault,
            authority: acc.signer,
            amount: split->Ok_0.1,
        }),
        (TokenOp::Transfer {
            from: acc.buyer_transfer_vault,
            to: acc.governance_transfer_vault,
            authority: acc.signer,
            amount: split->Ok_0.0,
        }),
        (TokenOp::Transfer {
            from: acc.governance_bonus_vault,
            to: acc.product_authority_bonus_vault,
            authority: acc.governance_address,
            amount: seller_bonus,
        }),
        (TokenOp::Transfer {
            from: acc.governance_bonus_vault,
            to: acc.buyer_bonus_vault,
            authority: acc.governance_address,
            amount: buyer_bonus,
        }),
    ]
}

/// The transfers of a promotional sale together with the two bonus amounts
/// that the settlement accrues to the participants' ledgers.
pub fn apply_promo_distribution(g: &Governance, price: u64, acc: &PromoAccounts) -> (r: (Vec<TokenOp>, u64, u64))
    requires
        g.wf(),
    ensures
        r.0@ == promo_ops(*g, price, *acc),
        r.1 == bps_share(g.seller_promo, price),
        r.2 == bps_share(g.buyer_promo, price),
{
    proof {
        lemma_share_le_amount(effective_bps(g.fee, g.fee_reduction, true), price);
    }
    let (total_fee, seller_amount) = match Governance::calculate_transfer_distribution(
        g.fee,
        g.fee_reduction,
        &g.governance_mint,
        &g.governance_mint,
        price,
    ) {
        Ok(pair) => pair,
        Err(_) => {
            proof {
                assert(false);
            }
            (0u64, 0u64)
        },
    };
    let seller_bonus = bonus_amount(g.seller_promo, price);
    let buyer_bonus = bonus_amount(g.buyer_promo, price);
    let mut plan: Vec<TokenOp> = Vec::new();
    plan.push(TokenOp::Transfer {
        from: acc.buyer_transfer_vault,
        to: acc.product_authority_transfer_vault,
        authority: acc.signer,
        amount: seller_amount,
    });
    plan.push(TokenOp::Transfer {
        from: acc.buyer_transfer_vault,
        to: acc.governance_transfer_vault,
        authority: acc.signer,
        amount: total_fee,
    });
    plan.push(TokenOp::Transfer {
        from: acc.governance_bonus_vault,
        to: acc.product_authority_bonus_vault,
        authority: acc.governance_address,
        amount: seller_bonus,
    });
    plan.push(TokenOp::Transfer {
        from: acc.governance_bonus_vault,
        to: acc.buyer_bonus_vault,
        authority: acc.governance_address,
        amount: buyer_bonus,
    });
    proof {
        assert(plan@ =~= promo_ops(*g, price, *acc));
    }
    (plan, seller_bonus, buyer_bonus)
}

/// Settles a promotional sale: validates the governance signing address
/// against its seeds, fails with `ClosedPromotion` unless the promotion is
/// active for the product's payment mint, computes the four transfers and
/// accrues both bonuses to the participants' ledgers — all or nothing: on
/// any failure neither ledger changes.
#[verifier::rlimit(50)]
pub fn register_promo_buy(
    g: &Governance,
    p: &Product,
    acc: &PromoAccounts,
    seller_bonus_ledger: &mut Bonus,
    buyer_bonus_ledger: &mut Bonus,
    program_id: &Address,
) -> (r: Result<Vec<TokenOp>, ErrorCode>)
    requires
        g.wf(),
    ensures
        r is Err ==> *final(seller_bonus_ledger) == *old(seller_bonus_ledger)
            && *final(buyer_bonus_ledger) == *old(buyer_bonus_ledger),
        r is Ok <==> pda_matches(acc.governance_address@, governance_seeds(g.governance_name@), program_id@)
            && active_promo_spec(*g, p.seller_config.payment_mint@)
            && old(seller_bonus_ledger).amount + bps_share(g.seller_promo, p.seller_config.product_price) <= u64::MAX
            && old(buyer_bonus_ledger).amount + bps_share(g.buyer_promo, p.seller_config.product_price) <= u64::MAX,
        !pda_matches(acc.governance_address@, governance_seeds(g.governance_name@), program_id@)
            ==> r is Err && r->Err_0 == ErrorCode::IncorrectSeeds,
        pda_matches(acc.governance_address@, governance_seeds(g.governance_name@), program_id@)
            && !active_promo_spec(*g, p.seller_config.payment_mint@)
            ==> r is Err && r->Err_0 == ErrorCode::ClosedPromotion,
        pda_matches(acc.governance_address@, governance_seeds(g.governance_name@), program_id@)
            && active_promo_spec(*g, p.seller_config.payment_mint@) && r is Err
            ==> r->Err_0 == ErrorCode::NumericalOverflow,
        r matches Ok(plan) ==> {
            &&& plan@ == promo_ops(*g, p.seller_config.product_price, *acc)
            &&& final(seller_bonus_ledger).amount
                == old(seller_bonus_ledger).amount + bps_share(g.seller_promo, p.seller_config.product_price)
            &&& final(buyer_bonus_ledger).amount
                == old(buyer_bonus_ledger).amount + bps_share(g.buyer_promo, p.seller_config.product_price)
            &&& *final(seller_bonus_ledger) == (Bonus {
                amount: final(seller_bonus_ledger).amount,
                ..*old(seller_bonus_ledger)
            })
            &&& *final(buyer_bonus_ledger) == (Bonus {
                amount: final(buyer_bonus_ledger).amount,
                ..*old(buyer_bonus_ledger)
            })
        },
{
    let g_seeds = governance_seeds_vec(&g.governance_name);
    if !verify(&acc.governance_address, &g_seeds, program_id) {
        return Err(ErrorCode::IncorrectSeeds);
    }
    if !Governance::is_active_promo(g, &p.seller_config.payment_mint) {
        return Err(ErrorCode::ClosedPromotion);
    }
    let (plan, seller_bonus, buyer_bonus) = apply_promo_distribution(g, p.seller_config.product_price, acc);
    if seller_bonus > u64::MAX - seller_bonus_ledger.amount {
        return Err(ErrorCode::NumericalOverflow);
    }
    if buyer_bonus > u64::MAX - buyer_bonus_ledger.amount {
        return Err(ErrorCode::NumericalOverflow);
    }
    seller_bonus_ledger.amount = seller_bonus_ledger.amount + seller_bonus;
    buyer_bonus_ledger.amount = buyer_bonus_ledger.amount + buyer_bonus;
    Ok(plan)
}

/// The reward transfers of a sale, as ledger operations.
fn build_reward_ops(m: &Marketplace, adjusted: u64, native: bool, acc: &BuyAccounts) -> (r: Vec<TokenOp>)
    requires
        m.wf(),
        acc.bounty_vault is Some,
        native ==> acc.seller is Some,
        !native ==> acc.seller_reward_vault is Some && acc.buyer_reward_vault is Some,
    ensures
        r@ == reward_ops(*m, adjusted, native, *acc),
{
    let seller_bonus = bonus_amount(m.rewards_config.seller_reward, adjusted);
    let buyer_bonus = bonus_amount(m.rewards_config.buyer_reward, adjusted);
    proof {
        lemma_share_le_amount(m.rewards_config.seller_reward, adjusted);
        lemma_share_le_amount(m.rewards_config.buyer_reward, adjusted);
    }
    let bounty_vault = match acc.bounty_vault {
        Some(a) => a,
        None => {
            proof {
                assert(false);
            }
            acc.signer
        },
    };
    let mut plan: Vec<TokenOp> = Vec::new();
    if native {
        let seller = match acc.seller {
            Some(a) => a,
            None => {
                proof {
                    assert(false);
                }
                acc.signer
            },
        };
        plan.push(TokenOp::NativeTransfer { from: bounty_vault, to: seller, amount: seller_bonus });
        plan.push(TokenOp::NativeTransfer { from: bounty_vault, to: acc.signer, amount: buyer_bonus });
    } else {
        let seller_reward_vault = match acc.seller_reward_vault {
            Some(a) => a,
            None => {
                proof {
                    assert(false);
                }
                acc.signer
            },
        };
        let buyer_reward_vault = match acc.buyer_reward_vault {
            Some(a) => a,
            None => {
                proof {
                    assert(false);
                }
                acc.signer
            },
        };
        plan.push(TokenOp::Transfer {
            from: bounty_vault,
            to: seller_reward_vault,
            authority: acc.marketplace_address,
            amount: seller_bonus,
        });
        plan.push(TokenOp::Transfer {
            from: bounty_vault,
            to: buyer_reward_vault,
            authority: acc.marketplace_address,
            amount: buyer_bonus,
        });
    }
    proof {
        assert(plan@ =~= reward_ops(*m, adjusted, native, *acc));
    }
    plan
}

/// The delivery mint of a sale, as ledger operations.
fn build_deliver_ops(quantity: u64, acc: &BuyAccounts) -> (r: Vec<TokenOp>)
    requires
        acc.product_mint is Some,
        acc.buyer_token_vault is Some,
    ensures
        r@ == deliver_ops(quantity, *acc),
{
    let product_mint = match acc.product_mint {
        Some(a) => a,
        None => {
            proof {
                assert(false);
            }
            acc.signer
        },
    };
    let buyer_token_vault = match acc.buyer_token_vault {
        Some(a) => a,
        None => {
            proof {
                assert(false);
            }
            acc.signer
        },
    };
    let mut plan: Vec<TokenOp> = Vec::new();
    plan.push(TokenOp::MintTo {
        mint: product_mint,
        to: buyer_token_vault,
        authority: acc.product_address,
        amount: quantity,
    });
    proof {
        assert(plan@ =~= deliver_ops(quantity, *acc));
    }
    plan
}

} // verus!
