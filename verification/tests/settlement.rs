use brick::address::Address;
use brick::errors::ErrorCode;
use brick::fees::FeePayer;
use brick::ledger::TokenOp;
use brick::marketplace::{
    access_mint_seeds_vec, bounty_vault_seeds_vec, marketplace_seeds_vec, InitMarketplaceParams, Marketplace,
};
use brick::pda::derive_address;
use brick::product::{product_seeds_vec, InitProductParams, Product};
use brick::settlement::{register_buy, register_reward_buy, BuyAccounts};

fn addr(tag: u8) -> Address {
    Address([tag; 32])
}

const PID: u8 = 7;
const OPERATOR: u8 = 2;
const SELLER: u8 = 20;
const BUYER: u8 = 30;

fn marketplace(payment_is_discount: bool, rewards_enabled: bool, wildcard: bool, deliver: bool) -> (Marketplace, Address) {
    let pid = addr(PID);
    let signer = addr(OPERATOR);
    let reward_mint = addr(3);
    let discount_mint = if payment_is_discount { addr(5) } else { addr(6) };
    let (marketplace_address, _) = derive_address(&marketplace_seeds_vec(&signer), &pid).unwrap();
    let (access_mint, _) = derive_address(&access_mint_seeds_vec(&marketplace_address), &pid).unwrap();
    let (bounty_vault, _) =
        derive_address(&bounty_vault_seeds_vec(&marketplace_address, &reward_mint), &pid).unwrap();
    let params = InitMarketplaceParams {
        fee: 250,
        fee_reduction: 100,
        seller_reward: 200,
        buyer_reward: 100,
        deliver_token: deliver,
        rewards_enabled,
        allow_secondary: false,
        permissionless: true,
        fee_payer: FeePayer::Seller,
    };
    let mut m = Marketplace::initialize(
        params,
        &signer,
        &marketplace_address,
        &access_mint,
        &reward_mint,
        &discount_mint,
        &bounty_vault,
        &pid,
    )
    .unwrap();
    if wildcard {
        let (null_marker, _) = derive_address(&vec![b"null".to_vec()], &pid).unwrap();
        m.rewards_config.reward_mint = null_marker;
    }
    (m, marketplace_address)
}

/// A product of the marketplace, priced 100_000 in mint 5.
fn product(marketplace_address: &Address) -> (Product, Address) {
    let pid = addr(PID);
    let params = InitProductParams {
        first_id: vec![b'a'; 32],
        second_id: vec![b' '; 32],
        product_price: 100_000,
    };
    let (product_address, _) = derive_address(
        &product_seeds_vec(&params.first_id, &params.second_id, marketplace_address),
        &pid,
    )
    .unwrap();
    let m = marketplace(false, false, false, false).0;
    let (product_mint, _) = derive_address(
        &brick::product::product_mint_seeds_vec(&params.first_id, &params.second_id, marketplace_address),
        &pid,
    )
    .unwrap();
    let p = Product::create(
        params,
        &addr(SELLER),
        &m,
        marketplace_address,
        &product_address,
        &product_mint,
        &addr(5),
        None,
        &pid,
    )
    .unwrap();
    (p, product_address)
}

fn accounts(m_addr: &Address, p_addr: &Address, bounty: Option<Address>) -> BuyAccounts {
    BuyAccounts {
        signer: addr(BUYER),
        marketplace_address: *m_addr,
        product_address: *p_addr,
        buyer_transfer_vault: addr(31),
        seller_transfer_vault: addr(21),
        marketplace_transfer_vault: addr(11),
        seller: None,
        marketplace_auth: None,
        bounty_vault: bounty,
        seller_reward_vault: Some(addr(22)),
        buyer_reward_vault: Some(addr(32)),
        product_mint: Some(addr(4)),
        buyer_token_vault: Some(addr(33)),
    }
}

#[test]
fn discounted_sale_settles_fee_then_seller() {
    // Payment mint 5 is the discount mint: 150 bps of 100_000.
    let (m, m_addr) = marketplace(true, false, false, false);
    let (p, p_addr) = product(&m_addr);
    let acc = accounts(&m_addr, &p_addr, None);
    let plan = register_buy(&m, &p, &acc, 1, &addr(PID)).unwrap();
    assert_eq!(
        plan,
        vec![
            TokenOp::Transfer {
                from: addr(31),
                to: addr(11),
                authority: addr(BUYER),
                amount: 1_500,
            },
            TokenOp::Transfer {
                from: addr(31),
                to: addr(21),
                authority: addr(BUYER),
                amount: 98_500,
            },
        ]
    );
}

#[test]
fn undiscounted_sale_settles_the_full_fee() {
    let (m, m_addr) = marketplace(false, false, false, false);
    let (p, p_addr) = product(&m_addr);
    let acc = accounts(&m_addr, &p_addr, None);
    let plan = register_buy(&m, &p, &acc, 1, &addr(PID)).unwrap();
    assert_eq!(plan.len(), 2);
    assert_eq!(
        plan[0],
        TokenOp::Transfer {
            from: addr(31),
            to: addr(11),
            authority: addr(BUYER),
            amount: 2_500,
        }
    );
    assert_eq!(
        plan[1],
        TokenOp::Transfer {
            from: addr(31),
            to: addr(21),
            authority: addr(BUYER),
            amount: 97_500,
        }
    );
}

#[test]
fn wildcard_rewards_pay_both_sides_whatever_the_mint() {
    // Rewards on, trigger is the wildcard marker: 200/100 bps of 100_000.
    let (m, m_addr) = marketplace(false, true, true, false);
    let (mut p, p_addr) = product(&m_addr);
    let bounty = m.rewards_config.bounty_vaults[0].address;
    let acc = accounts(&m_addr, &p_addr, Some(bounty));
    let plan = register_buy(&m, &p, &acc, 1, &addr(PID)).unwrap();
    assert_eq!(plan.len(), 4);
    assert_eq!(
        plan[2],
        TokenOp::Transfer {
            from: bounty,
            to: addr(22),
            authority: m_addr,
            amount: 2_000,
        }
    );
    assert_eq!(
        plan[3],
        TokenOp::Transfer {
            from: bounty,
            to: addr(32),
            authority: m_addr,
            amount: 1_000,
        }
    );
    // The same bonuses with a different payment mint.
    p.seller_config.payment_mint = addr(6);
    let plan = register_buy(&m, &p, &acc, 1, &addr(PID)).unwrap();
    assert_eq!(plan.len(), 4);
    match plan[2] {
        TokenOp::Transfer { amount, .. } => assert_eq!(amount, 2_000),
        _ => panic!("expected a transfer"),
    }
    match plan[3] {
        TokenOp::Transfer { amount, .. } => assert_eq!(amount, 1_000),
        _ => panic!("expected a transfer"),
    }
}

#[test]
fn delivery_mints_the_bought_quantity() {
    let (m, m_addr) = marketplace(false, false, false, true);
    let (p, p_addr) = product(&m_addr);
    let acc = accounts(&m_addr, &p_addr, None);
    let plan = register_buy(&m, &p, &acc, 3, &addr(PID)).unwrap();
    // Three units: the fee split covers 300_000, then the mint.
    assert_eq!(plan.len(), 3);
    assert_eq!(
        plan[0],
        TokenOp::Transfer {
            from: addr(31),
            to: addr(11),
            authority: addr(BUYER),
            amount: 7_500,
        }
    );
    assert_eq!(
        plan[2],
        TokenOp::MintTo {
            mint: addr(4),
            to: addr(33),
            authority: p_addr,
            amount: 3,
        }
    );
}

#[test]
fn native_payment_settles_between_plain_accounts() {
    let (m, m_addr) = marketplace(false, false, false, false);
    let (mut p, p_addr) = product(&m_addr);
    p.seller_config.payment_mint = brick::settlement::native_mint();
    let mut acc = accounts(&m_addr, &p_addr, None);
    // The native path demands the plain seller and operator accounts.
    assert_eq!(
        register_buy(&m, &p, &acc, 1, &addr(PID)).err(),
        Some(ErrorCode::OptionalAccountNotProvided)
    );
    acc.seller = Some(addr(SELLER));
    acc.marketplace_auth = Some(addr(OPERATOR));
    let plan = register_buy(&m, &p, &acc, 1, &addr(PID)).unwrap();
    assert_eq!(
        plan,
        vec![
            TokenOp::NativeTransfer {
                from: addr(BUYER),
                to: addr(OPERATOR),
                amount: 2_500,
            },
            TokenOp::NativeTransfer {
                from: addr(BUYER),
                to: addr(SELLER),
                amount: 97_500,
            },
        ]
    );
}

#[test]
fn missing_conditional_accounts_abort_the_sale() {
    let (m, m_addr) = marketplace(false, true, true, false);
    let (p, p_addr) = product(&m_addr);
    // Rewards active but no bounty vault supplied.
    let acc = accounts(&m_addr, &p_addr, None);
    assert_eq!(
        register_buy(&m, &p, &acc, 1, &addr(PID)).err(),
        Some(ErrorCode::OptionalAccountNotProvided)
    );
    // No reward vaults either.
    let bounty = m.rewards_config.bounty_vaults[0].address;
    let mut acc = accounts(&m_addr, &p_addr, Some(bounty));
    acc.seller_reward_vault = None;
    assert_eq!(
        register_buy(&m, &p, &acc, 1, &addr(PID)).err(),
        Some(ErrorCode::OptionalAccountNotProvided)
    );
}

#[test]
fn oversized_order_overflows() {
    let (m, m_addr) = marketplace(false, false, false, false);
    let (p, p_addr) = product(&m_addr);
    let acc = accounts(&m_addr, &p_addr, None);
    assert_eq!(
        register_buy(&m, &p, &acc, u64::MAX, &addr(PID)).err(),
        Some(ErrorCode::NumericalOverflow)
    );
}

#[test]
fn substituted_marketplace_address_aborts_the_sale() {
    let (m, m_addr) = marketplace(false, false, false, false);
    let (p, p_addr) = product(&m_addr);
    let mut acc = accounts(&m_addr, &p_addr, None);
    acc.marketplace_address = addr(99);
    assert_eq!(
        register_buy(&m, &p, &acc, 1, &addr(PID)).err(),
        Some(ErrorCode::IncorrectSeeds)
    );
}

#[test]
fn reward_buy_demands_an_active_reward_system() {
    let (m, m_addr) = marketplace(false, false, false, false);
    let (p, p_addr) = product(&m_addr);
    let bounty = m.rewards_config.bounty_vaults[0].address;
    let acc = accounts(&m_addr, &p_addr, Some(bounty));
    assert_eq!(
        register_reward_buy(&m, &p, &acc, &addr(PID)).err(),
        Some(ErrorCode::ClosedPromotion)
    );
}

#[test]
fn reward_buy_settles_payment_bonuses_and_token() {
    let (m, m_addr) = marketplace(false, true, true, true);
    let (p, p_addr) = product(&m_addr);
    let bounty = m.rewards_config.bounty_vaults[0].address;
    let acc = accounts(&m_addr, &p_addr, Some(bounty));
    let plan = register_reward_buy(&m, &p, &acc, &addr(PID)).unwrap();
    assert_eq!(
        plan,
        vec![
            TokenOp::Transfer {
                from: addr(31),
                to: addr(21),
                authority: addr(BUYER),
                amount: 97_500,
            },
            TokenOp::Transfer {
                from: addr(31),
                to: addr(11),
                authority: addr(BUYER),
                amount: 2_500,
            },
            TokenOp::Transfer {
                from: bounty,
                to: addr(22),
                authority: m_addr,
                amount: 2_000,
            },
            TokenOp::Transfer {
                from: bounty,
                to: addr(32),
                authority: m_addr,
                amount: 1_000,
            },
            TokenOp::MintTo {
                mint: addr(4),
                to: addr(33),
                authority: p_addr,
                amount: 1,
            },
        ]
    );
}

#[test]
fn reward_buy_rejects_a_foreign_bounty_vault() {
    let (m, m_addr) = marketplace(false, true, true, false);
    let (p, p_addr) = product(&m_addr);
    let acc = accounts(&m_addr, &p_addr, Some(addr(77)));
    assert_eq!(
        register_reward_buy(&m, &p, &acc, &addr(PID)).err(),
        Some(ErrorCode::IncorrectSeeds)
    );
}
