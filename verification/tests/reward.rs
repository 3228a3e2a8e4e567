use brick::address::Address;
use brick::errors::ErrorCode;
use brick::fees::FeePayer;
use brick::ledger::TokenOp;
use brick::marketplace::{
    access_mint_seeds_vec, bounty_vault_seeds_vec, marketplace_seeds_vec, InitMarketplaceParams, Marketplace,
};
use brick::pda::derive_address;
use brick::reward::{
    reward_seeds_vec, reward_vault_seeds_vec, withdraw_reward, Reward,
};

fn addr(tag: u8) -> Address {
    Address([tag; 32])
}

const PID: u8 = 7;

fn marketplace(seller_reward: u16, buyer_reward: u16) -> (Marketplace, Address) {
    let pid = addr(PID);
    let signer = addr(2);
    let (marketplace_address, _) = derive_address(&marketplace_seeds_vec(&signer), &pid).unwrap();
    let (access_mint, _) = derive_address(&access_mint_seeds_vec(&marketplace_address), &pid).unwrap();
    let (bounty_vault, _) =
        derive_address(&bounty_vault_seeds_vec(&marketplace_address, &addr(3)), &pid).unwrap();
    let params = InitMarketplaceParams {
        fee: 0,
        fee_reduction: 0,
        seller_reward,
        buyer_reward,
        deliver_token: false,
        rewards_enabled: true,
        allow_secondary: false,
        permissionless: true,
        fee_payer: FeePayer::Seller,
    };
    let m = Marketplace::initialize(
        params,
        &signer,
        &marketplace_address,
        &access_mint,
        &addr(3),
        &addr(6),
        &bounty_vault,
        &pid,
    )
    .unwrap();
    (m, marketplace_address)
}

fn ledger(m_addr: &Address) -> (Reward, Address) {
    let pid = addr(PID);
    let participant = addr(30);
    let (reward_address, _) = derive_address(&reward_seeds_vec(&participant, m_addr), &pid).unwrap();
    let (reward_vault, _) =
        derive_address(&reward_vault_seeds_vec(&participant, m_addr, &addr(3)), &pid).unwrap();
    let w = Reward::init(&participant, m_addr, &reward_address, &addr(3), &reward_vault, &pid).unwrap();
    (w, reward_address)
}

#[test]
fn init_records_participant_and_first_vault() {
    let (_, m_addr) = marketplace(200, 100);
    let (w, _) = ledger(&m_addr);
    assert_eq!(w.authority.0, [30u8; 32]);
    assert_eq!(w.marketplace.0, m_addr.0);
    assert_eq!(w.reward_vaults.len(), 1);
}

#[test]
fn init_rejects_a_substituted_vault() {
    let (_, m_addr) = marketplace(200, 100);
    let pid = addr(PID);
    let participant = addr(30);
    let (reward_address, _) = derive_address(&reward_seeds_vec(&participant, &m_addr), &pid).unwrap();
    let r = Reward::init(&participant, &m_addr, &reward_address, &addr(3), &addr(66), &pid);
    assert_eq!(r.err(), Some(ErrorCode::IncorrectSeeds));
}

#[test]
fn vaults_are_bounded_by_capacity() {
    let (_, m_addr) = marketplace(200, 100);
    let (mut w, reward_address) = ledger(&m_addr);
    let participant = addr(30);
    for mint_tag in 10u8..14u8 {
        w.add_reward_vault(&participant, &reward_address, &m_addr, &addr(mint_tag), &addr(PID))
            .unwrap();
    }
    assert_eq!(w.reward_vaults.len(), 5);
    assert_eq!(
        w.add_reward_vault(&participant, &reward_address, &m_addr, &addr(14), &addr(PID))
            .err(),
        Some(ErrorCode::CapacityExceeded)
    );
    assert_eq!(
        w.add_reward_vault(&addr(9), &reward_address, &m_addr, &addr(14), &addr(PID))
            .err(),
        Some(ErrorCode::IncorrectAuthority)
    );
}

#[test]
fn reward_payout_waits_for_the_promotion_to_close() {
    let (open, m_addr) = marketplace(200, 100);
    let (w, reward_address) = ledger(&m_addr);
    let vault = w.reward_vaults[0].address;
    let mut slot = Some(w);
    assert_eq!(
        withdraw_reward(&open, &mut slot, &addr(30), &reward_address, &vault, 5_000, &addr(50)).err(),
        Some(ErrorCode::OpenPromotion)
    );
    let (closed, _) = marketplace(0, 0);
    let plan =
        withdraw_reward(&closed, &mut slot, &addr(30), &reward_address, &vault, 5_000, &addr(50)).unwrap();
    assert!(slot.is_none());
    assert_eq!(
        plan,
        vec![
            TokenOp::Transfer {
                from: vault,
                to: addr(50),
                authority: reward_address,
                amount: 5_000,
            },
            TokenOp::CloseAccount {
                account: vault,
                destination: addr(30),
                authority: reward_address,
            },
        ]
    );
    assert_eq!(
        withdraw_reward(&closed, &mut slot, &addr(30), &reward_address, &vault, 0, &addr(50)).err(),
        Some(ErrorCode::OptionalAccountNotProvided)
    );
}
