use brick::address::Address;
use brick::errors::ErrorCode;
use brick::fees::FeePayer;
use brick::marketplace::{
    access_mint_seeds_vec, bounty_vault_seeds_vec, marketplace_seeds_vec, InitMarketplaceParams, Marketplace,
};
use brick::pda::derive_address;
use brick::product::{product_mint_seeds_vec, product_seeds_vec, InitProductParams, Product};
use brick::utils::get_splitted_id;

fn addr(tag: u8) -> Address {
    Address([tag; 32])
}

const PID: u8 = 7;

fn marketplace(permissionless: bool) -> (Marketplace, Address) {
    let pid = addr(PID);
    let signer = addr(2);
    let (marketplace_address, _) = derive_address(&marketplace_seeds_vec(&signer), &pid).unwrap();
    let (access_mint, _) = derive_address(&access_mint_seeds_vec(&marketplace_address), &pid).unwrap();
    let (bounty_vault, _) =
        derive_address(&bounty_vault_seeds_vec(&marketplace_address, &addr(3)), &pid).unwrap();
    let params = InitMarketplaceParams {
        fee: 250,
        fee_reduction: 100,
        seller_reward: 0,
        buyer_reward: 0,
        deliver_token: false,
        rewards_enabled: false,
        allow_secondary: false,
        permissionless,
        fee_payer: FeePayer::Seller,
    };
    let m = Marketplace::initialize(
        params,
        &signer,
        &marketplace_address,
        &access_mint,
        &addr(3),
        &addr(6),
        &bounty_vault,
        &pid,
    )
    .unwrap();
    (m, marketplace_address)
}

fn id_params() -> InitProductParams {
    InitProductParams {
        first_id: vec![b'd'; 32],
        second_id: vec![b' '; 32],
        product_price: 42,
    }
}

fn derived_addresses(params: &InitProductParams, marketplace_address: &Address) -> (Address, Address) {
    let pid = addr(PID);
    let (product_address, _) = derive_address(
        &product_seeds_vec(&params.first_id, &params.second_id, marketplace_address),
        &pid,
    )
    .unwrap();
    let (product_mint, _) = derive_address(
        &product_mint_seeds_vec(&params.first_id, &params.second_id, marketplace_address),
        &pid,
    )
    .unwrap();
    (product_address, product_mint)
}

#[test]
fn create_records_the_listing() {
    let (m, m_addr) = marketplace(true);
    let params = id_params();
    let (product_address, product_mint) = derived_addresses(&params, &m_addr);
    let p = Product::create(
        params,
        &addr(20),
        &m,
        &m_addr,
        &product_address,
        &product_mint,
        &addr(5),
        None,
        &addr(PID),
    )
    .unwrap();
    assert_eq!(p.authority.0, [20u8; 32]);
    assert_eq!(p.marketplace.0, m_addr.0);
    assert_eq!(p.product_mint.0, product_mint.0);
    assert_eq!(p.seller_config.product_price, 42);
    assert_eq!(p.seller_config.payment_mint.0, [5u8; 32]);
    assert_eq!(p.active_payments, 0);
}

#[test]
fn create_rejects_a_substituted_mint() {
    let (m, m_addr) = marketplace(true);
    let params = id_params();
    let (product_address, _) = derived_addresses(&params, &m_addr);
    let r = Product::create(
        params,
        &addr(20),
        &m,
        &m_addr,
        &product_address,
        &addr(66),
        &addr(5),
        None,
        &addr(PID),
    );
    assert_eq!(r.err(), Some(ErrorCode::IncorrectSeeds));
}

#[test]
fn permissioned_marketplace_demands_the_access_token() {
    let (m, m_addr) = marketplace(false);
    let params = id_params();
    let (product_address, product_mint) = derived_addresses(&params, &m_addr);
    let r = Product::create(
        params.clone(),
        &addr(20),
        &m,
        &m_addr,
        &product_address,
        &product_mint,
        &addr(5),
        None,
        &addr(PID),
    );
    assert_eq!(r.err(), Some(ErrorCode::OptionalAccountNotProvided));
    let r = Product::create(
        params.clone(),
        &addr(20),
        &m,
        &m_addr,
        &product_address,
        &product_mint,
        &addr(5),
        Some(0),
        &addr(PID),
    );
    assert_eq!(r.err(), Some(ErrorCode::NotInWhitelist));
    let r = Product::create(
        params,
        &addr(20),
        &m,
        &m_addr,
        &product_address,
        &product_mint,
        &addr(5),
        Some(1),
        &addr(PID),
    );
    assert!(r.is_ok());
}

#[test]
fn create_rejects_half_sized_identifiers() {
    let (m, m_addr) = marketplace(true);
    let mut params = id_params();
    params.first_id = vec![b'd'; 31];
    let r = Product::create(
        params,
        &addr(20),
        &m,
        &m_addr,
        &addr(60),
        &addr(61),
        &addr(5),
        None,
        &addr(PID),
    );
    assert_eq!(r.err(), Some(ErrorCode::ConversionError));
}

#[test]
fn seller_edits_price_and_payment_mint() {
    let (m, m_addr) = marketplace(true);
    let params = id_params();
    let (product_address, product_mint) = derived_addresses(&params, &m_addr);
    let mut p = Product::create(
        params,
        &addr(20),
        &m,
        &m_addr,
        &product_address,
        &product_mint,
        &addr(5),
        None,
        &addr(PID),
    )
    .unwrap();
    assert_eq!(
        p.edit_price(&addr(9), 100).err(),
        Some(ErrorCode::IncorrectAuthority)
    );
    p.edit_price(&addr(20), 100).unwrap();
    assert_eq!(p.seller_config.product_price, 100);
    assert_eq!(
        p.edit_payment_mint(&addr(9), &addr(6)).err(),
        Some(ErrorCode::IncorrectAuthority)
    );
    p.edit_payment_mint(&addr(20), &addr(6)).unwrap();
    assert_eq!(p.seller_config.payment_mint.0, [6u8; 32]);
}

#[test]
fn identifier_splitting_pads_with_spaces() {
    let (first, second) = get_splitted_id(&b"dataset-123".to_vec()).unwrap();
    assert_eq!(first.len(), 32);
    assert_eq!(second.len(), 32);
    assert_eq!(&first[..11], b"dataset-123");
    assert!(first[11..].iter().all(|&b| b == b' '));
    assert!(second.iter().all(|&b| b == b' '));
}

#[test]
fn identifier_splitting_spans_both_halves() {
    let id: Vec<u8> = (0u8..64u8).collect();
    let (first, second) = get_splitted_id(&id).unwrap();
    assert_eq!(first, (0u8..32u8).collect::<Vec<u8>>());
    assert_eq!(second, (32u8..64u8).collect::<Vec<u8>>());
}

#[test]
fn identifier_longer_than_64_bytes_is_rejected() {
    let id = vec![b'x'; 65];
    assert_eq!(get_splitted_id(&id).err(), Some(ErrorCode::StringTooLong));
    assert_eq!(
        Product::split_id_string(&id).err(),
        Some(ErrorCode::StringTooLong)
    );
    assert!(Product::split_id_string(&vec![b'x'; 64]).is_ok());
}
