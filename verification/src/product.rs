//! The product registry: one record per listing, owned by its seller. The
//! listing's proof-of-payment mint is itself a derived account whose address
//! is re-checked against its seeds before the record is created.

use vstd::prelude::*;
use crate::address::{address_eq, Address};
use crate::errors::ErrorCode;
use crate::marketplace::Marketplace;
use crate::pda::{derive_address, pda_matches, pda_of, seeds_view};
use crate::seeds::{product_mint_tag, product_mint_tag_vec, product_tag, product_tag_vec};
use crate::utils::{get_splitted_id, padded_id};

verus! {

/// Seller-chosen sale terms of a listing.
#[derive(Clone, Copy, Debug)]
pub struct SellerConfig {
    /// The mint the seller wants to be paid in.
    pub payment_mint: Address,
    /// The price in the smallest unit of the payment mint.
    pub product_price: u64,
}

/// Bump nonces recorded when the product was created.
#[derive(Clone, Copy, Debug)]
pub struct ProductBumps {
    /// Bump of the product account itself.
    pub bump: u8,
    /// Bump of the product's proof-of-payment mint.
    pub mint_bump: u8,
}

/// A listing: identity, owning seller, marketplace back-reference, the
/// proof-of-payment mint and the sale terms. The 64-byte external identifier
/// is held as two 32-byte halves because a single derivation seed component
/// holds at most 32 bytes.
#[derive(Clone, Debug)]
pub struct Product {
    /// The seller wallet that owns this listing.
    pub authority: Address,
    /// First half of the 64-byte identifier.
    pub first_id: Vec<u8>,
    /// Second half of the 64-byte identifier.
    pub second_id: Vec<u8>,
    /// The marketplace this listing belongs to.
    pub marketplace: Address,
    /// The derived mint whose tokens prove a purchase of this product.
    pub product_mint: Address,
    /// Sale terms.
    pub seller_config: SellerConfig,
    /// Derivation bumps, recorded at creation.
    pub bumps: ProductBumps,
    /// Open escrowed payments against this listing; the record cannot be
    /// closed while any remain.
    pub active_payments: u32,
}

/// Parameters of [`Product::create`].
#[derive(Clone, Debug)]
pub struct InitProductParams {
    /// First half of the 64-byte identifier; must be exactly 32 bytes.
    pub first_id: Vec<u8>,
    /// Second half of the 64-byte identifier; must be exactly 32 bytes.
    pub second_id: Vec<u8>,
    /// The price in the smallest unit of the payment mint.
    pub product_price: u64,
}

/// The seed list of a product account: the tag, the two identifier halves
/// and the marketplace address.
pub open spec fn product_seeds(first_id: Seq<u8>, second_id: Seq<u8>, marketplace: Seq<u8>) -> Seq<Seq<u8>> {
    seq![product_tag(), first_id, second_id, marketplace]
}

/// Owned seed list of a product account.
pub fn product_seeds_vec(first_id: &Vec<u8>, second_id: &Vec<u8>, marketplace: &Address) -> (r: Vec<Vec<u8>>)
    ensures
        seeds_view(r@) == product_seeds(first_id@, second_id@, marketplace@),
{
    let mut seeds: Vec<Vec<u8>> = Vec::new();
    seeds.push(product_tag_vec());
    seeds.push(first_id.clone());
    seeds.push(second_id.clone());
    seeds.push(marketplace.to_seed());
    proof {
        assert(seeds_view(seeds@) =~= product_seeds(first_id@, second_id@, marketplace@));
    }
    seeds
}

/// The seed list of a product's proof-of-payment mint: the tag, the two
/// identifier halves and the marketplace address.
pub open spec fn product_mint_seeds(first_id: Seq<u8>, second_id: Seq<u8>, marketplace: Seq<u8>) -> Seq<Seq<u8>> {
    seq![product_mint_tag(), first_id, second_id, marketplace]
}

/// Owned seed list of a product mint account.
pub fn product_mint_seeds_vec(first_id: &Vec<u8>, second_id: &Vec<u8>, marketplace: &Address) -> (r: Vec<Vec<u8>>)
    ensures
        seeds_view(r@) == product_mint_seeds(first_id@, second_id@, marketplace@),
{
    let mut seeds: Vec<Vec<u8>> = Vec::new();
    seeds.push(product_mint_tag_vec());
    seeds.push(first_id.clone());
    seeds.push(second_id.clone());
    seeds.push(marketplace.to_seed());
    proof {
        assert(seeds_view(seeds@) =~= product_mint_seeds(first_id@, second_id@, marketplace@));
    }
    seeds
}

impl Product {
    /// Serialized size of the record: discriminator, authority, identifier
    /// halves, marketplace, mint, sale terms and bumps.
    pub const SIZE: usize = 8 + 32 + 32 + 32 + 32 + 32 + 32 + 8 + 1 + 1;

    /// Internal invariant: both identifier halves are exactly 32 bytes.
    pub open spec fn wf(&self) -> bool {
        &&& self.first_id@.len() == 32
        &&& self.second_id@.len() == 32
    }

    /// Splits an external identifier of at most 64 bytes into the two
    /// 32-byte halves stored in the record, padding with ASCII spaces.
    pub fn split_id_string(id_string: &Vec<u8>) -> (r: Result<(Vec<u8>, Vec<u8>), ErrorCode>)
        ensures
            r is Ok <==> id_string@.len() <= 64,
            r matches Err(e) ==> e == ErrorCode::StringTooLong,
            r matches Ok(p) ==> {
                &&& p.0@ == padded_id(id_string@).subrange(0, 32)
                &&& p.1@ == padded_id(id_string@).subrange(32, 64)
            },
    {
        get_splitted_id(id_string)
    }

    /// Creates a listing for the signing seller. On a permissioned
    /// marketplace the seller's access-token balance must be supplied and
    /// positive; the claimed product and product-mint addresses must each
    /// re-derive from the identifier halves and the marketplace address
    /// (`IncorrectSeeds` otherwise). The identifier halves must be exactly
    /// 32 bytes (`ConversionError` otherwise).
    pub fn create(
        params: InitProductParams,
        signer: &Address,
        marketplace: &Marketplace,
        marketplace_address: &Address,
        product_address: &Address,
        product_mint: &Address,
        payment_mint: &Address,
        access_vault_amount: Option<u64>,
        program_id: &Address,
    ) -> (r: Result<Product, ErrorCode>)
        ensures
            r is Ok <==> (marketplace.permission_config.permissionless
                    || (access_vault_amount matches Some(a) && a > 0))
                && params.first_id@.len() == 32 && params.second_id@.len() == 32
                && pda_matches(product_address@, product_seeds(params.first_id@, params.second_id@, marketplace_address@), program_id@)
                && pda_matches(product_mint@, product_mint_seeds(params.first_id@, params.second_id@, marketplace_address@), program_id@),
            !marketplace.permission_config.permissionless && access_vault_amount is None
                ==> r is Err && r->Err_0 == ErrorCode::OptionalAccountNotProvided,
            !marketplace.permission_config.permissionless && access_vault_amount == Some(0u64)
                ==> r is Err && r->Err_0 == ErrorCode::NotInWhitelist,
            (marketplace.permission_config.permissionless || (access_vault_amount matches Some(a) && a > 0))
                && !(params.first_id@.len() == 32 && params.second_id@.len() == 32)
                ==> r is Err && r->Err_0 == ErrorCode::ConversionError,
            (marketplace.permission_config.permissionless || (access_vault_amount matches Some(a) && a > 0))
                && params.first_id@.len() == 32 && params.second_id@.len() == 32 && r is Err
                ==> r->Err_0 == ErrorCode::IncorrectSeeds,
            r matches Ok(p) ==> {
                &&& p.authority == *signer
                &&& p.first_id@ == params.first_id@
                &&& p.second_id@ == params.second_id@
                &&& p.marketplace == *marketplace_address
                &&& p.product_mint@ == product_mint@
                &&& p.seller_config == (SellerConfig {
                    payment_mint: *payment_mint,
                    product_price: params.product_price,
                })
                &&& pda_of(product_seeds(params.first_id@, params.second_id@, marketplace_address@), program_id@)
                    == Some((product_address@, p.bumps.bump))
                &&& pda_of(product_mint_seeds(params.first_id@, params.second_id@, marketplace_address@), program_id@)
                    == Some((product_mint@, p.bumps.mint_bump))
                &&& p.active_payments == 0
                &&& p.wf()
            },
    {
        if !marketplace.permission_config.permissionless {
            match access_vault_amount {
                None => {
                    return Err(ErrorCode::OptionalAccountNotProvided);
                },
                Some(amount) => {
                    if amount == 0 {
                        return Err(ErrorCode::NotInWhitelist);
                    }
                },
            }
        }
        if params.first_id.len() != 32 || params.second_id.len() != 32 {
            return Err(ErrorCode::ConversionError);
        }
        let p_seeds = product_seeds_vec(&params.first_id, &params.second_id, marketplace_address);
        let (p_addr, p_bump) = match derive_address(&p_seeds, program_id) {
            Ok(p) => p,
            Err(e) => {
                return Err(e);
            },
        };
        if !address_eq(&p_addr, product_address) {
            return Err(ErrorCode::IncorrectSeeds);
        }
        let m_seeds = product_mint_seeds_vec(&params.first_id, &params.second_id, marketplace_address);
        let (m_addr, m_bump) = match derive_address(&m_seeds, program_id) {
            Ok(p) => p,
            Err(e) => {
                return Err(e);
            },
        };
        if !address_eq(&m_addr, product_mint) {
            return Err(ErrorCode::IncorrectSeeds);
        }
        Ok(Product {
            authority: *signer,
            first_id: params.first_id,
            second_id: params.second_id,
            marketplace: *marketplace_address,
            product_mint: m_addr,
            seller_config: SellerConfig {
                payment_mint: *payment_mint,
                product_price: params.product_price,
            },
            bumps: ProductBumps { bump: p_bump, mint_bump: m_bump },
            active_payments: 0,
        })
    }

    /// Changes the listing price; only the owning seller may.
    pub fn edit_price(&mut self, caller: &Address, product_price: u64) -> (r: Result<(), ErrorCode>)
        ensures
            r is Ok <==> caller@ == old(self).authority@,
            r is Err ==> *final(self) == *old(self) && r->Err_0 == ErrorCode::IncorrectAuthority,
            r is Ok ==> *final(self) == (Product {
                seller_config: SellerConfig { product_price, ..old(self).seller_config },
                ..*old(self)
            }),
    {
        if !address_eq(caller, &self.authority) {
            return Err(ErrorCode::IncorrectAuthority);
        }
        self.seller_config.product_price = product_price;
        Ok(())
    }

    /// Changes the payment mint of the listing; only the owning seller may.
    pub fn edit_payment_mint(&mut self, caller: &Address, payment_mint: &Address) -> (r: Result<(), ErrorCode>)
        ensures
            r is Ok <==> caller@ == old(self).authority@,
            r is Err ==> *final(self) == *old(self) && r->Err_0 == ErrorCode::IncorrectAuthority,
            r is Ok ==> *final(self) == (Product {
                seller_config: SellerConfig { payment_mint: *payment_mint, ..old(self).seller_config },
                ..*old(self)
            }),
    {
        if !address_eq(caller, &self.authority) {
            return Err(ErrorCode::IncorrectAuthority);
        }
        self.seller_config.payment_mint = *payment_mint;
        Ok(())
    }

    /// Whether the listing may be closed: only by the owning seller, and
    /// only while no escrowed payment against it is still open. On success
    /// the caller closes the record and its mint and reclaims the rent.
    pub fn delete(&self, caller: &Address) -> (r: Result<(), ErrorCode>)
        ensures
            r is Ok <==> caller@ == self.authority@ && self.active_payments == 0,
            caller@ != self.authority@ ==> r is Err && r->Err_0 == ErrorCode::IncorrectAuthority,
            caller@ == self.authority@ && self.active_payments > 0
                ==> r is Err && r->Err_0 == ErrorCode::CannotCloseProduct,
    {
        if !address_eq(caller, &self.authority) {
            return Err(ErrorCode::IncorrectAuthority);
        }
        if self.active_payments > 0 {
            return Err(ErrorCode::CannotCloseProduct);
        }
        Ok(())
    }
}

} // verus!
