//! The governance registry: a named top-level fee-and-promotion authority
//! for a trading domain, with one bonus vault funding promotional rewards.

use vstd::prelude::*;
use crate::address::{address_eq, Address};
use crate::errors::ErrorCode;
use crate::fees::{distribution, split_at_bps, effective_bps, lemma_share_le_amount, FeePayer};
use crate::ledger::TokenOp;
use crate::pda::{derive_address, pda_matches, pda_of, seeds_view};
use crate::product::Product;
use crate::seeds::{governance_bonus_vault_tag, governance_bonus_vault_tag_vec, governance_tag, governance_tag_vec};

verus! {

/// A governance record: the fee and promotion policy of a trading domain.
/// Only the stored authority may change it.
#[derive(Clone, Debug)]
pub struct Governance {
    /// The fixed 7-byte domain name, used as a derivation seed.
    pub governance_name: Vec<u8>,
    /// The wallet allowed to modify this record and receive fees.
    pub governance_authority: Address,
    /// The domain's own token; promotions pay out in it, and paying with it
    /// reduces the fee.
    pub governance_mint: Address,
    /// The vault funding promotional bonuses, controlled by this record's
    /// derived address.
    pub governance_bonus_vault: Address,
    /// Transaction fee in basis points.
    pub fee: u16,
    /// Basis points taken off the fee when paying in the governance mint.
    pub fee_reduction: u16,
    /// Extra basis points of the sale volume the seller accrues during a
    /// promotion; 0 means no seller-side promotion.
    pub seller_promo: u16,
    /// Extra basis points of the sale volume the buyer accrues during a
    /// promotion; 0 means no buyer-side promotion.
    pub buyer_promo: u16,
    /// Bump of the governance account itself.
    pub bump: u8,
    /// Bump of the bonus vault.
    pub vault_bump: u8,
}

/// Parameters of [`Governance::create`].
#[derive(Clone, Debug)]
pub struct CreateGovernanceParams {
    /// The 7-byte domain name; only the fixed name is accepted.
    pub governance_name: Vec<u8>,
    pub fee: u16,
    pub fee_reduction: u16,
    pub seller_promo: u16,
    pub buyer_promo: u16,
}

/// Parameters of [`Governance::edit_points`].
#[derive(Clone, Copy, Debug)]
pub struct EditPointsParams {
    pub fee: u16,
    pub fee_reduction: u16,
    pub seller_promo: u16,
    pub buyer_promo: u16,
}

impl EditPointsParams {
    /// All basis-point parameters within [0, 10000].
    pub open spec fn bps_ok(&self) -> bool {
        &&& self.fee <= 10000
        &&& self.fee_reduction <= 10000
        &&& self.seller_promo <= 10000
        &&& self.buyer_promo <= 10000
    }
}

/// The only accepted domain name, the ASCII bytes of "Fishnet".
pub open spec fn governance_name_bytes() -> Seq<u8> {
    seq![70u8, 105u8, 115u8, 104u8, 110u8, 101u8, 116u8]
}

/// The seed list of a governance account: the tag and the domain name.
pub open spec fn governance_seeds(name: Seq<u8>) -> Seq<Seq<u8>> {
    seq![governance_tag(), name]
}

/// Owned seed list of a governance account.
pub fn governance_seeds_vec(name: &Vec<u8>) -> (r: Vec<Vec<u8>>)
    ensures
        seeds_view(r@) == governance_seeds(name@),
{
    let mut seeds: Vec<Vec<u8>> = Vec::new();
    seeds.push(governance_tag_vec());
    seeds.push(name.clone());
    proof {
        assert(seeds_view(seeds@) =~= governance_seeds(name@));
    }
    seeds
}

/// The seed list of a governance bonus vault: the tag and the governance
/// address.
pub open spec fn governance_bonus_vault_seeds(governance: Seq<u8>) -> Seq<Seq<u8>> {
    seq![governance_bonus_vault_tag(), governance]
}

/// Owned seed list of a governance bonus vault.
pub fn governance_bonus_vault_seeds_vec(governance: &Address) -> (r: Vec<Vec<u8>>)
    ensures
        seeds_view(r@) == governance_bonus_vault_seeds(governance@),
{
    let mut seeds: Vec<Vec<u8>> = Vec::new();
    seeds.push(governance_bonus_vault_tag_vec());
    seeds.push(governance.to_seed());
    proof {
        assert(seeds_view(seeds@) =~= governance_bonus_vault_seeds(governance@));
    }
    seeds
}

/// Compares a name against the fixed domain name byte for byte.
pub fn governance_name_matches(name: &Vec<u8>) -> (r: bool)
    ensures
        r == (name@ == governance_name_bytes()),
{
    let mut expected: Vec<u8> = Vec::new();
    expected.push(70u8);
    expected.push(105u8);
    expected.push(115u8);
    expected.push(104u8);
    expected.push(110u8);
    expected.push(101u8);
    expected.push(116u8);
    proof {
        assert(expected@ =~= governance_name_bytes());
    }
    if name.len() != 7 {
        return false;
    }
    let mut i: usize = 0;
    while i < 7
        invariant
            i <= 7,
            name@.len() == 7,
            expected@ == governance_name_bytes(),
            forall|j: int| 0 <= j < i ==> name@[j] == governance_name_bytes()[j],
        decreases 7 - i,
    {
        if name[i] != expected[i] {
            return false;
        }
        i += 1;
    }
    proof {
        assert(name@ =~= governance_name_bytes());
    }
    true
}

/// The fee-split transfers of a governance-path sale: with a zero fee a
/// single payment of the product price to the seller; otherwise the fee
/// first, then the seller's share.
pub open spec fn governance_buy_ops(
    g: Governance,
    product: Product,
    signer: Address,
    buyer_transfer_vault: Address,
    product_authority_transfer_vault: Address,
    governance_transfer_vault: Address,
) -> Seq<TokenOp> {
    let price = product.seller_config.product_price;
    let split = distribution(
        g.fee,
        g.fee_reduction,
        product.seller_config.payment_mint@ == g.governance_mint@,
        FeePayer::Seller,
        price,
    );
    if g.fee > 0 {
        seq![
            (TokenOp::Transfer {
                from: buyer_transfer_vault,
                to: governance_transfer_vault,
                authority: signer,
                amount: split->Ok_0.0,
            }),
            (TokenOp::Transfer {
                from: buyer_transfer_vault,
                to: product_authority_transfer_vault,
                authority: signer,
                amount: split->Ok_0.1,
            }),
        ]
    } else {
        seq![
            (TokenOp::Transfer {
                from: buyer_transfer_vault,
                to: product_authority_transfer_vault,
                authority: signer,
                amount: price,
            }),
        ]
    }
}

/// A promotion is active exactly when both the buyer and the seller promo
/// points are set and the payment is made in the governance mint.
pub open spec fn active_promo_spec(g: Governance, payment_mint: Seq<u8>) -> bool {
    &&& g.buyer_promo > 0
    &&& g.seller_promo > 0
    &&& payment_mint == g.governance_mint@
}

impl Governance {
    /// Serialized size of the record: discriminator, name, the three
    /// addresses, the four basis-point fields and the two bumps.
    pub const SIZE: usize = 8 + 7 + 32 + 32 + 32 + 2 + 2 + 2 + 2 + 1 + 1;

    /// Internal invariant: basis points within bounds and the name exactly
    /// 7 bytes.
    pub open spec fn wf(&self) -> bool {
        &&& self.fee <= 10000
        &&& self.fee_reduction <= 10000
        &&& self.seller_promo <= 10000
        &&& self.buyer_promo <= 10000
        &&& self.governance_name@.len() == 7
    }

    /// Validates creation parameters: the domain name must be the fixed one
    /// and all basis points within bounds.
    pub fn validate_params(params: &CreateGovernanceParams) -> (r: Result<(), ErrorCode>)
        ensures
            r is Ok <==> params.governance_name@ == governance_name_bytes()
                && (EditPointsParams {
                    fee: params.fee,
                    fee_reduction: params.fee_reduction,
                    seller_promo: params.seller_promo,
                    buyer_promo: params.buyer_promo,
                }).bps_ok(),
            params.governance_name@ != governance_name_bytes()
                ==> r is Err && r->Err_0 == ErrorCode::IncorrectGovernanceName,
            params.governance_name@ == governance_name_bytes() && r is Err
                ==> r->Err_0 == ErrorCode::IncorrectFee,
    {
        if !governance_name_matches(&params.governance_name) {
            return Err(ErrorCode::IncorrectGovernanceName);
        }
        Self::validate_basis_points(&EditPointsParams {
            fee: params.fee,
            fee_reduction: params.fee_reduction,
            seller_promo: params.seller_promo,
            buyer_promo: params.buyer_promo,
        })
    }

    /// Validates that all four basis-point parameters are within [0, 10000].
    pub fn validate_basis_points(params: &EditPointsParams) -> (r: Result<(), ErrorCode>)
        ensures
            r is Ok <==> params.bps_ok(),
            r matches Err(e) ==> e == ErrorCode::IncorrectFee,
    {
        if params.fee_reduction > 10000 || params.fee > 10000 || params.seller_promo > 10000
            || params.buyer_promo > 10000 {
            Err(ErrorCode::IncorrectFee)
        } else {
            Ok(())
        }
    }

    /// Whether a promotion is active for a payment in the given mint: both
    /// promo sides set and the payment made in the governance mint.
    pub fn is_active_promo(governance: &Governance, payment_mint: &Address) -> (r: bool)
        ensures
            r == active_promo_spec(*governance, payment_mint@),
    {
        governance.buyer_promo > 0 && governance.seller_promo > 0
            && address_eq(payment_mint, &governance.governance_mint)
    }

    /// The fee/counterparty split of the product price under the governance
    /// fee schedule; the seller always absorbs the fee on this path, and the
    /// fee is reduced when the payment is made in the governance mint.
    pub fn calculate_transfer_distribution(
        fee: u16,
        fee_reduction: u16,
        governance_mint: &Address,
        payment_mint: &Address,
        product_price: u64,
    ) -> (r: Result<(u64, u64), ErrorCode>)
        ensures
            r == distribution(fee, fee_reduction, payment_mint@ == governance_mint@, FeePayer::Seller, product_price),
    {
        let discounted = address_eq(payment_mint, governance_mint);
        let adjusted: u16 = if discounted {
            if fee >= fee_reduction {
                fee - fee_reduction
            } else {
                0u16
            }
        } else {
            fee
        };
        proof {
            assert(adjusted == effective_bps(fee, fee_reduction, discounted));
        }
        split_at_bps(adjusted, FeePayer::Seller, product_price)
    }

    /// Creates the governance record of the domain. The parameters must
    /// validate, and the claimed governance and bonus vault addresses must
    /// each re-derive from their seeds (`IncorrectSeeds` otherwise).
    pub fn create(
        params: CreateGovernanceParams,
        governance_authority: &Address,
        governance_mint: &Address,
        governance_address: &Address,
        governance_bonus_vault: &Address,
        program_id: &Address,
    ) -> (r: Result<Governance, ErrorCode>)
        ensures
            r is Ok <==> params.governance_name@ == governance_name_bytes()
                && (EditPointsParams {
                    fee: params.fee,
                    fee_reduction: params.fee_reduction,
                    seller_promo: params.seller_promo,
                    buyer_promo: params.buyer_promo,
                }).bps_ok()
                && pda_matches(governance_address@, governance_seeds(params.governance_name@), program_id@)
                && pda_matches(governance_bonus_vault@, governance_bonus_vault_seeds(governance_address@), program_id@),
            params.governance_name@ != governance_name_bytes()
                ==> r is Err && r->Err_0 == ErrorCode::IncorrectGovernanceName,
            r matches Ok(g) ==> {
                &&& g.governance_name@ == params.governance_name@
                &&& g.governance_authority == *governance_authority
                &&& g.governance_mint == *governance_mint
                &&& g.governance_bonus_vault@ == governance_bonus_vault@
                &&& g.fee == params.fee
                &&& g.fee_reduction == params.fee_reduction
                &&& g.seller_promo == params.seller_promo
                &&& g.buyer_promo == params.buyer_promo
                &&& pda_of(governance_seeds(params.governance_name@), program_id@)
                    == Some((governance_address@, g.bump))
                &&& pda_of(governance_bonus_vault_seeds(governance_address@), program_id@)
                    == Some((governance_bonus_vault@, g.vault_bump))
                &&& g.wf()
            },
    {
        match Self::validate_params(&params) {
            Ok(_) => {},
            Err(e) => {
                return Err(e);
            },
        }
        let g_seeds = governance_seeds_vec(&params.governance_name);
        let (g_addr, g_bump) = match derive_address(&g_seeds, program_id) {
            Ok(p) => p,
            Err(e) => {
                return Err(e);
            },
        };
        if !address_eq(&g_addr, governance_address) {
            return Err(ErrorCode::IncorrectSeeds);
        }
        let v_seeds = governance_bonus_vault_seeds_vec(governance_address);
        let (v_addr, v_bump) = match derive_address(&v_seeds, program_id) {
            Ok(p) => p,
            Err(e) => {
                return Err(e);
            },
        };
        if !address_eq(&v_addr, governance_bonus_vault) {
            return Err(ErrorCode::IncorrectSeeds);
        }
        Ok(Governance {
            governance_name: params.governance_name,
            governance_authority: *governance_authority,
            governance_mint: *governance_mint,
            governance_bonus_vault: v_addr,
            fee: params.fee,
            fee_reduction: params.fee_reduction,
            seller_promo: params.seller_promo,
            buyer_promo: params.buyer_promo,
            bump: g_bump,
            vault_bump: v_bump,
        })
    }

    /// Settles a governance-path sale: with a zero fee a single transfer of
    /// the product price from the buyer to the seller; otherwise the fee
    /// first, to the governance fee collector, then the seller's share,
    /// both paid by the buyer. The fee is reduced when the payment is made
    /// in the governance mint. All transfers are buyer-signed; no derived
    /// authority is involved.
    pub fn register_buy(
        &self,
        product: &Product,
        signer: &Address,
        buyer_transfer_vault: &Address,
        product_authority_transfer_vault: &Address,
        governance_transfer_vault: &Address,
    ) -> (r: Vec<TokenOp>)
        requires
            self.wf(),
        ensures
            r@ == governance_buy_ops(
                *self,
                *product,
                *signer,
                *buyer_transfer_vault,
                *product_authority_transfer_vault,
                *governance_transfer_vault,
            ),
    {
        proof {
            lemma_share_le_amount(
                effective_bps(
                    self.fee,
                    self.fee_reduction,
                    product.seller_config.payment_mint@ == self.governance_mint@,
                ),
                product.seller_config.product_price,
            );
        }
        let mut plan: Vec<TokenOp> = Vec::new();
        if self.fee > 0 {
            let (total_fee, seller_amount) = match Self::calculate_transfer_distribution(
                self.fee,
                self.fee_reduction,
                &self.governance_mint,
                &product.seller_config.payment_mint,
                product.seller_config.product_price,
            ) {
                Ok(pair) => pair,
                Err(_) => {
                    proof {
                        assert(false);
                    }
                    (0u64, 0u64)
                },
            };
            plan.push(TokenOp::Transfer {
                from: *buyer_transfer_vault,
                to: *governance_transfer_vault,
                authority: *signer,
                amount: total_fee,
            });
            plan.push(TokenOp::Transfer {
                from: *buyer_transfer_vault,
                to: *product_authority_transfer_vault,
                authority: *signer,
                amount: seller_amount,
            });
        } else {
            plan.push(TokenOp::Transfer {
                from: *buyer_transfer_vault,
                to: *product_authority_transfer_vault,
                authority: *signer,
                amount: product.seller_config.product_price,
            });
        }
        proof {
            assert(plan@ =~= governance_buy_ops(
                *self,
                *product,
                *signer,
                *buyer_transfer_vault,
                *product_authority_transfer_vault,
                *governance_transfer_vault,
            ));
        }
        plan
    }

    /// Replaces the four basis-point fields, gated on the stored authority.
    /// Setting both promo sides to zero is how a promotion is closed.
    pub fn edit_points(&mut self, caller: &Address, params: EditPointsParams) -> (r: Result<(), ErrorCode>)
        ensures
            r is Ok <==> caller@ == old(self).governance_authority@ && params.bps_ok(),
            r is Err ==> *final(self) == *old(self),
            caller@ != old(self).governance_authority@ ==> r is Err && r->Err_0 == ErrorCode::IncorrectAuthority,
            caller@ == old(self).governance_authority@ && !params.bps_ok()
                ==> r is Err && r->Err_0 == ErrorCode::IncorrectFee,
            r is Ok ==> *final(self) == (Governance {
                fee: params.fee,
                fee_reduction: params.fee_reduction,
                seller_promo: params.seller_promo,
                buyer_promo: params.buyer_promo,
                ..*old(self)
            }),
    {
        if !address_eq(caller, &self.governance_authority) {
            return Err(ErrorCode::IncorrectAuthority);
        }
        match Self::validate_basis_points(&params) {
            Ok(_) => {},
            Err(e) => {
                return Err(e);
            },
        }
        self.fee = params.fee;
        self.fee_reduction = params.fee_reduction;
        self.seller_promo = params.seller_promo;
        self.buyer_promo = params.buyer_promo;
        Ok(())
    }
}

} // verus!
