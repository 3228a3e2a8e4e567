//! Per-participant reward and bonus ledgers. A reward record streams sale
//! bonuses into its own vaults; a bonus record accrues a counter beside one
//! vault. Either may pay out only once the promotion that fed it is closed,
//! and its account is closed by the payout, so a second payout has no
//! account left to run against.

use vstd::prelude::*;
use crate::address::{address_eq, Address};
use crate::errors::ErrorCode;
use crate::governance::Governance;
use crate::ledger::TokenOp;
use crate::marketplace::{vault_bump_for, BountyVault, Marketplace};
use crate::pda::{derive_address, pda_matches, pda_of, seeds_view};
use crate::seeds::{bonus_tag, bonus_tag_vec, bonus_vault_tag, bonus_vault_tag_vec, reward_tag, reward_tag_vec, reward_vault_tag, reward_vault_tag_vec};

verus! {

/// A reward ledger: one per participant per marketplace, with up to five
/// vaults, one per reward mint the marketplace ever configured.
#[derive(Clone, Debug)]
pub struct Reward {
    /// The participant (seller or buyer) owning the accrued rewards.
    pub authority: Address,
    /// The marketplace this ledger belongs to.
    pub marketplace: Address,
    /// The vaults holding accrued reward tokens, each with its recorded
    /// bump, bounded by [`Reward::VAULT_COUNT`].
    pub reward_vaults: Vec<BountyVault>,
    /// Bump of the reward account itself.
    pub bump: u8,
}

/// A bonus ledger: one per participant per governance domain, accruing a
/// counter of governance tokens beside a single vault.
#[derive(Clone, Copy, Debug)]
pub struct Bonus {
    /// The participant owning the accrued bonus.
    pub authority: Address,
    /// Accrued governance tokens, increased on every qualifying sale.
    pub amount: u64,
    /// Bump of the bonus account itself.
    pub bump: u8,
    /// Bump of the bonus vault.
    pub vault_bump: u8,
}

/// The seed list of a reward account: the tag, the participant and the
/// marketplace.
pub open spec fn reward_seeds(authority: Seq<u8>, marketplace: Seq<u8>) -> Seq<Seq<u8>> {
    seq![reward_tag(), authority, marketplace]
}

/// Owned seed list of a reward account.
pub fn reward_seeds_vec(authority: &Address, marketplace: &Address) -> (r: Vec<Vec<u8>>)
    ensures
        seeds_view(r@) == reward_seeds(authority@, marketplace@),
{
    let mut seeds: Vec<Vec<u8>> = Vec::new();
    seeds.push(reward_tag_vec());
    seeds.push(authority.to_seed());
    seeds.push(marketplace.to_seed());
    proof {
        assert(seeds_view(seeds@) =~= reward_seeds(authority@, marketplace@));
    }
    seeds
}

/// The seed list of a reward vault: the tag, the participant, the
/// marketplace and the reward mint it holds.
pub open spec fn reward_vault_seeds(authority: Seq<u8>, marketplace: Seq<u8>, reward_mint: Seq<u8>) -> Seq<Seq<u8>> {
    seq![reward_vault_tag(), authority, marketplace, reward_mint]
}

/// Owned seed list of a reward vault.
pub fn reward_vault_seeds_vec(authority: &Address, marketplace: &Address, reward_mint: &Address) -> (r: Vec<Vec<u8>>)
    ensures
        seeds_view(r@) == reward_vault_seeds(authority@, marketplace@, reward_mint@),
{
    let mut seeds: Vec<Vec<u8>> = Vec::new();
    seeds.push(reward_vault_tag_vec());
    seeds.push(authority.to_seed());
    seeds.push(marketplace.to_seed());
    seeds.push(reward_mint.to_seed());
    proof {
        assert(seeds_view(seeds@) =~= reward_vault_seeds(authority@, marketplace@, reward_mint@));
    }
    seeds
}

/// The seed list of a bonus account: the tag and the participant.
pub open spec fn bonus_seeds(authority: Seq<u8>) -> Seq<Seq<u8>> {
    seq![bonus_tag(), authority]
}

/// Owned seed list of a bonus account.
pub fn bonus_seeds_vec(authority: &Address) -> (r: Vec<Vec<u8>>)
    ensures
        seeds_view(r@) == bonus_seeds(authority@),
{
    let mut seeds: Vec<Vec<u8>> = Vec::new();
    seeds.push(bonus_tag_vec());
    seeds.push(authority.to_seed());
    proof {
        assert(seeds_view(seeds@) =~= bonus_seeds(authority@));
    }
    seeds
}

/// The seed list of a bonus vault: the tag and the participant.
pub open spec fn bonus_vault_seeds(authority: Seq<u8>) -> Seq<Seq<u8>> {
    seq![bonus_vault_tag(), authority]
}

/// Owned seed list of a bonus vault.
pub fn bonus_vault_seeds_vec(authority: &Address) -> (r: Vec<Vec<u8>>)
    ensures
        seeds_view(r@) == bonus_vault_seeds(authority@),
{
    let mut seeds: Vec<Vec<u8>> = Vec::new();
    seeds.push(bonus_vault_tag_vec());
    seeds.push(authority.to_seed());
    proof {
        assert(seeds_view(seeds@) =~= bonus_vault_seeds(authority@));
    }
    seeds
}

impl Reward {
    /// Capacity of the reward vault list.
    pub const VAULT_COUNT: usize = 5;

    /// Serialized size of the record: discriminator, authority, marketplace
    /// and bumps, with the vault list at full capacity.
    pub const SIZE: usize = 8 + 32 + 32 + 32 * 5 + 1 + 1 * 5;

    /// Internal invariant: the vault list within capacity.
    pub open spec fn wf(&self) -> bool {
        self.reward_vaults@.len() <= 5
    }

    /// The signing bump stored for a reward vault address, or the sentinel
    /// 0 when the address belongs to no vault of this ledger; a 0 must never
    /// be used as a signing bump.
    pub fn get_bump(address: &Address, reward_vaults: &Vec<BountyVault>) -> (r: u8)
        ensures
            r == vault_bump_for(reward_vaults@, address@),
    {
        Marketplace::get_bump(address, reward_vaults)
    }

    /// Creates a reward ledger for a participant with its first vault. The
    /// claimed reward and vault addresses must each re-derive from their
    /// seeds (`IncorrectSeeds` otherwise).
    pub fn init(
        signer: &Address,
        marketplace_address: &Address,
        reward_address: &Address,
        reward_mint: &Address,
        reward_vault: &Address,
        program_id: &Address,
    ) -> (r: Result<Reward, ErrorCode>)
        ensures
            r is Ok <==> pda_matches(reward_address@, reward_seeds(signer@, marketplace_address@), program_id@)
                && pda_matches(reward_vault@, reward_vault_seeds(signer@, marketplace_address@, reward_mint@), program_id@),
            r matches Err(e) ==> e == ErrorCode::IncorrectSeeds,
            r matches Ok(w) ==> {
                &&& w.authority == *signer
                &&& w.marketplace == *marketplace_address
                &&& w.reward_vaults@.len() == 1
                &&& w.reward_vaults@[0].address@ == reward_vault@
                &&& pda_of(reward_seeds(signer@, marketplace_address@), program_id@)
                    == Some((reward_address@, w.bump))
                &&& pda_of(reward_vault_seeds(signer@, marketplace_address@, reward_mint@), program_id@)
                    == Some((reward_vault@, w.reward_vaults@[0].bump))
                &&& w.wf()
            },
    {
        let r_seeds = reward_seeds_vec(signer, marketplace_address);
        let (r_addr, r_bump) = match derive_address(&r_seeds, program_id) {
            Ok(p) => p,
            Err(e) => {
                return Err(e);
            },
        };
        if !address_eq(&r_addr, reward_address) {
            return Err(ErrorCode::IncorrectSeeds);
        }
        let v_seeds = reward_vault_seeds_vec(signer, marketplace_address, reward_mint);
        let (v_addr, v_bump) = match derive_address(&v_seeds, program_id) {
            Ok(p) => p,
            Err(e) => {
                return Err(e);
            },
        };
        if !address_eq(&v_addr, reward_vault) {
            return Err(ErrorCode::IncorrectSeeds);
        }
        let mut reward_vaults: Vec<BountyVault> = Vec::new();
        reward_vaults.push(BountyVault { address: v_addr, bump: v_bump });
        Ok(Reward {
            authority: *signer,
            marketplace: *marketplace_address,
            reward_vaults,
            bump: r_bump,
        })
    }

    /// Appends one reward vault for a further reward mint, gated on the
    /// owning participant and on the list's capacity. Returns the new
    /// vault's address.
    pub fn add_reward_vault(
        &mut self,
        caller: &Address,
        reward_address: &Address,
        marketplace_address: &Address,
        reward_mint: &Address,
        program_id: &Address,
    ) -> (r: Result<Address, ErrorCode>)
        requires
            old(self).wf(),
        ensures
            final(self).wf(),
            r is Ok <==> caller@ == old(self).authority@
                && old(self).reward_vaults@.len() < 5
                && pda_of(reward_vault_seeds(old(self).authority@, marketplace_address@, reward_mint@), program_id@) is Some,
            r is Err ==> *final(self) == *old(self),
            caller@ != old(self).authority@ ==> r is Err && r->Err_0 == ErrorCode::IncorrectAuthority,
            caller@ == old(self).authority@ && old(self).reward_vaults@.len() >= 5
                ==> r is Err && r->Err_0 == ErrorCode::CapacityExceeded,
            r matches Ok(a) ==> ({
                let d = pda_of(reward_vault_seeds(old(self).authority@, marketplace_address@, reward_mint@), program_id@);
                &&& d is Some
                &&& a@ == d->Some_0.0
                &&& final(self).reward_vaults@
                    == old(self).reward_vaults@.push(BountyVault { address: a, bump: d->Some_0.1 })
                &&& final(self).authority == old(self).authority
                &&& final(self).marketplace == old(self).marketplace
                &&& final(self).bump == old(self).bump
            }),
    {
        if !address_eq(caller, &self.authority) {
            return Err(ErrorCode::IncorrectAuthority);
        }
        if self.reward_vaults.len() >= Self::VAULT_COUNT {
            return Err(ErrorCode::CapacityExceeded);
        }
        let v_seeds = reward_vault_seeds_vec(caller, marketplace_address, reward_mint);
        let (v_addr, v_bump) = match derive_address(&v_seeds, program_id) {
            Ok(p) => p,
            Err(e) => {
                return Err(e);
            },
        };
        self.reward_vaults.push(BountyVault { address: v_addr, bump: v_bump });
        Ok(v_addr)
    }
}

impl Bonus {
    /// Serialized size of the record: discriminator, authority, amount and
    /// the two bumps.
    pub const SIZE: usize = 8 + 32 + 8 + 1 + 1;

    /// Creates an empty bonus ledger for a participant. The claimed bonus
    /// and vault addresses must each re-derive from their seeds
    /// (`IncorrectSeeds` otherwise).
    pub fn init(
        signer: &Address,
        bonus_address: &Address,
        bonus_vault: &Address,
        program_id: &Address,
    ) -> (r: Result<Bonus, ErrorCode>)
        ensures
            r is Ok <==> pda_matches(bonus_address@, bonus_seeds(signer@), program_id@)
                && pda_matches(bonus_vault@, bonus_vault_seeds(signer@), program_id@),
            r matches Err(e) ==> e == ErrorCode::IncorrectSeeds,
            r matches Ok(b) ==> {
                &&& b.authority == *signer
                &&& b.amount == 0
                &&& pda_of(bonus_seeds(signer@), program_id@) == Some((bonus_address@, b.bump))
                &&& pda_of(bonus_vault_seeds(signer@), program_id@) == Some((bonus_vault@, b.vault_bump))
            },
    {
        let b_seeds = bonus_seeds_vec(signer);
        let (b_addr, b_bump) = match derive_address(&b_seeds, program_id) {
            Ok(p) => p,
            Err(e) => {
                return Err(e);
            },
        };
        if !address_eq(&b_addr, bonus_address) {
            return Err(ErrorCode::IncorrectSeeds);
        }
        let v_seeds = bonus_vault_seeds_vec(signer);
        let (v_addr, v_bump) = match derive_address(&v_seeds, program_id) {
            Ok(p) => p,
            Err(e) => {
                return Err(e);
            },
        };
        if !address_eq(&v_addr, bonus_vault) {
            return Err(ErrorCode::IncorrectSeeds);
        }
        Ok(Bonus { authority: *signer, amount: 0, bump: b_bump, vault_bump: v_bump })
    }

    /// Adds a sale's bonus to the accrued amount; called only by the
    /// settlement orchestrator, once per qualifying sale.
    pub fn accrue(&mut self, amount: u64) -> (r: Result<(), ErrorCode>)
        ensures
            r is Ok <==> old(self).amount + amount <= u64::MAX,
            r is Err ==> *final(self) == *old(self) && r->Err_0 == ErrorCode::NumericalOverflow,
            r is Ok ==> *final(self) == (Bonus { amount: (old(self).amount + amount) as u64, ..*old(self) }),
    {
        if amount > u64::MAX - self.amount {
            return Err(ErrorCode::NumericalOverflow);
        }
        self.amount = self.amount + amount;
        Ok(())
    }
}

/// Pays a bonus ledger out and closes it. The ledger slot holds the account
/// while it exists; a payout empties the slot, so a second payout finds no
/// account and fails without touching any value. The payout is gated on the
/// promotion being closed on both sides and on the caller owning the
/// ledger. On success the plan moves the whole accrued amount from the
/// bonus vault to the participant's own token account and closes the vault,
/// reclaiming its rent for the participant.
pub fn withdraw_bonus(
    governance: &Governance,
    slot: &mut Option<Bonus>,
    signer: &Address,
    bonus_address: &Address,
    bonus_vault: &Address,
    receiver_vault: &Address,
) -> (r: Result<Vec<TokenOp>, ErrorCode>)
    ensures
        *old(slot) is None ==> r is Err && r->Err_0 == ErrorCode::OptionalAccountNotProvided,
        r is Err ==> *final(slot) == *old(slot),
        (*old(slot)) matches Some(b) ==> {
            &&& signer@ != b.authority@ ==> r is Err && r->Err_0 == ErrorCode::IncorrectAuthority
            &&& signer@ == b.authority@ && (governance.seller_promo > 0 || governance.buyer_promo > 0)
                ==> r is Err && r->Err_0 == ErrorCode::OpenPromotion
            &&& r is Ok <==> signer@ == b.authority@ && governance.seller_promo == 0 && governance.buyer_promo == 0
        },
        r matches Ok(plan) ==> {
            &&& *final(slot) is None
            &&& plan@ == seq![
                (TokenOp::Transfer {
                    from: *bonus_vault,
                    to: *receiver_vault,
                    authority: *bonus_address,
                    amount: (*old(slot))->Some_0.amount,
                }),
                (TokenOp::CloseAccount {
                    account: *bonus_vault,
                    destination: *signer,
                    authority: *bonus_address,
                }),
            ]
        },
{
    let bonus = match slot {
        Some(b) => *b,
        None => {
            return Err(ErrorCode::OptionalAccountNotProvided);
        },
    };
    if !address_eq(signer, &bonus.authority) {
        return Err(ErrorCode::IncorrectAuthority);
    }
    if governance.seller_promo > 0 || governance.buyer_promo > 0 {
        return Err(ErrorCode::OpenPromotion);
    }
    let mut plan: Vec<TokenOp> = Vec::new();
    plan.push(TokenOp::Transfer {
        from: *bonus_vault,
        to: *receiver_vault,
        authority: *bonus_address,
        amount: bonus.amount,
    });
    plan.push(TokenOp::CloseAccount {
        account: *bonus_vault,
        destination: *signer,
        authority: *bonus_address,
    });
    *slot = None;
    proof {
        assert(plan@ =~= seq![
            (TokenOp::Transfer {
                from: *bonus_vault,
                to: *receiver_vault,
                authority: *bonus_address,
                amount: (*old(slot))->Some_0.amount,
            }),
            (TokenOp::CloseAccount {
                account: *bonus_vault,
                destination: *signer,
                authority: *bonus_address,
            }),
        ]);
    }
    Ok(plan)
}

/// Pays a reward ledger's vault out and closes it, the counterpart of
/// [`withdraw_bonus`] for the marketplace reward path: gated on the
/// marketplace promotion being closed on both sides and on the caller
/// owning the ledger. The vault's whole balance, read by the embedding
/// program, moves to the participant's own token account and the vault is
/// closed.
pub fn withdraw_reward(
    marketplace: &Marketplace,
    slot: &mut Option<Reward>,
    signer: &Address,
    reward_address: &Address,
    reward_vault: &Address,
    vault_amount: u64,
    receiver_vault: &Address,
) -> (r: Result<Vec<TokenOp>, ErrorCode>)
    ensures
        *old(slot) is None ==> r is Err && r->Err_0 == ErrorCode::OptionalAccountNotProvided,
        r is Err ==> *final(slot) == *old(slot),
        (*old(slot)) matches Some(w) ==> {
            &&& signer@ != w.authority@ ==> r is Err && r->Err_0 == ErrorCode::IncorrectAuthority
            &&& signer@ == w.authority@
                && (marketplace.rewards_config.seller_reward > 0 || marketplace.rewards_config.buyer_reward > 0)
                ==> r is Err && r->Err_0 == ErrorCode::OpenPromotion
            &&& r is Ok <==> signer@ == w.authority@
                && marketplace.rewards_config.seller_reward == 0
                && marketplace.rewards_config.buyer_reward == 0
        },
        r matches Ok(plan) ==> {
            &&& *final(slot) is None
            &&& plan@ == seq![
                (TokenOp::Transfer {
                    from: *reward_vault,
                    to: *receiver_vault,
                    authority: *reward_address,
                    amount: vault_amount,
                }),
                (TokenOp::CloseAccount {
                    account: *reward_vault,
                    destination: *signer,
                    authority: *reward_address,
                }),
            ]
        },
{
    let authority_ok: bool = match slot {
        Some(w) => address_eq(signer, &w.authority),
        None => {
            return Err(ErrorCode::OptionalAccountNotProvided);
        },
    };
    if !authority_ok {
        return Err(ErrorCode::IncorrectAuthority);
    }
    if marketplace.rewards_config.seller_reward > 0 || marketplace.rewards_config.buyer_reward > 0 {
        return Err(ErrorCode::OpenPromotion);
    }
    let mut plan: Vec<TokenOp> = Vec::new();
    plan.push(TokenOp::Transfer {
        from: *reward_vault,
        to: *receiver_vault,
        authority: *reward_address,
        amount: vault_amount,
    });
    plan.push(TokenOp::CloseAccount {
        account: *reward_vault,
        destination: *signer,
        authority: *reward_address,
    });
    *slot = None;
    proof {
        assert(plan@ =~= seq![
            (TokenOp::Transfer {
                from: *reward_vault,
                to: *receiver_vault,
                authority: *reward_address,
                amount: vault_amount,
            }),
            (TokenOp::CloseAccount {
                account: *reward_vault,
                destination: *signer,
                authority: *reward_address,
            }),
        ]);
    }
    Ok(plan)
}

} // verus!
