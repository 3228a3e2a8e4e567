//! The marketplace registry: per-operator configuration of fees, rewards and
//! permissions, together with the bounded list of bounty vaults that fund
//! rewards. All basis-point fields stay within [0, 10000] and the vault list
//! never exceeds its capacity nor loses an entry.

use vstd::prelude::*;
use crate::address::{address_eq, Address};
use crate::errors::ErrorCode;
use crate::fees::{distribution, split_at_bps, effective_bps, FeePayer};
use crate::pda::{derive_address, is_null_marker, matches_null_marker, pda_matches, pda_of, seeds_view};
use crate::seeds::{access_mint_tag, access_mint_tag_vec, bounty_vault_tag, bounty_vault_tag_vec, marketplace_tag, marketplace_tag_vec};

verus! {

/// Who may list products on the marketplace, and whether the proof-of-payment
/// tokens it delivers are transferable.
#[derive(Clone, Copy, Debug)]
pub struct PermissionConfig {
    /// Sellers must hold this token to list products when the marketplace is
    /// not permissionless.
    pub access_mint: Address,
    /// True: anyone may list; false: only holders of the access mint.
    pub permissionless: bool,
    /// True: delivered tokens are transferable; false: non-transferable.
    pub allow_secondary: bool,
}

/// The fee schedule of a marketplace.
#[derive(Clone, Copy, Debug)]
pub struct FeesConfig {
    /// Payments made in this mint have the fee reduced.
    pub discount_mint: Address,
    /// Transaction fee in basis points; 250 is 2.5%.
    pub fee: u16,
    /// Basis points taken off the fee when paying in the discount mint.
    pub fee_reduction: u16,
    /// Which party absorbs the fee.
    pub fee_payer: FeePayer,
}

/// One bounty vault together with the bump its address was derived with, so
/// the two can never fall out of step.
#[derive(Clone, Copy, Debug)]
pub struct BountyVault {
    /// The vault's derived address; its authority is the marketplace account.
    pub address: Address,
    /// The bump nonce recorded when the vault was created.
    pub bump: u8,
}

/// The reward policy of a marketplace.
#[derive(Clone, Debug)]
pub struct RewardsConfig {
    /// Rewards fire only for payments in this mint, or for any mint when this
    /// is the program's wildcard marker address.
    pub reward_mint: Address,
    /// The vaults funding rewards, one per reward mint ever configured,
    /// bounded by [`Marketplace::VAULT_COUNT`].
    pub bounty_vaults: Vec<BountyVault>,
    /// Seller reward in basis points of the transaction volume.
    pub seller_reward: u16,
    /// Buyer reward in basis points of the transaction volume.
    pub buyer_reward: u16,
    /// Master switch: false deactivates rewards whatever the mints are.
    pub rewards_enabled: bool,
}

/// Bump nonces recorded when the marketplace was created; they are stored
/// once and never recomputed at signing time.
#[derive(Clone, Copy, Debug)]
pub struct MarketplaceBumps {
    /// Bump of the marketplace account itself.
    pub bump: u8,
    /// Bump of the access mint account.
    pub access_mint_bump: u8,
}

/// A marketplace: one per operator wallet. Only the stored authority may
/// change its configuration.
#[derive(Clone, Debug)]
pub struct Marketplace {
    /// The operator wallet allowed to modify this record.
    pub authority: Address,
    /// Whether buyers receive a proof-of-payment token on each sale.
    pub deliver_token: bool,
    /// Listing permissions.
    pub permission_config: PermissionConfig,
    /// Fee schedule.
    pub fees_config: FeesConfig,
    /// Reward policy and its funding vaults.
    pub rewards_config: RewardsConfig,
    /// Derivation bumps, recorded at creation.
    pub bumps: MarketplaceBumps,
}

/// Parameters of [`Marketplace::initialize`].
#[derive(Clone, Copy, Debug)]
pub struct InitMarketplaceParams {
    pub fee: u16,
    pub fee_reduction: u16,
    pub seller_reward: u16,
    pub buyer_reward: u16,
    pub deliver_token: bool,
    pub rewards_enabled: bool,
    pub allow_secondary: bool,
    pub permissionless: bool,
    pub fee_payer: FeePayer,
}

/// Parameters of [`Marketplace::edit`].
#[derive(Clone, Copy, Debug)]
pub struct EditMarketplaceInfoParams {
    pub fee: u16,
    pub fee_reduction: u16,
    pub seller_reward: u16,
    pub buyer_reward: u16,
    pub rewards_enabled: bool,
    pub allow_secondary: bool,
    pub permissionless: bool,
    pub fee_payer: FeePayer,
}

impl InitMarketplaceParams {
    /// All basis-point parameters within [0, 10000].
    pub open spec fn bps_ok(&self) -> bool {
        &&& self.fee <= 10000
        &&& self.fee_reduction <= 10000
        &&& self.seller_reward <= 10000
        &&& self.buyer_reward <= 10000
    }
}

impl EditMarketplaceInfoParams {
    /// All basis-point parameters within [0, 10000].
    pub open spec fn bps_ok(&self) -> bool {
        &&& self.fee <= 10000
        &&& self.fee_reduction <= 10000
        &&& self.seller_reward <= 10000
        &&& self.buyer_reward <= 10000
    }
}

/// An on-chain request by a wallet for permission to list products on a
/// marketplace; the operator answers it by delivering the access token.
#[derive(Clone, Copy, Debug)]
pub struct Request {
    /// The wallet asking for access.
    pub authority: Address,
    /// The marketplace asked for access.
    pub marketplace: Address,
    /// Bump of the request account, recorded by the embedding program when
    /// it created the account.
    pub bump: u8,
}

impl Request {
    /// Serialized size of the record: discriminator, the two addresses and
    /// the bump.
    pub const SIZE: usize = 8 + 32 + 32 + 1;

    /// Creates an access request of the signer for the marketplace.
    pub fn init(signer: &Address, marketplace_address: &Address, bump: u8) -> (r: Request)
        ensures
            r == (Request { authority: *signer, marketplace: *marketplace_address, bump }),
    {
        Request { authority: *signer, marketplace: *marketplace_address, bump }
    }
}

/// The seed list of a marketplace account: the tag and the operator wallet.
pub open spec fn marketplace_seeds(authority: Seq<u8>) -> Seq<Seq<u8>> {
    seq![marketplace_tag(), authority]
}

/// Owned seed list of a marketplace account.
pub fn marketplace_seeds_vec(authority: &Address) -> (r: Vec<Vec<u8>>)
    ensures
        seeds_view(r@) == marketplace_seeds(authority@),
{
    let mut seeds: Vec<Vec<u8>> = Vec::new();
    seeds.push(marketplace_tag_vec());
    seeds.push(authority.to_seed());
    proof {
        assert(seeds_view(seeds@) =~= marketplace_seeds(authority@));
    }
    seeds
}

/// The seed list of a marketplace's access mint: the tag and the marketplace
/// address.
pub open spec fn access_mint_seeds(marketplace: Seq<u8>) -> Seq<Seq<u8>> {
    seq![access_mint_tag(), marketplace]
}

/// Owned seed list of an access mint account.
pub fn access_mint_seeds_vec(marketplace: &Address) -> (r: Vec<Vec<u8>>)
    ensures
        seeds_view(r@) == access_mint_seeds(marketplace@),
{
    let mut seeds: Vec<Vec<u8>> = Vec::new();
    seeds.push(access_mint_tag_vec());
    seeds.push(marketplace.to_seed());
    proof {
        assert(seeds_view(seeds@) =~= access_mint_seeds(marketplace@));
    }
    seeds
}

/// The seed list of a bounty vault: the tag, the marketplace address and the
/// reward mint it holds.
pub open spec fn bounty_vault_seeds(marketplace: Seq<u8>, reward_mint: Seq<u8>) -> Seq<Seq<u8>> {
    seq![bounty_vault_tag(), marketplace, reward_mint]
}

/// Owned seed list of a bounty vault account.
pub fn bounty_vault_seeds_vec(marketplace: &Address, reward_mint: &Address) -> (r: Vec<Vec<u8>>)
    ensures
        seeds_view(r@) == bounty_vault_seeds(marketplace@, reward_mint@),
{
    let mut seeds: Vec<Vec<u8>> = Vec::new();
    seeds.push(bounty_vault_tag_vec());
    seeds.push(marketplace.to_seed());
    seeds.push(reward_mint.to_seed());
    proof {
        assert(seeds_view(seeds@) =~= bounty_vault_seeds(marketplace@, reward_mint@));
    }
    seeds
}

/// The reward system fires exactly when it is enabled and the payment mint
/// is the trigger mint, or the trigger mint is the program's wildcard
/// marker. The predicate depends on nothing else; in particular not on any
/// amount.
pub open spec fn rewards_active_spec(cfg: RewardsConfig, payment_mint: Seq<u8>, program_id: Seq<u8>) -> bool {
    &&& cfg.rewards_enabled
    &&& (payment_mint == cfg.reward_mint@ || is_null_marker(cfg.reward_mint@, program_id))
}

/// Deactivated rewards never fire, whatever the payment and trigger mints.
pub proof fn lemma_rewards_disabled_inactive(cfg: RewardsConfig, payment_mint: Seq<u8>, program_id: Seq<u8>)
    requires
        !cfg.rewards_enabled,
    ensures
        !rewards_active_spec(cfg, payment_mint, program_id),
{
}

/// The bump stored beside the first vault whose address matches, or the
/// "not found" sentinel 0. A 0 result means the address does not belong to
/// this list and must never be used as a signing bump.
pub open spec fn vault_bump_for(vaults: Seq<BountyVault>, address: Seq<u8>) -> u8
    decreases vaults.len(),
{
    if vaults.len() == 0 {
        0u8
    } else if vaults[0].address@ == address {
        vaults[0].bump
    } else {
        vault_bump_for(vaults.drop_first(), address)
    }
}

/// An address matching no vault in the list always yields the sentinel 0,
/// never a signing bump.
pub proof fn lemma_vault_bump_absent(vaults: Seq<BountyVault>, address: Seq<u8>)
    requires
        forall|i: int| 0 <= i < vaults.len() ==> (#[trigger] vaults[i]).address@ != address,
    ensures
        vault_bump_for(vaults, address) == 0u8,
    decreases vaults.len(),
{
    if vaults.len() > 0 {
        lemma_vault_bump_absent(vaults.drop_first(), address);
    }
}

impl Marketplace {
    /// Capacity of the bounty vault list.
    pub const VAULT_COUNT: usize = 5;

    /// Serialized size of the record: discriminator, authority,
    /// permission, fee and reward configuration, and bumps, with the vault
    /// list at full capacity.
    pub const SIZE: usize = 8 + 32 + 32 + 1 + 1 + 32 + 2 + 2 + 1 + 32 + 32 * 5 + 2 + 2 + 1 + 1 + 1 * 5 + 1;

    /// Internal invariant: basis points within bounds and the vault list
    /// within capacity.
    pub open spec fn wf(&self) -> bool {
        &&& self.fees_config.fee <= 10000
        &&& self.fees_config.fee_reduction <= 10000
        &&& self.rewards_config.seller_reward <= 10000
        &&& self.rewards_config.buyer_reward <= 10000
        &&& self.rewards_config.bounty_vaults@.len() <= 5
    }

    /// Whether the reward system is active for a payment in the given mint.
    /// It is exactly when rewards are enabled and the payment mint is the
    /// trigger mint or the trigger mint is the wildcard marker; disabled
    /// rewards short-circuit before any derivation.
    pub fn is_rewards_active(reward_config: &RewardsConfig, payment_mint: &Address, program_id: &Address) -> (r: bool)
        ensures
            r == rewards_active_spec(*reward_config, payment_mint@, program_id@),
    {
        if !reward_config.rewards_enabled {
            return false;
        }
        if address_eq(payment_mint, &reward_config.reward_mint) {
            return true;
        }
        matches_null_marker(&reward_config.reward_mint, program_id)
    }

    /// The fee/counterparty split of `amount` under this fee schedule,
    /// discounted when the payment mint is the discount mint.
    pub fn calculate_transfer_distribution(fees: &FeesConfig, payment_mint: &Address, amount: u64) -> (r: Result<(u64, u64), ErrorCode>)
        ensures
            r == distribution(fees.fee, fees.fee_reduction, payment_mint@ == fees.discount_mint@, fees.fee_payer, amount),
    {
        let discounted = address_eq(payment_mint, &fees.discount_mint);
        let adjusted: u16 = if discounted {
            if fees.fee >= fees.fee_reduction {
                fees.fee - fees.fee_reduction
            } else {
                0u16
            }
        } else {
            fees.fee
        };
        proof {
            assert(adjusted == effective_bps(fees.fee, fees.fee_reduction, discounted));
        }
        split_at_bps(adjusted, fees.fee_payer, amount)
    }

    /// Creates a marketplace for the signing operator wallet. All basis
    /// points must be within bounds (`IncorrectFee` otherwise), and the
    /// caller-supplied addresses of the marketplace account, its access mint
    /// and its first bounty vault must each re-derive from their seeds
    /// (`IncorrectSeeds` otherwise). The canonical bumps are recorded once,
    /// here, and never recomputed at signing time.
    pub fn initialize(
        params: InitMarketplaceParams,
        signer: &Address,
        marketplace_address: &Address,
        access_mint: &Address,
        reward_mint: &Address,
        discount_mint: &Address,
        bounty_vault: &Address,
        program_id: &Address,
    ) -> (r: Result<Marketplace, ErrorCode>)
        ensures
            r is Ok <==> params.bps_ok()
                && pda_matches(marketplace_address@, marketplace_seeds(signer@), program_id@)
                && pda_matches(access_mint@, access_mint_seeds(marketplace_address@), program_id@)
                && pda_matches(bounty_vault@, bounty_vault_seeds(marketplace_address@, reward_mint@), program_id@),
            !params.bps_ok() ==> r is Err && r->Err_0 == ErrorCode::IncorrectFee,
            params.bps_ok() && r is Err ==> r->Err_0 == ErrorCode::IncorrectSeeds,
            r matches Ok(m) ==> {
                &&& m.authority == *signer
                &&& m.deliver_token == params.deliver_token
                &&& m.permission_config.access_mint == *access_mint
                &&& m.permission_config.permissionless == params.permissionless
                &&& m.permission_config.allow_secondary == params.allow_secondary
                &&& m.fees_config == (FeesConfig {
                    discount_mint: *discount_mint,
                    fee: params.fee,
                    fee_reduction: params.fee_reduction,
                    fee_payer: params.fee_payer,
                })
                &&& m.rewards_config.reward_mint == *reward_mint
                &&& m.rewards_config.seller_reward == params.seller_reward
                &&& m.rewards_config.buyer_reward == params.buyer_reward
                &&& m.rewards_config.rewards_enabled == params.rewards_enabled
                &&& m.rewards_config.bounty_vaults@.len() == 1
                &&& m.rewards_config.bounty_vaults@[0].address@ == bounty_vault@
                &&& pda_of(marketplace_seeds(signer@), program_id@) == Some((marketplace_address@, m.bumps.bump))
                &&& pda_of(access_mint_seeds(marketplace_address@), program_id@) == Some((access_mint@, m.bumps.access_mint_bump))
                &&& pda_of(bounty_vault_seeds(marketplace_address@, reward_mint@), program_id@)
                    == Some((bounty_vault@, m.rewards_config.bounty_vaults@[0].bump))
                &&& m.wf()
            },
    {
        if params.fee > 10000 || params.fee_reduction > 10000 || params.seller_reward > 10000
            || params.buyer_reward > 10000 {
            return Err(ErrorCode::IncorrectFee);
        }
        let m_seeds = marketplace_seeds_vec(signer);
        let (m_addr, m_bump) = match derive_address(&m_seeds, program_id) {
            Ok(p) => p,
            Err(e) => {
                return Err(e);
            },
        };
        if !address_eq(&m_addr, marketplace_address) {
            return Err(ErrorCode::IncorrectSeeds);
        }
        let a_seeds = access_mint_seeds_vec(marketplace_address);
        let (a_addr, a_bump) = match derive_address(&a_seeds, program_id) {
            Ok(p) => p,
            Err(e) => {
                return Err(e);
            },
        };
        if !address_eq(&a_addr, access_mint) {
            return Err(ErrorCode::IncorrectSeeds);
        }
        let v_seeds = bounty_vault_seeds_vec(marketplace_address, reward_mint);
        let (v_addr, v_bump) = match derive_address(&v_seeds, program_id) {
            Ok(p) => p,
            Err(e) => {
                return Err(e);
            },
        };
        if !address_eq(&v_addr, bounty_vault) {
            return Err(ErrorCode::IncorrectSeeds);
        }
        let mut bounty_vaults: Vec<BountyVault> = Vec::new();
        bounty_vaults.push(BountyVault { address: v_addr, bump: v_bump });
        Ok(Marketplace {
            authority: *signer,
            deliver_token: params.deliver_token,
            permission_config: PermissionConfig {
                access_mint: *access_mint,
                permissionless: params.permissionless,
                allow_secondary: params.allow_secondary,
            },
            fees_config: FeesConfig {
                discount_mint: *discount_mint,
                fee: params.fee,
                fee_reduction: params.fee_reduction,
                fee_payer: params.fee_payer,
            },
            rewards_config: RewardsConfig {
                reward_mint: *reward_mint,
                bounty_vaults,
                seller_reward: params.seller_reward,
                buyer_reward: params.buyer_reward,
                rewards_enabled: params.rewards_enabled,
            },
            bumps: MarketplaceBumps { bump: m_bump, access_mint_bump: a_bump },
        })
    }

    /// Replaces the fee, reward and permission configuration wholesale,
    /// gated on the stored authority, while preserving the access mint, the
    /// bounty vault list and the recorded bumps. An edit never truncates the
    /// vault list.
    pub fn edit(
        &mut self,
        caller: &Address,
        params: EditMarketplaceInfoParams,
        reward_mint: &Address,
        discount_mint: &Address,
    ) -> (r: Result<(), ErrorCode>)
        requires
            old(self).wf(),
        ensures
            final(self).wf(),
            r is Ok <==> caller@ == old(self).authority@ && params.bps_ok(),
            r is Err ==> *final(self) == *old(self),
            caller@ != old(self).authority@ ==> r is Err && r->Err_0 == ErrorCode::IncorrectAuthority,
            caller@ == old(self).authority@ && !params.bps_ok() ==> r is Err && r->Err_0 == ErrorCode::IncorrectFee,
            r is Ok ==> {
                &&& final(self).authority == old(self).authority
                &&& final(self).deliver_token == old(self).deliver_token
                &&& final(self).bumps == old(self).bumps
                &&& final(self).permission_config.access_mint == old(self).permission_config.access_mint
                &&& final(self).permission_config.permissionless == params.permissionless
                &&& final(self).permission_config.allow_secondary == params.allow_secondary
                &&& final(self).fees_config == (FeesConfig {
                    discount_mint: *discount_mint,
                    fee: params.fee,
                    fee_reduction: params.fee_reduction,
                    fee_payer: params.fee_payer,
                })
                &&& final(self).rewards_config.reward_mint == *reward_mint
                &&& final(self).rewards_config.seller_reward == params.seller_reward
                &&& final(self).rewards_config.buyer_reward == params.buyer_reward
                &&& final(self).rewards_config.rewards_enabled == params.rewards_enabled
                &&& final(self).rewards_config.bounty_vaults == old(self).rewards_config.bounty_vaults
            },
    {
        if !address_eq(caller, &self.authority) {
            return Err(ErrorCode::IncorrectAuthority);
        }
        if params.fee > 10000 || params.fee_reduction > 10000 || params.seller_reward > 10000
            || params.buyer_reward > 10000 {
            return Err(ErrorCode::IncorrectFee);
        }
        self.permission_config.permissionless = params.permissionless;
        self.permission_config.allow_secondary = params.allow_secondary;
        self.fees_config = FeesConfig {
            discount_mint: *discount_mint,
            fee: params.fee,
            fee_reduction: params.fee_reduction,
            fee_payer: params.fee_payer,
        };
        self.rewards_config.reward_mint = *reward_mint;
        self.rewards_config.seller_reward = params.seller_reward;
        self.rewards_config.buyer_reward = params.buyer_reward;
        self.rewards_config.rewards_enabled = params.rewards_enabled;
        Ok(())
    }

    /// Appends one bounty vault for a further reward mint, gated on the
    /// stored authority and on the list's capacity, deriving the vault's
    /// canonical address and bump from the marketplace address and the mint.
    /// Returns the new vault's address.
    pub fn add_bounty_vault(
        &mut self,
        caller: &Address,
        marketplace_address: &Address,
        reward_mint: &Address,
        program_id: &Address,
    ) -> (r: Result<Address, ErrorCode>)
        requires
            old(self).wf(),
        ensures
            final(self).wf(),
            r is Ok <==> caller@ == old(self).authority@
                && old(self).rewards_config.bounty_vaults@.len() < 5
                && pda_of(bounty_vault_seeds(marketplace_address@, reward_mint@), program_id@) is Some,
            r is Err ==> *final(self) == *old(self),
            caller@ != old(self).authority@ ==> r is Err && r->Err_0 == ErrorCode::IncorrectAuthority,
            caller@ == old(self).authority@ && old(self).rewards_config.bounty_vaults@.len() >= 5
                ==> r is Err && r->Err_0 == ErrorCode::CapacityExceeded,
            caller@ == old(self).authority@ && old(self).rewards_config.bounty_vaults@.len() < 5 && r is Err
                ==> r->Err_0 == ErrorCode::IncorrectSeeds,
            r matches Ok(a) ==> ({
                let d = pda_of(bounty_vault_seeds(marketplace_address@, reward_mint@), program_id@);
                &&& d is Some
                &&& a@ == d->Some_0.0
                &&& final(self).rewards_config.bounty_vaults@
                    == old(self).rewards_config.bounty_vaults@.push(BountyVault { address: a, bump: d->Some_0.1 })
                &&& final(self).authority == old(self).authority
                &&& final(self).deliver_token == old(self).deliver_token
                &&& final(self).permission_config == old(self).permission_config
                &&& final(self).fees_config == old(self).fees_config
                &&& final(self).rewards_config.reward_mint == old(self).rewards_config.reward_mint
                &&& final(self).rewards_config.seller_reward == old(self).rewards_config.seller_reward
                &&& final(self).rewards_config.buyer_reward == old(self).rewards_config.buyer_reward
                &&& final(self).rewards_config.rewards_enabled == old(self).rewards_config.rewards_enabled
                &&& final(self).bumps == old(self).bumps
            }),
    {
        if !address_eq(caller, &self.authority) {
            return Err(ErrorCode::IncorrectAuthority);
        }
        if self.rewards_config.bounty_vaults.len() >= Self::VAULT_COUNT {
            return Err(ErrorCode::CapacityExceeded);
        }
        let v_seeds = bounty_vault_seeds_vec(marketplace_address, reward_mint);
        let (v_addr, v_bump) = match derive_address(&v_seeds, program_id) {
            Ok(p) => p,
            Err(e) => {
                return Err(e);
            },
        };
        self.rewards_config.bounty_vaults.push(BountyVault { address: v_addr, bump: v_bump });
        Ok(v_addr)
    }

    /// The signing bump stored for a vault address, or the sentinel 0 when
    /// the address belongs to no vault of this marketplace.
    pub fn get_bump(address: &Address, bounty_vaults: &Vec<BountyVault>) -> (r: u8)
        ensures
            r == vault_bump_for(bounty_vaults@, address@),
    {
        let ghost all = bounty_vaults@;
        proof {
            assert(all.skip(0) =~= all);
        }
        let mut i: usize = 0;
        while i < bounty_vaults.len()
            invariant
                i <= all.len(),
                all == bounty_vaults@,
                vault_bump_for(all, address@) == vault_bump_for(all.skip(i as int), address@),
            decreases all.len() - i,
        {
            if address_eq(&bounty_vaults[i].address, address) {
                proof {
                    assert(all.skip(i as int)[0] == all[i as int]);
                }
                return bounty_vaults[i].bump;
            }
            proof {
                assert(all.skip(i as int).drop_first() =~= all.skip(i as int + 1));
                assert(all.skip(i as int)[0] == all[i as int]);
            }
            i += 1;
        }
        0u8
    }
}

} // verus!
