//! The fixed seed tags of the engine's derived accounts. Each derived
//! account's seed list starts with one of these ASCII tags, followed by the
//! identifying addresses, so that accounts of different kinds can never
//! collide.

use vstd::prelude::*;

verus! {
/// The bytes of the seed tag "marketplace".
pub open spec fn marketplace_tag() -> Seq<u8> {
    seq![109u8, 97u8, 114u8, 107u8, 101u8, 116u8, 112u8, 108u8, 97u8, 99u8, 101u8]
}

/// Owned bytes of the seed tag "marketplace".
pub fn marketplace_tag_vec() -> (r: Vec<u8>)
    ensures
        r@ == marketplace_tag(),
{
    let mut v: Vec<u8> = Vec::new();
    v.push(109u8);
    v.push(97u8);
    v.push(114u8);
    v.push(107u8);
    v.push(101u8);
    v.push(116u8);
    v.push(112u8);
    v.push(108u8);
    v.push(97u8);
    v.push(99u8);
    v.push(101u8);
    proof {
        assert(v@ =~= marketplace_tag());
    }
    v
}

/// The bytes of the seed tag "access_mint".
pub open spec fn access_mint_tag() -> Seq<u8> {
    seq![97u8, 99u8, 99u8, 101u8, 115u8, 115u8, 95u8, 109u8, 105u8, 110u8, 116u8]
}

/// Owned bytes of the seed tag "access_mint".
pub fn access_mint_tag_vec() -> (r: Vec<u8>)
    ensures
        r@ == access_mint_tag(),
{
    let mut v: Vec<u8> = Vec::new();
    v.push(97u8);
    v.push(99u8);
    v.push(99u8);
    v.push(101u8);
    v.push(115u8);
    v.push(115u8);
    v.push(95u8);
    v.push(109u8);
    v.push(105u8);
    v.push(110u8);
    v.push(116u8);
    proof {
        assert(v@ =~= access_mint_tag());
    }
    v
}

/// The bytes of the seed tag "bounty_vault".
pub open spec fn bounty_vault_tag() -> Seq<u8> {
    seq![98u8, 111u8, 117u8, 110u8, 116u8, 121u8, 95u8, 118u8, 97u8, 117u8, 108u8, 116u8]
}

/// Owned bytes of the seed tag "bounty_vault".
pub fn bounty_vault_tag_vec() -> (r: Vec<u8>)
    ensures
        r@ == bounty_vault_tag(),
{
    let mut v: Vec<u8> = Vec::new();
    v.push(98u8);
    v.push(111u8);
    v.push(117u8);
    v.push(110u8);
    v.push(116u8);
    v.push(121u8);
    v.push(95u8);
    v.push(118u8);
    v.push(97u8);
    v.push(117u8);
    v.push(108u8);
    v.push(116u8);
    proof {
        assert(v@ =~= bounty_vault_tag());
    }
    v
}

/// The bytes of the seed tag "product".
pub open spec fn product_tag() -> Seq<u8> {
    seq![112u8, 114u8, 111u8, 100u8, 117u8, 99u8, 116u8]
}

/// Owned bytes of the seed tag "product".
pub fn product_tag_vec() -> (r: Vec<u8>)
    ensures
        r@ == product_tag(),
{
    let mut v: Vec<u8> = Vec::new();
    v.push(112u8);
    v.push(114u8);
    v.push(111u8);
    v.push(100u8);
    v.push(117u8);
    v.push(99u8);
    v.push(116u8);
    proof {
        assert(v@ =~= product_tag());
    }
    v
}

/// The bytes of the seed tag "product_mint".
pub open spec fn product_mint_tag() -> Seq<u8> {
    seq![112u8, 114u8, 111u8, 100u8, 117u8, 99u8, 116u8, 95u8, 109u8, 105u8, 110u8, 116u8]
}

/// Owned bytes of the seed tag "product_mint".
pub fn product_mint_tag_vec() -> (r: Vec<u8>)
    ensures
        r@ == product_mint_tag(),
{
    let mut v: Vec<u8> = Vec::new();
    v.push(112u8);
    v.push(114u8);
    v.push(111u8);
    v.push(100u8);
    v.push(117u8);
    v.push(99u8);
    v.push(116u8);
    v.push(95u8);
    v.push(109u8);
    v.push(105u8);
    v.push(110u8);
    v.push(116u8);
    proof {
        assert(v@ =~= product_mint_tag());
    }
    v
}

/// The bytes of the seed tag "governance".
pub open spec fn governance_tag() -> Seq<u8> {
    seq![103u8, 111u8, 118u8, 101u8, 114u8, 110u8, 97u8, 110u8, 99u8, 101u8]
}

/// Owned bytes of the seed tag "governance".
pub fn governance_tag_vec() -> (r: Vec<u8>)
    ensures
        r@ == governance_tag(),
{
    let mut v: Vec<u8> = Vec::new();
    v.push(103u8);
    v.push(111u8);
    v.push(118u8);
    v.push(101u8);
    v.push(114u8);
    v.push(110u8);
    v.push(97u8);
    v.push(110u8);
    v.push(99u8);
    v.push(101u8);
    proof {
        assert(v@ =~= governance_tag());
    }
    v
}

/// The bytes of the seed tag "governance_bonus_vault".
pub open spec fn governance_bonus_vault_tag() -> Seq<u8> {
    seq![103u8, 111u8, 118u8, 101u8, 114u8, 110u8, 97u8, 110u8, 99u8, 101u8, 95u8, 98u8, 111u8, 110u8, 117u8, 115u8, 95u8, 118u8, 97u8, 117u8, 108u8, 116u8]
}

/// Owned bytes of the seed tag "governance_bonus_vault".
pub fn governance_bonus_vault_tag_vec() -> (r: Vec<u8>)
    ensures
        r@ == governance_bonus_vault_tag(),
{
    let mut v: Vec<u8> = Vec::new();
    v.push(103u8);
    v.push(111u8);
    v.push(118u8);
    v.push(101u8);
    v.push(114u8);
    v.push(110u8);
    v.push(97u8);
    v.push(110u8);
    v.push(99u8);
    v.push(101u8);
    v.push(95u8);
    v.push(98u8);
    v.push(111u8);
    v.push(110u8);
    v.push(117u8);
    v.push(115u8);
    v.push(95u8);
    v.push(118u8);
    v.push(97u8);
    v.push(117u8);
    v.push(108u8);
    v.push(116u8);
    proof {
        assert(v@ =~= governance_bonus_vault_tag());
    }
    v
}

/// The bytes of the seed tag "bonus".
pub open spec fn bonus_tag() -> Seq<u8> {
    seq![98u8, 111u8, 110u8, 117u8, 115u8]
}

/// Owned bytes of the seed tag "bonus".
pub fn bonus_tag_vec() -> (r: Vec<u8>)
    ensures
        r@ == bonus_tag(),
{
    let mut v: Vec<u8> = Vec::new();
    v.push(98u8);
    v.push(111u8);
    v.push(110u8);
    v.push(117u8);
    v.push(115u8);
    proof {
        assert(v@ =~= bonus_tag());
    }
    v
}

/// The bytes of the seed tag "bonus_vault".
pub open spec fn bonus_vault_tag() -> Seq<u8> {
    seq![98u8, 111u8, 110u8, 117u8, 115u8, 95u8, 118u8, 97u8, 117u8, 108u8, 116u8]
}

/// Owned bytes of the seed tag "bonus_vault".
pub fn bonus_vault_tag_vec() -> (r: Vec<u8>)
    ensures
        r@ == bonus_vault_tag(),
{
    let mut v: Vec<u8> = Vec::new();
    v.push(98u8);
    v.push(111u8);
    v.push(110u8);
    v.push(117u8);
    v.push(115u8);
    v.push(95u8);
    v.push(118u8);
    v.push(97u8);
    v.push(117u8);
    v.push(108u8);
    v.push(116u8);
    proof {
        assert(v@ =~= bonus_vault_tag());
    }
    v
}

/// The bytes of the seed tag "reward".
pub open spec fn reward_tag() -> Seq<u8> {
    seq![114u8, 101u8, 119u8, 97u8, 114u8, 100u8]
}

/// Owned bytes of the seed tag "reward".
pub fn reward_tag_vec() -> (r: Vec<u8>)
    ensures
        r@ == reward_tag(),
{
    let mut v: Vec<u8> = Vec::new();
    v.push(114u8);
    v.push(101u8);
    v.push(119u8);
    v.push(97u8);
    v.push(114u8);
    v.push(100u8);
    proof {
        assert(v@ =~= reward_tag());
    }
    v
}

/// The bytes of the seed tag "reward_vault".
pub open spec fn reward_vault_tag() -> Seq<u8> {
    seq![114u8, 101u8, 119u8, 97u8, 114u8, 100u8, 95u8, 118u8, 97u8, 117u8, 108u8, 116u8]
}

/// Owned bytes of the seed tag "reward_vault".
pub fn reward_vault_tag_vec() -> (r: Vec<u8>)
    ensures
        r@ == reward_vault_tag(),
{
    let mut v: Vec<u8> = Vec::new();
    v.push(114u8);
    v.push(101u8);
    v.push(119u8);
    v.push(97u8);
    v.push(114u8);
    v.push(100u8);
    v.push(95u8);
    v.push(118u8);
    v.push(97u8);
    v.push(117u8);
    v.push(108u8);
    v.push(116u8);
    proof {
        assert(v@ =~= reward_vault_tag());
    }
    v
}

} // verus!
