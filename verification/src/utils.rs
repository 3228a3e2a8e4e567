//! Identifier splitting and the escrow withdrawal split.

use vstd::prelude::*;
use crate::errors::ErrorCode;
use crate::fees::{distribution, split_at_bps, FeePayer};

verus! {

/// A 64-byte identifier: the given bytes, padded at the tail with ASCII
/// spaces up to 64 bytes.
pub open spec fn padded_id(s: Seq<u8>) -> Seq<u8> {
    Seq::new(64, |i: int| if i < s.len() { s[i] } else { 32u8 })
}

/// Splits an identifier of at most 64 bytes into two 32-byte seed halves,
/// padding the tail with ASCII spaces; identifiers are split because a single
/// derivation seed component holds at most 32 bytes.
pub fn get_splitted_id(id: &Vec<u8>) -> (r: Result<(Vec<u8>, Vec<u8>), ErrorCode>)
    ensures
        r is Ok <==> id@.len() <= 64,
        r matches Err(e) ==> e == ErrorCode::StringTooLong,
        r matches Ok(p) ==> {
            &&& p.0@ == padded_id(id@).subrange(0, 32)
            &&& p.1@ == padded_id(id@).subrange(32, 64)
        },
{
    if id.len() > 64 {
        return Err(ErrorCode::StringTooLong);
    }
    let mut first: Vec<u8> = Vec::new();
    let mut i: usize = 0;
    while i < 32
        invariant
            i <= 32,
            id@.len() <= 64,
            first@.len() == i,
            forall|j: int| 0 <= j < i ==> first@[j] == padded_id(id@)[j],
        decreases 32 - i,
    {
        if i < id.len() {
            first.push(id[i]);
        } else {
            first.push(32u8);
        }
        i += 1;
    }
    let mut second: Vec<u8> = Vec::new();
    let mut k: usize = 32;
    while k < 64
        invariant
            32 <= k <= 64,
            id@.len() <= 64,
            second@.len() == k - 32,
            forall|j: int| 32 <= j < k ==> second@[j - 32] == padded_id(id@)[j],
        decreases 64 - k,
    {
        if k < id.len() {
            second.push(id[k]);
        } else {
            second.push(32u8);
        }
        k += 1;
    }
    proof {
        assert(first@ =~= padded_id(id@).subrange(0, 32));
        assert(second@ =~= padded_id(id@).subrange(32, 64));
    }
    Ok((first, second))
}

/// Fee-then-remainder split of an escrowed price at the given basis points;
/// the seller absorbs the fee and receives the remainder.
pub fn get_withdraw_amounts(fee_basis_points: u16, price: u64) -> (r: Result<(u64, u64), ErrorCode>)
    ensures
        r == distribution(fee_basis_points, 0u16, false, FeePayer::Seller, price),
{
    split_at_bps(fee_basis_points, FeePayer::Seller, price)
}

} // verus!
