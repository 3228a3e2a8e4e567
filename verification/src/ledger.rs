//! The operations the engine asks of the external token ledger. A handler
//! computes an ordered list of these; the embedding program performs them
//! atomically, in order, and aborts the whole call on the first failure.

use vstd::prelude::*;
use crate::address::Address;

verus! {

/// One token-ledger operation of a settlement plan.
#[derive(Clone, Copy, Debug, PartialEq, Eq)]
pub enum TokenOp {
    /// Move `amount` tokens between two token accounts; `authority` signs,
    /// either a wallet or a derived account the program signs for.
    Transfer { from: Address, to: Address, authority: Address, amount: u64 },
    /// Move `amount` of the native currency between two plain accounts.
    NativeTransfer { from: Address, to: Address, amount: u64 },
    /// Mint `amount` tokens of `mint` into a token account; `authority` is
    /// the mint authority.
    MintTo { mint: Address, to: Address, authority: Address, amount: u64 },
    /// Burn `amount` tokens of `mint` out of a token account.
    Burn { mint: Address, from: Address, authority: Address, amount: u64 },
    /// Close a token account, sending its rent to `destination`.
    CloseAccount { account: Address, destination: Address, authority: Address },
}

} // verus!
