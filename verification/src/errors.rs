//! Error taxonomy of the settlement engine. Every failure aborts the whole
//! operation before any ledger movement derived from it may be performed.

use vstd::prelude::*;

verus! {

/// All errors the engine can report. Grouped by kind:
/// input validation, authorization, identity/derivation, lifecycle state,
/// collaborator (token-ledger) failure, and caller-contract violations.
#[derive(Clone, Copy, Debug, PartialEq, Eq, Structural)]
pub enum ErrorCode {
    /// A product cannot be closed while payments against it are still open.
    CannotCloseProduct,
    /// An identifier string longer than the 64 bytes two seed halves can hold.
    StringTooLong,
    /// A checked arithmetic operation would overflow or underflow.
    NumericalOverflow,
    /// A basis-point parameter above the 10000 (100%) bound.
    IncorrectFee,
    /// The caller is not the stored authority of the record.
    IncorrectAuthority,
    /// The caller is not the authority of the token account involved.
    IncorrectTokenAuthority,
    /// A supplied mint does not match the expected one.
    IncorrectMint,
    /// A supplied associated token account does not match the expected one.
    IncorrectATA,
    /// A supplied address does not re-derive from the expected seeds.
    IncorrectSeeds,
    /// A governance record may only be created under the fixed domain name.
    IncorrectGovernanceName,
    /// Conversion between fixed-width identifier forms failed.
    ConversionError,
    /// A promotional purchase was requested while no promotion is active.
    ClosedPromotion,
    /// A bonus withdrawal was requested while a promotion is still open.
    OpenPromotion,
    /// A seller withdrawal was requested before the refund window closed.
    CannotWithdrawYet,
    /// A buyer refund was requested after the refund window closed.
    TimeForRefundHasConsumed,
    /// The token ledger rejected a transfer.
    TransferError,
    /// The token ledger rejected a mint operation.
    MintToError,
    /// The token ledger rejected a burn operation.
    BurnError,
    /// The token ledger rejected closing an account.
    CloseAccountError,
    /// A conditionally required account was not supplied by the caller.
    OptionalAccountNotProvided,
    /// A bounded vault list is already at capacity.
    CapacityExceeded,
    /// The seller does not hold the access token of a permissioned marketplace.
    NotInWhitelist,
}

} // verus!
