//! Settlement engine for an on-chain marketplace: basis-point fee splitting,
//! deterministic (seed-derived) account addressing, marketplace / product /
//! governance configuration records, reward and bonus ledgers, and the escrow
//! state machine that resolves each payment into a refund or a withdrawal.
//!
//! Every operation here is pure with respect to the chain: it validates its
//! inputs, computes the token movements as a list of ledger operations, and
//! updates the records it was handed. Performing the movements (and reading
//! the clock or any account balance) is the embedding program's job.

pub mod address;
pub mod errors;
pub mod fees;
pub mod governance;
pub mod ledger;
pub mod marketplace;
pub mod payment;
pub mod pda;
pub mod product;
pub mod reward;
pub mod settlement;
pub mod seeds;
pub mod utils;
