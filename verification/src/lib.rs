//! Core of a futarchy decision engine.
//!
//! A DAO decides proposals by comparing prices on two prediction markets
//! rather than by voting. The pieces, bottom up:
//!
//! - [`question::Question`]: an event with two or more outcomes and an oracle
//!   authorized to resolve it into payout weights.
//! - [`oracle::TwapOracle`]: a manipulation-resistant time-weighted average
//!   price, updated at most once per slot with a bounded step.
//! - [`amm::Amm`]: a constant-product two-asset pool that owns a `TwapOracle`
//!   and drives it from its own spot price.
//! - [`conditional_vault::ConditionalVault`]: escrows collateral and issues
//!   one conditional token per outcome, solvent at every step.
//! - [`proposal::Proposal`]: binds a question, two vaults and two markets;
//!   finalization compares the two TWAPs and resolves the question.
//!
//! Every operation is a synchronous, atomic state transition on plain values.
//! The host environment that stores accounts, moves tokens on the ledger and
//! tells the time hands those values in and carries the results back out.

pub mod amm;
pub mod conditional_vault;
pub mod dao;
pub mod errors;
pub mod keys;
pub mod math;
pub mod oracle;
pub mod proposal;
pub mod question;
pub mod vault_ops;
