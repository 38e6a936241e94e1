//! Typed errors.
//!
//! Every operation validates its preconditions before any state mutation and
//! aborts with exactly one of these errors, leaving all state unchanged.
//! Conditions that correct callers can never trigger are excluded by the
//! operations' preconditions instead and so need no variant here.

use vstd::prelude::*;

verus! {

/// Errors of the market (AMM) component.
#[derive(Clone, Copy, Debug, PartialEq, Eq, Structural)]
pub enum AmmError {
    /// The two traded assets of a pool must differ.
    SameTokenMints,
    /// A reserve would be overdrawn by the requested operation.
    InsufficientLiquidity,
    /// No time has elapsed since the oracle's creation, so a time-weighted
    /// average over its window is meaningless.
    DivideByZero,
}

/// Errors of the question and conditional-vault component.
#[derive(Clone, Copy, Debug, PartialEq, Eq, Structural)]
pub enum VaultError {
    /// A question needs at least two outcomes.
    InsufficientNumConditions,
    /// A question can be resolved only once.
    QuestionAlreadyResolved,
    /// Resolution must weight exactly one payout numerator per outcome.
    InvalidNumPayoutNumerators,
    /// Resolution payout weights must not sum to zero.
    PayoutZero,
    /// The set of conditional entries does not match the question's outcomes.
    InvalidConditionals,
    /// The requested amount is not a positive number of tokens.
    InvalidAmount,
    /// The caller holds less collateral than the amount to split.
    InsufficientUnderlyingTokens,
    /// The caller holds less than the amount to merge of some conditional token.
    InsufficientConditionalTokens,
    /// Conditional tokens can be redeemed only after the question resolves.
    CantRedeemConditionalTokens,
    /// The operation would leave the vault's collateral below its maximum
    /// possible liability.
    Insolvent,
}

/// Errors of the proposal component.
#[derive(Clone, Copy, Debug, PartialEq, Eq, Structural)]
pub enum AutocratError {
    /// A proposal's markets must have been created shortly before the proposal.
    AmmTooOld,
    /// A market's initial observation does not match the DAO's configuration.
    InvalidInitialObservation,
    /// A market's maximum observation change does not match the DAO's
    /// configuration.
    InvalidMaxObservationChange,
    /// A market's start delay does not match the DAO's configuration.
    InvalidStartDelaySlots,
    /// A vault's settlement authority is not the expected one.
    InvalidSettlementAuthority,
    /// The mandatory waiting period since enqueueing has not elapsed.
    ProposalTooYoung,
    /// A market's oracle has not accumulated a full proposal duration of
    /// observations since the proposal was enqueued.
    MarketsTooYoung,
    /// A proposal transitions out of the pending state exactly once.
    ProposalAlreadyFinalized,
    /// A vault's nonce does not encode the proposal number.
    InvalidVaultNonce,
    /// Only a passed proposal can be executed.
    ProposalNotPassed,
    /// The proposer holds fewer LP tokens than they asked to lock.
    InsufficientLpTokenBalance,
    /// The LP tokens to lock carry less liquidity than the DAO's minimums.
    InsufficientLpTokenLock,
}

} // verus!
