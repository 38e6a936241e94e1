//! Proposals: the futarchy decision state machine.
//!
//! A proposal binds a question, two conditional vaults and two markets, one
//! seeded for the world where it passes and one for the world where it
//! fails. Creation locks the proposer's LP tokens as a bond; after the
//! mandatory duration, finalization compares the pass market's TWAP against
//! the fail market's TWAP scaled by the DAO's threshold, moves the proposal
//! to its terminal state, resolves the question all-or-nothing and returns
//! the bond. Outcome index zero is the pass world, index one the fail
//! world, matching the vaults' conditional-mint ordering.

use vstd::prelude::*;
use crate::amm::Amm;
use crate::amm::withdrawable;
use crate::conditional_vault::ConditionalVault;
use crate::dao::Dao;
use crate::dao::MAX_BPS;
use crate::errors::AutocratError;
use crate::keys::Pubkey;
use crate::question::Question;
use crate::question::sum_u32;

verus! {

/// The lifecycle of a proposal: pending until finalized, then terminal.
#[derive(Clone, Copy, Debug, PartialEq, Eq, Structural)]
pub enum ProposalState {
    /// Still trading; not yet decided.
    Pending,
    /// The pass market beat the threshold.
    Passed,
    /// It did not; ties fail.
    Failed,
}

/// One proposal raised against a DAO.
#[derive(Clone, Debug)]
pub struct Proposal {
    /// Which proposal of its DAO this is.
    pub number: u32,
    /// Who raised it and bonded the liquidity.
    pub proposer: Pubkey,
    /// Where the proposal's description lives.
    pub description_url: String,
    /// Slot at which the proposal was enqueued; the mandatory waiting
    /// period counts from here.
    pub slot_enqueued: u64,
    /// Pending, passed or failed.
    pub state: ProposalState,
    /// The pass-world market.
    pub pass_amm: Pubkey,
    /// The fail-world market.
    pub fail_amm: Pubkey,
    /// The vault of the governance asset.
    pub base_vault: Pubkey,
    /// The vault of the quote asset.
    pub quote_vault: Pubkey,
    /// The DAO this proposal belongs to.
    pub dao: Pubkey,
    /// Pass-market LP tokens bonded by the proposer.
    pub pass_lp_tokens_locked: u64,
    /// Fail-market LP tokens bonded by the proposer.
    pub fail_lp_tokens_locked: u64,
    /// Caller-chosen distinguisher for the proposal's derived identity.
    pub nonce: u64,
    /// Derivation bump of the proposal's own authority.
    pub pda_bump: u8,
    /// The question this proposal resolves.
    pub question: Pubkey,
}

/// Inputs for creating a proposal.
pub struct InitializeProposalParams {
    /// Where the proposal's description lives.
    pub description_url: String,
    /// Pass-market LP tokens to bond.
    pub pass_lp_tokens_to_lock: u64,
    /// Fail-market LP tokens to bond.
    pub fail_lp_tokens_to_lock: u64,
    /// Caller-chosen distinguisher for the proposal's derived identity.
    pub nonce: u64,
    /// Governance tokens the proposer supplied to each market.
    pub base_tokens_to_lp: u64,
    /// Quote tokens the proposer supplied to each market.
    pub quote_tokens_to_lp: u64,
}

/// The operation that creates a proposal: the entities it reads and the
/// treasury-held LP accounts it locks the bond into, as the host read them.
pub struct InitializeProposal {
    /// The governing DAO.
    pub dao: Dao,
    /// Key of the DAO record.
    pub dao_key: Pubkey,
    /// The proposal's question; must still be unresolved.
    pub question: Question,
    /// Key of the question record.
    pub question_key: Pubkey,
    /// The vault of the governance asset.
    pub base_vault: ConditionalVault,
    /// Key of that vault.
    pub base_vault_key: Pubkey,
    /// The vault of the quote asset.
    pub quote_vault: ConditionalVault,
    /// Key of that vault.
    pub quote_vault_key: Pubkey,
    /// The pass-world market.
    pub pass_amm: Amm,
    /// Key of that market.
    pub pass_amm_key: Pubkey,
    /// The fail-world market.
    pub fail_amm: Amm,
    /// Key of that market.
    pub fail_amm_key: Pubkey,
    /// Outstanding supply of the pass market's LP token.
    pub pass_lp_mint_supply: u64,
    /// Outstanding supply of the fail market's LP token.
    pub fail_lp_mint_supply: u64,
    /// The proposer's pass-market LP balance.
    pub pass_lp_user_balance: u64,
    /// The proposer's fail-market LP balance.
    pub fail_lp_user_balance: u64,
    /// The treasury's custody balance of pass-market LP tokens.
    pub pass_lp_vault_balance: u64,
    /// The treasury's custody balance of fail-market LP tokens.
    pub fail_lp_vault_balance: u64,
    /// Who is raising the proposal.
    pub proposer: Pubkey,
}

impl InitializeProposal {
    /// Enough liquidity behind both bonds: what the bonded LP tokens could
    /// withdraw of each reserve meets the DAO's minimums.
    pub open spec fn bonds_sufficient(
        &self,
        pass_lp_tokens_to_lock: u64,
        fail_lp_tokens_to_lock: u64,
    ) -> bool {
        &&& withdrawable(self.pass_amm.base_amount, pass_lp_tokens_to_lock, self.pass_lp_mint_supply)
            >= self.dao.min_base_futarchic_liquidity
        &&& withdrawable(self.fail_amm.base_amount, fail_lp_tokens_to_lock, self.fail_lp_mint_supply)
            >= self.dao.min_base_futarchic_liquidity
        &&& withdrawable(
            self.pass_amm.quote_amount,
            pass_lp_tokens_to_lock,
            self.pass_lp_mint_supply,
        ) >= self.dao.min_quote_futarchic_liquidity
        &&& withdrawable(
            self.fail_amm.quote_amount,
            fail_lp_tokens_to_lock,
            self.fail_lp_mint_supply,
        ) >= self.dao.min_quote_futarchic_liquidity
    }

    /// Creates the proposal in the pending state: checks the proposer's LP
    /// balances, checks that the bond carries enough liquidity, moves the
    /// bond into the treasury's custody and counts the proposal.
    ///
    /// The preconditions record what the host has already checked when it
    /// resolved the accounts: the vaults belong to the question, their
    /// collateral matches the DAO's assets, the question — whose oracle is
    /// the proposal itself — cannot already be resolved, and no ledger
    /// balance exceeds its mint's supply.
    pub fn handle(
        &mut self,
        params: InitializeProposalParams,
        current_slot: u64,
        pda_bump: u8,
    ) -> (r: Result<Proposal, AutocratError>)
        requires
            old(self).question.payout_denominator == 0,
            old(self).base_vault.question == old(self).question_key,
            old(self).quote_vault.question == old(self).question_key,
            old(self).base_vault.underlying_token_mint == old(self).dao.token_mint,
            old(self).quote_vault.underlying_token_mint == old(self).dao.usdc_mint,
            old(self).pass_lp_user_balance <= old(self).pass_lp_mint_supply,
            old(self).fail_lp_user_balance <= old(self).fail_lp_mint_supply,
            old(self).pass_lp_vault_balance + params.pass_lp_tokens_to_lock <= u64::MAX,
            old(self).fail_lp_vault_balance + params.fail_lp_tokens_to_lock <= u64::MAX,
            old(self).dao.proposal_count < u32::MAX,
        ensures
            old(self).pass_lp_user_balance < params.pass_lp_tokens_to_lock || old(
                self,
            ).fail_lp_user_balance < params.fail_lp_tokens_to_lock ==> (r matches Err(e) && e
                == AutocratError::InsufficientLpTokenBalance),
            old(self).pass_lp_user_balance >= params.pass_lp_tokens_to_lock && old(
                self,
            ).fail_lp_user_balance >= params.fail_lp_tokens_to_lock && !old(self).bonds_sufficient(
                params.pass_lp_tokens_to_lock,
                params.fail_lp_tokens_to_lock,
            ) ==> (r matches Err(e) && e == AutocratError::InsufficientLpTokenLock),
            r is Ok <==> old(self).pass_lp_user_balance >= params.pass_lp_tokens_to_lock && old(
                self,
            ).fail_lp_user_balance >= params.fail_lp_tokens_to_lock && old(self).bonds_sufficient(
                params.pass_lp_tokens_to_lock,
                params.fail_lp_tokens_to_lock,
            ),
            r is Err ==> *final(self) == *old(self),
            r matches Ok(p) ==> {
                &&& p.number == old(self).dao.proposal_count + 1
                &&& p.proposer == old(self).proposer
                &&& p.description_url@ == params.description_url@
                &&& p.slot_enqueued == current_slot
                &&& p.state == ProposalState::Pending
                &&& p.pass_amm == old(self).pass_amm_key
                &&& p.fail_amm == old(self).fail_amm_key
                &&& p.base_vault == old(self).base_vault_key
                &&& p.quote_vault == old(self).quote_vault_key
                &&& p.dao == old(self).dao_key
                &&& p.pass_lp_tokens_locked == params.pass_lp_tokens_to_lock
                &&& p.fail_lp_tokens_locked == params.fail_lp_tokens_to_lock
                &&& p.nonce == params.nonce
                &&& p.pda_bump == pda_bump
                &&& p.question == old(self).question_key
                &&& final(self).pass_lp_user_balance == old(self).pass_lp_user_balance
                    - params.pass_lp_tokens_to_lock
                &&& final(self).fail_lp_user_balance == old(self).fail_lp_user_balance
                    - params.fail_lp_tokens_to_lock
                &&& final(self).pass_lp_vault_balance == old(self).pass_lp_vault_balance
                    + params.pass_lp_tokens_to_lock
                &&& final(self).fail_lp_vault_balance == old(self).fail_lp_vault_balance
                    + params.fail_lp_tokens_to_lock
                &&& final(self).dao == (Dao {
                    proposal_count: (old(self).dao.proposal_count + 1) as u32,
                    ..old(self).dao
                })
                &&& final(self).question == old(self).question
                &&& final(self).pass_amm == old(self).pass_amm
                &&& final(self).fail_amm == old(self).fail_amm
            },
    {
        if self.pass_lp_user_balance < params.pass_lp_tokens_to_lock
            || self.fail_lp_user_balance < params.fail_lp_tokens_to_lock {
            return Err(AutocratError::InsufficientLpTokenBalance);
        }
        let (pass_base_liquidity, pass_quote_liquidity) =
            self.pass_amm.get_base_and_quote_withdrawable(
            params.pass_lp_tokens_to_lock,
            self.pass_lp_mint_supply,
        );
        let (fail_base_liquidity, fail_quote_liquidity) =
            self.fail_amm.get_base_and_quote_withdrawable(
            params.fail_lp_tokens_to_lock,
            self.fail_lp_mint_supply,
        );
        if pass_base_liquidity < self.dao.min_base_futarchic_liquidity || fail_base_liquidity
            < self.dao.min_base_futarchic_liquidity || pass_quote_liquidity
            < self.dao.min_quote_futarchic_liquidity || fail_quote_liquidity
            < self.dao.min_quote_futarchic_liquidity {
            return Err(AutocratError::InsufficientLpTokenLock);
        }
        self.pass_lp_user_balance = self.pass_lp_user_balance - params.pass_lp_tokens_to_lock;
        self.fail_lp_user_balance = self.fail_lp_user_balance - params.fail_lp_tokens_to_lock;
        self.pass_lp_vault_balance = self.pass_lp_vault_balance + params.pass_lp_tokens_to_lock;
        self.fail_lp_vault_balance = self.fail_lp_vault_balance + params.fail_lp_tokens_to_lock;
        self.dao.proposal_count = self.dao.proposal_count + 1;
        Ok(
            Proposal {
                number: self.dao.proposal_count,
                proposer: self.proposer,
                description_url: params.description_url,
                slot_enqueued: current_slot,
                state: ProposalState::Pending,
                pass_amm: self.pass_amm_key,
                fail_amm: self.fail_amm_key,
                base_vault: self.base_vault_key,
                quote_vault: self.quote_vault_key,
                dao: self.dao_key,
                pass_lp_tokens_locked: params.pass_lp_tokens_to_lock,
                fail_lp_tokens_locked: params.fail_lp_tokens_to_lock,
                nonce: params.nonce,
                pda_bump,
                question: self.question_key,
            },
        )
    }
}

/// The decision threshold: the fail market's TWAP scaled up by the pass
/// threshold, with the multiplication saturating defensively.
pub open spec fn spec_threshold(fail_twap: int, pass_threshold_bps: u16) -> int {
    let product = fail_twap * (MAX_BPS + pass_threshold_bps);
    let capped = if product > u128::MAX { u128::MAX as int } else { product };
    capped / (MAX_BPS as int)
}

/// The operation that finalizes a proposal: the entities it touches and the
/// proposer's and treasury's LP accounts for the bond, as the host read
/// them.
pub struct FinalizeProposal {
    /// The proposal being decided.
    pub proposal: Proposal,
    /// The pass-world market.
    pub pass_amm: Amm,
    /// The fail-world market.
    pub fail_amm: Amm,
    /// The governing DAO.
    pub dao: Dao,
    /// The proposal's question; this operation resolves it.
    pub question: Question,
    /// The proposer's pass-market LP balance.
    pub pass_lp_user_balance: u64,
    /// The proposer's fail-market LP balance.
    pub fail_lp_user_balance: u64,
    /// The treasury's custody balance of pass-market LP tokens.
    pub pass_lp_vault_balance: u64,
    /// The treasury's custody balance of fail-market LP tokens.
    pub fail_lp_vault_balance: u64,
}

impl FinalizeProposal {
    /// Well-formedness: a binary question whose oracle is this proposal, so
    /// it cannot resolve before the proposal leaves the pending state.
    pub open spec fn wf(&self) -> bool {
        &&& self.question.wf()
        &&& self.question.payout_numerators@.len() == 2
        &&& self.pass_amm.wf()
        &&& self.fail_amm.wf()
        &&& self.proposal.state == ProposalState::Pending ==> self.question.payout_denominator == 0
    }

    /// Both markets have accumulated a full proposal duration of
    /// observations since enqueueing, over a non-empty window.
    pub open spec fn markets_ready(&self) -> bool {
        &&& self.pass_amm.oracle.last_updated_slot >= self.proposal.slot_enqueued
            + self.dao.slots_per_proposal
        &&& self.fail_amm.oracle.last_updated_slot >= self.proposal.slot_enqueued
            + self.dao.slots_per_proposal
        &&& self.pass_amm.oracle.last_updated_slot > self.pass_amm.oracle.created_at_slot
        &&& self.fail_amm.oracle.last_updated_slot > self.fail_amm.oracle.created_at_slot
    }

    /// The validation gates: the mandatory waiting period has elapsed and
    /// the proposal is still pending. Both abort with no state change.
    pub fn validate(&self, current_slot: u64) -> (r: Result<(), AutocratError>)
        ensures
            (current_slot as int) < self.proposal.slot_enqueued + self.dao.slots_per_proposal ==> r
                == Err::<(), AutocratError>(AutocratError::ProposalTooYoung),
            (current_slot as int) >= self.proposal.slot_enqueued + self.dao.slots_per_proposal
                && self.proposal.state != ProposalState::Pending ==> r == Err::<(), AutocratError>(
                AutocratError::ProposalAlreadyFinalized,
            ),
            r == Ok::<(), AutocratError>(()) <==> (current_slot as int) >= self.proposal.slot_enqueued
                + self.dao.slots_per_proposal && self.proposal.state == ProposalState::Pending,
    {
        if (current_slot as u128) < self.proposal.slot_enqueued as u128
            + self.dao.slots_per_proposal as u128 {
            return Err(AutocratError::ProposalTooYoung);
        }
        if !matches!(self.proposal.state, ProposalState::Pending) {
            return Err(AutocratError::ProposalAlreadyFinalized);
        }
        Ok(())
    }

    /// Finalizes the proposal. After the gates, the decision is
    /// unconditional and irreversible: the proposal passes exactly when the
    /// pass market's TWAP strictly exceeds the threshold — ties fail — the
    /// question resolves all-or-nothing for the winning world, and the
    /// bonded LP tokens return to the proposer, capped at what the
    /// treasury's custody accounts still hold.
    pub fn handle(&mut self, current_slot: u64) -> (r: Result<(), AutocratError>)
        requires
            old(self).wf(),
            old(self).pass_lp_user_balance + old(self).proposal.pass_lp_tokens_locked <= u64::MAX,
            old(self).fail_lp_user_balance + old(self).proposal.fail_lp_tokens_locked <= u64::MAX,
        ensures
            (current_slot as int) < old(self).proposal.slot_enqueued + old(
                self,
            ).dao.slots_per_proposal ==> r == Err::<(), AutocratError>(
                AutocratError::ProposalTooYoung,
            ),
            (current_slot as int) >= old(self).proposal.slot_enqueued + old(
                self,
            ).dao.slots_per_proposal && old(self).proposal.state != ProposalState::Pending ==> r
                == Err::<(), AutocratError>(AutocratError::ProposalAlreadyFinalized),
            (current_slot as int) >= old(self).proposal.slot_enqueued + old(
                self,
            ).dao.slots_per_proposal && old(self).proposal.state == ProposalState::Pending && !old(
                self,
            ).markets_ready() ==> r == Err::<(), AutocratError>(AutocratError::MarketsTooYoung),
            r is Err ==> *final(self) == *old(self),
            r == Ok::<(), AutocratError>(()) <==> (current_slot as int) >= old(
                self,
            ).proposal.slot_enqueued + old(self).dao.slots_per_proposal && old(self).proposal.state
                == ProposalState::Pending && old(self).markets_ready(),
            r == Ok::<(), AutocratError>(()) ==> {
                let pass_twap = old(self).pass_amm.spec_twap();
                let fail_twap = old(self).fail_amm.spec_twap();
                let passed = pass_twap > spec_threshold(
                    fail_twap,
                    old(self).dao.pass_threshold_bps,
                );
                let pass_moved = if old(self).proposal.pass_lp_tokens_locked <= old(
                    self,
                ).pass_lp_vault_balance {
                    old(self).proposal.pass_lp_tokens_locked as int
                } else {
                    old(self).pass_lp_vault_balance as int
                };
                let fail_moved = if old(self).proposal.fail_lp_tokens_locked <= old(
                    self,
                ).fail_lp_vault_balance {
                    old(self).proposal.fail_lp_tokens_locked as int
                } else {
                    old(self).fail_lp_vault_balance as int
                };
                &&& final(self).proposal.state == (if passed {
                    ProposalState::Passed
                } else {
                    ProposalState::Failed
                })
                &&& final(self).question.payout_denominator == 1
                &&& final(self).question.payout_numerators@ == (if passed {
                    seq![1u32, 0u32]
                } else {
                    seq![0u32, 1u32]
                })
                &&& final(self).question.question_id == old(self).question.question_id
                &&& final(self).question.oracle == old(self).question.oracle
                &&& final(self).pass_lp_user_balance == old(self).pass_lp_user_balance + pass_moved
                &&& final(self).fail_lp_user_balance == old(self).fail_lp_user_balance + fail_moved
                &&& final(self).pass_lp_vault_balance == old(self).pass_lp_vault_balance
                    - pass_moved
                &&& final(self).fail_lp_vault_balance == old(self).fail_lp_vault_balance
                    - fail_moved
                &&& final(self).proposal == (Proposal {
                    state: final(self).proposal.state,
                    ..old(self).proposal
                })
                &&& final(self).pass_amm == old(self).pass_amm
                &&& final(self).fail_amm == old(self).fail_amm
                &&& final(self).dao == old(self).dao
                &&& final(self).wf()
            },
    {
        match self.validate(current_slot) {
            Ok(()) => {},
            Err(e) => {
                return Err(e);
            },
        }
        // markets must have been cranked over a full proposal duration
        let enqueued_deadline: u128 = self.proposal.slot_enqueued as u128
            + self.dao.slots_per_proposal as u128;
        if (self.pass_amm.oracle.last_updated_slot as u128) < enqueued_deadline
            || (self.fail_amm.oracle.last_updated_slot as u128) < enqueued_deadline
            || self.pass_amm.oracle.last_updated_slot == self.pass_amm.oracle.created_at_slot
            || self.fail_amm.oracle.last_updated_slot == self.fail_amm.oracle.created_at_slot {
            return Err(AutocratError::MarketsTooYoung);
        }
        let pass_market_twap = match self.pass_amm.get_twap() {
            Ok(v) => v,
            Err(_) => {
                return Err(AutocratError::MarketsTooYoung);
            },
        };
        let fail_market_twap = match self.fail_amm.get_twap() {
            Ok(v) => v,
            Err(_) => {
                return Err(AutocratError::MarketsTooYoung);
            },
        };
        // threshold = fail_twap * (MAX_BPS + pass_threshold_bps) / MAX_BPS,
        // saturating defensively rather than wrapping
        let total_bps: u128 = MAX_BPS as u128 + self.dao.pass_threshold_bps as u128;
        let scaled: u128 = match fail_market_twap.checked_mul(total_bps) {
            Some(v) => v,
            None => u128::MAX,
        };
        let threshold: u128 = scaled / (MAX_BPS as u128);
        let passed = pass_market_twap > threshold;
        // return the bond, capped at what the custody accounts still hold so
        // that an unrelated transfer out of them cannot brick the proposal
        let pass_moved = if self.proposal.pass_lp_tokens_locked <= self.pass_lp_vault_balance {
            self.proposal.pass_lp_tokens_locked
        } else {
            self.pass_lp_vault_balance
        };
        let fail_moved = if self.proposal.fail_lp_tokens_locked <= self.fail_lp_vault_balance {
            self.proposal.fail_lp_tokens_locked
        } else {
            self.fail_lp_vault_balance
        };
        self.pass_lp_vault_balance = self.pass_lp_vault_balance - pass_moved;
        self.pass_lp_user_balance = self.pass_lp_user_balance + pass_moved;
        self.fail_lp_vault_balance = self.fail_lp_vault_balance - fail_moved;
        self.fail_lp_user_balance = self.fail_lp_user_balance + fail_moved;
        // decide, then resolve the question for the winning world
        let mut payout_numerators: Vec<u32> = Vec::new();
        if passed {
            self.proposal.state = ProposalState::Passed;
            payout_numerators.push(1);
            payout_numerators.push(0);
        } else {
            self.proposal.state = ProposalState::Failed;
            payout_numerators.push(0);
            payout_numerators.push(1);
        }
        proof {
            let nums = payout_numerators@;
            assert(nums.len() == 2);
            assert(nums[0] + nums[1] == 1);
            let first = nums.drop_last();
            assert(first.len() == 1);
            assert(first.last() == nums[0]);
            assert(first.drop_last() =~= Seq::<u32>::empty());
            assert(sum_u32(first.drop_last()) == 0);
            assert(sum_u32(first) == nums[0]);
            assert(nums.last() == nums[1]);
            assert(sum_u32(nums) == nums[0] + nums[1]);
        }
        match self.question.resolve(payout_numerators) {
            Ok(()) => {},
            Err(_) => {
                // unreachable: the question is unresolved while the proposal
                // is pending, the weights match its two outcomes, and they
                // sum to one
                return Err(AutocratError::ProposalAlreadyFinalized);
            },
        }
        Ok(())
    }
}

} // verus!
