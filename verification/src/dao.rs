//! The DAO registry: global policy consumed by proposal finalization.
//!
//! A DAO record carries the thresholds, durations and liquidity minimums
//! that govern every proposal raised against it, plus the identities of its
//! governance and quote assets and of its treasury authority.

use vstd::prelude::*;
use crate::keys::Pubkey;

verus! {

/// Pass threshold applied when a DAO is created without one: the pass
/// market must beat the fail market by three percent.
pub const DEFAULT_PASS_THRESHOLD_BPS: u16 = 300;

/// Proposal duration applied when a DAO is created without one: three days
/// of slots at 400 milliseconds per slot.
pub const THREE_DAYS_IN_SLOTS: u64 = 648_000;

/// One hundred percent, in basis points.
pub const MAX_BPS: u16 = 10_000;

/// Global configuration of one DAO.
#[derive(Clone, Copy, Debug, PartialEq, Eq, Structural)]
pub struct Dao {
    /// The governance token.
    pub token_mint: Pubkey,
    /// The quote asset proposals are priced in.
    pub usdc_mint: Pubkey,
    /// Derivation bump of the treasury authority.
    pub treasury_pda_bump: u8,
    /// The treasury authority that holds bonded liquidity.
    pub treasury: Pubkey,
    /// How many proposals this DAO has seen.
    pub proposal_count: u32,
    /// How far, in basis points, the pass market must beat the fail market.
    pub pass_threshold_bps: u16,
    /// The mandatory lifetime of a proposal, in slots.
    pub slots_per_proposal: u64,
    /// Oracle seed observation required of proposal markets.
    pub twap_initial_observation: u128,
    /// Oracle clamp bound required of proposal markets.
    pub twap_max_observation_change_per_update: u128,
    /// Least governance-token liquidity a proposer must bond.
    pub min_base_futarchic_liquidity: u64,
    /// Least quote liquidity a proposer must bond.
    pub min_quote_futarchic_liquidity: u64,
    /// Count of configuration changes, for ordering events.
    pub seq_num: u64,
}

/// Inputs for creating a DAO; omitted policy values fall back to defaults.
#[derive(Clone, Copy, Debug, PartialEq, Eq, Structural)]
pub struct InitializeDaoParams {
    /// Oracle seed observation for this DAO's proposal markets.
    pub twap_initial_observation: u128,
    /// Oracle clamp bound for this DAO's proposal markets.
    pub twap_max_observation_change_per_update: u128,
    /// Least quote liquidity a proposer must bond.
    pub min_quote_futarchic_liquidity: u64,
    /// Least governance-token liquidity a proposer must bond.
    pub min_base_futarchic_liquidity: u64,
    /// Pass threshold, or the default when absent.
    pub pass_threshold_bps: Option<u16>,
    /// Proposal duration, or the default when absent.
    pub slots_per_proposal: Option<u64>,
}

/// The operation that creates a DAO. The host derives the treasury
/// authority from the new record's identity and hands it in.
pub struct InitializeDao {
    /// The governance token.
    pub token_mint: Pubkey,
    /// The quote asset; six decimal places.
    pub usdc_mint: Pubkey,
    /// The derived treasury authority.
    pub treasury: Pubkey,
    /// Derivation bump of the treasury authority.
    pub treasury_pda_bump: u8,
}

impl InitializeDao {
    /// Builds the DAO record, filling absent policy values with defaults.
    pub fn handle(&self, params: InitializeDaoParams) -> (dao: Dao)
        ensures
            dao == (Dao {
                token_mint: self.token_mint,
                usdc_mint: self.usdc_mint,
                treasury_pda_bump: self.treasury_pda_bump,
                treasury: self.treasury,
                proposal_count: 0,
                pass_threshold_bps: match params.pass_threshold_bps {
                    Option::Some(v) => v,
                    Option::None => DEFAULT_PASS_THRESHOLD_BPS,
                },
                slots_per_proposal: match params.slots_per_proposal {
                    Option::Some(v) => v,
                    Option::None => THREE_DAYS_IN_SLOTS,
                },
                twap_initial_observation: params.twap_initial_observation,
                twap_max_observation_change_per_update:
                    params.twap_max_observation_change_per_update,
                min_base_futarchic_liquidity: params.min_base_futarchic_liquidity,
                min_quote_futarchic_liquidity: params.min_quote_futarchic_liquidity,
                seq_num: 0,
            }),
    {
        let pass_threshold_bps = match params.pass_threshold_bps {
            Some(v) => v,
            None => DEFAULT_PASS_THRESHOLD_BPS,
        };
        let slots_per_proposal = match params.slots_per_proposal {
            Some(v) => v,
            None => THREE_DAYS_IN_SLOTS,
        };
        Dao {
            token_mint: self.token_mint,
            usdc_mint: self.usdc_mint,
            treasury_pda_bump: self.treasury_pda_bump,
            treasury: self.treasury,
            proposal_count: 0,
            pass_threshold_bps,
            slots_per_proposal,
            twap_initial_observation: params.twap_initial_observation,
            twap_max_observation_change_per_update: params.twap_max_observation_change_per_update,
            min_base_futarchic_liquidity: params.min_base_futarchic_liquidity,
            min_quote_futarchic_liquidity: params.min_quote_futarchic_liquidity,
            seq_num: 0,
        }
    }
}

/// Inputs for reconfiguring a DAO; absent fields stay as they are.
#[derive(Clone, Copy, Debug, PartialEq, Eq, Structural)]
pub struct UpdateDaoParams {
    /// New pass threshold, if any.
    pub pass_threshold_bps: Option<u16>,
    /// New proposal duration, if any.
    pub slots_per_proposal: Option<u64>,
    /// New oracle seed observation, if any.
    pub twap_initial_observation: Option<u128>,
    /// New oracle clamp bound, if any.
    pub twap_max_observation_change_per_update: Option<u128>,
    /// New quote liquidity minimum, if any.
    pub min_quote_futarchic_liquidity: Option<u64>,
    /// New governance-token liquidity minimum, if any.
    pub min_base_futarchic_liquidity: Option<u64>,
}

/// The operation that reconfigures a DAO. Only the DAO's treasury may call
/// it, which the host checks by signature before invoking.
pub struct UpdateDao {
    /// The DAO being reconfigured.
    pub dao: Dao,
}

impl UpdateDao {
    /// Applies every given field and leaves the rest unchanged.
    pub fn handle(&mut self, dao_params: UpdateDaoParams)
        requires
            old(self).dao.seq_num < u64::MAX,
        ensures
            final(self).dao == (Dao {
                pass_threshold_bps: match dao_params.pass_threshold_bps {
                    Option::Some(v) => v,
                    Option::None => old(self).dao.pass_threshold_bps,
                },
                slots_per_proposal: match dao_params.slots_per_proposal {
                    Option::Some(v) => v,
                    Option::None => old(self).dao.slots_per_proposal,
                },
                twap_initial_observation: match dao_params.twap_initial_observation {
                    Option::Some(v) => v,
                    Option::None => old(self).dao.twap_initial_observation,
                },
                twap_max_observation_change_per_update: match dao_params
                    .twap_max_observation_change_per_update {
                    Option::Some(v) => v,
                    Option::None => old(self).dao.twap_max_observation_change_per_update,
                },
                min_quote_futarchic_liquidity: match dao_params.min_quote_futarchic_liquidity {
                    Option::Some(v) => v,
                    Option::None => old(self).dao.min_quote_futarchic_liquidity,
                },
                min_base_futarchic_liquidity: match dao_params.min_base_futarchic_liquidity {
                    Option::Some(v) => v,
                    Option::None => old(self).dao.min_base_futarchic_liquidity,
                },
                seq_num: (old(self).dao.seq_num + 1) as u64,
                ..old(self).dao
            }),
    {
        if let Some(v) = dao_params.pass_threshold_bps {
            self.dao.pass_threshold_bps = v;
        }
        if let Some(v) = dao_params.slots_per_proposal {
            self.dao.slots_per_proposal = v;
        }
        if let Some(v) = dao_params.twap_initial_observation {
            self.dao.twap_initial_observation = v;
        }
        if let Some(v) = dao_params.twap_max_observation_change_per_update {
            self.dao.twap_max_observation_change_per_update = v;
        }
        if let Some(v) = dao_params.min_quote_futarchic_liquidity {
            self.dao.min_quote_futarchic_liquidity = v;
        }
        if let Some(v) = dao_params.min_base_futarchic_liquidity {
            self.dao.min_base_futarchic_liquidity = v;
        }
        self.dao.seq_num = self.dao.seq_num + 1;
    }
}

} // verus!
