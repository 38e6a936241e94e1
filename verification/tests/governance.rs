use futarchy::amm::Amm;
use futarchy::conditional_vault::ConditionalVault;
use futarchy::dao::Dao;
use futarchy::dao::InitializeDao;
use futarchy::dao::InitializeDaoParams;
use futarchy::dao::UpdateDao;
use futarchy::dao::UpdateDaoParams;
use futarchy::errors::AutocratError;
use futarchy::keys::Pubkey;
use futarchy::oracle::TwapOracle;
use futarchy::proposal::FinalizeProposal;
use futarchy::proposal::InitializeProposal;
use futarchy::proposal::InitializeProposalParams;
use futarchy::proposal::Proposal;
use futarchy::proposal::ProposalState;
use futarchy::question::InitializeQuestion;
use futarchy::question::InitializeQuestionArgs;
use futarchy::question::Question;

fn gkey(n: u64) -> Pubkey {
    Pubkey::new(n, 0, 0, 0)
}

fn dao_record() -> Dao {
    Dao {
        token_mint: gkey(20),
        usdc_mint: gkey(21),
        treasury_pda_bump: 250,
        treasury: gkey(22),
        proposal_count: 0,
        pass_threshold_bps: 0,
        slots_per_proposal: 10,
        twap_initial_observation: 100,
        twap_max_observation_change_per_update: 100,
        min_base_futarchic_liquidity: 10,
        min_quote_futarchic_liquidity: 10,
        seq_num: 0,
    }
}

fn proposal_question() -> Question {
    InitializeQuestion::handle(InitializeQuestionArgs {
        question_id: gkey(1),
        oracle: gkey(30),
        num_outcomes: 2,
    })
    .unwrap()
}

/// A market whose oracle shows the given average over slots 0..100.
fn market_with_twap(twap: u128, base_mint: u64, quote_mint: u64) -> Amm {
    Amm {
        bump: 255,
        created_at_slot: 0,
        lp_mint: gkey(40),
        base_mint: gkey(base_mint),
        quote_mint: gkey(quote_mint),
        base_mint_decimals: 9,
        quote_mint_decimals: 6,
        base_amount: 1_000,
        quote_amount: 1_000,
        oracle: TwapOracle {
            created_at_slot: 0,
            last_updated_slot: 100,
            last_observation: twap,
            aggregator: twap * 100,
            initial_observation: twap,
            max_observation_change_per_update: 1_000_000,
            start_delay_slots: 0,
        },
        seq_num: 0,
    }
}

fn pending_proposal() -> Proposal {
    Proposal {
        number: 1,
        proposer: gkey(50),
        description_url: String::from("ipfs://proposal"),
        slot_enqueued: 0,
        state: ProposalState::Pending,
        pass_amm: gkey(41),
        fail_amm: gkey(42),
        base_vault: gkey(43),
        quote_vault: gkey(44),
        dao: gkey(45),
        pass_lp_tokens_locked: 500,
        fail_lp_tokens_locked: 500,
        nonce: 0,
        pda_bump: 249,
        question: gkey(1),
    }
}

fn finalize_ctx(pass_twap: u128, fail_twap: u128, pass_threshold_bps: u16) -> FinalizeProposal {
    let mut dao = dao_record();
    dao.pass_threshold_bps = pass_threshold_bps;
    FinalizeProposal {
        proposal: pending_proposal(),
        pass_amm: market_with_twap(pass_twap, 10, 11),
        fail_amm: market_with_twap(fail_twap, 12, 13),
        dao,
        question: proposal_question(),
        pass_lp_user_balance: 0,
        fail_lp_user_balance: 0,
        pass_lp_vault_balance: 500,
        fail_lp_vault_balance: 500,
    }
}

#[test]
fn finalize_passes_when_pass_market_beats_threshold() {
    // pass TWAP 120 against fail TWAP 100 at a zero threshold: 120 > 100
    let mut ctx = finalize_ctx(120, 100, 0);
    ctx.handle(100).unwrap();
    assert_eq!(ctx.proposal.state, ProposalState::Passed);
    // the question resolves all-or-nothing for the pass world
    assert_eq!(ctx.question.payout_numerators, vec![1, 0]);
    assert_eq!(ctx.question.payout_denominator, 1);
    // the bond returns to the proposer
    assert_eq!(ctx.pass_lp_user_balance, 500);
    assert_eq!(ctx.fail_lp_user_balance, 500);
    assert_eq!(ctx.pass_lp_vault_balance, 0);
    assert_eq!(ctx.fail_lp_vault_balance, 0);
}

#[test]
fn finalize_fails_a_tie() {
    // equal TWAPs at a zero threshold: the comparison is strict, ties fail
    let mut ctx = finalize_ctx(100, 100, 0);
    ctx.handle(100).unwrap();
    assert_eq!(ctx.proposal.state, ProposalState::Failed);
    assert_eq!(ctx.question.payout_numerators, vec![0, 1]);
    assert_eq!(ctx.question.payout_denominator, 1);
}

#[test]
fn finalize_threshold_scales_the_fail_twap() {
    // at 300 basis points the pass market must beat 103
    let mut at_threshold = finalize_ctx(103, 100, 300);
    at_threshold.handle(100).unwrap();
    assert_eq!(at_threshold.proposal.state, ProposalState::Failed);

    let mut above_threshold = finalize_ctx(104, 100, 300);
    above_threshold.handle(100).unwrap();
    assert_eq!(above_threshold.proposal.state, ProposalState::Passed);
}

#[test]
fn finalize_threshold_saturates_instead_of_wrapping() {
    // a fail TWAP so large that scaling it by the threshold would overflow:
    // the multiplication saturates, the comparison still goes through, and
    // the pass market cannot beat the saturated threshold
    let mut ctx = finalize_ctx(120, 100, 300);
    ctx.fail_amm.oracle.aggregator = u128::MAX;
    ctx.fail_amm.oracle.last_observation = u128::MAX / 100;
    ctx.handle(100).unwrap();
    assert_eq!(ctx.proposal.state, ProposalState::Failed);
}

#[test]
fn finalize_twice_fails_and_changes_nothing() {
    let mut ctx = finalize_ctx(120, 100, 0);
    ctx.handle(100).unwrap();
    let r = ctx.handle(101);
    assert_eq!(r.unwrap_err(), AutocratError::ProposalAlreadyFinalized);
    // the failed call left the decided state untouched
    assert_eq!(ctx.proposal.state, ProposalState::Passed);
    assert_eq!(ctx.question.payout_numerators, vec![1, 0]);
    assert_eq!(ctx.pass_lp_user_balance, 500);
}

#[test]
fn finalize_before_the_waiting_period_fails() {
    let mut ctx = finalize_ctx(120, 100, 0);
    let r = ctx.handle(9);
    assert_eq!(r.unwrap_err(), AutocratError::ProposalTooYoung);
    assert_eq!(ctx.proposal.state, ProposalState::Pending);
    assert!(ctx.question.payout_denominator == 0);
}

#[test]
fn finalize_with_uncranked_markets_fails() {
    let mut ctx = finalize_ctx(120, 100, 0);
    // the fail market's oracle stopped before a full proposal duration
    ctx.fail_amm.oracle.last_updated_slot = 9;
    ctx.fail_amm.oracle.aggregator = 100 * 9;
    let r = ctx.handle(100);
    assert_eq!(r.unwrap_err(), AutocratError::MarketsTooYoung);
    assert_eq!(ctx.proposal.state, ProposalState::Pending);
    assert_eq!(ctx.pass_lp_vault_balance, 500);
}

#[test]
fn finalize_validate_reports_each_gate() {
    let ctx = finalize_ctx(120, 100, 0);
    assert_eq!(
        ctx.validate(9).unwrap_err(),
        AutocratError::ProposalTooYoung
    );
    ctx.validate(10).unwrap();
    let mut decided = finalize_ctx(120, 100, 0);
    decided.proposal.state = ProposalState::Failed;
    decided.question.resolve(vec![0, 1]).unwrap();
    assert_eq!(
        decided.validate(100).unwrap_err(),
        AutocratError::ProposalAlreadyFinalized
    );
}

#[test]
fn finalize_bond_return_is_capped_by_custody() {
    // an unrelated transfer drained part of the custody account; the
    // proposal still finalizes and returns what remains
    let mut ctx = finalize_ctx(120, 100, 0);
    ctx.pass_lp_vault_balance = 200;
    ctx.handle(100).unwrap();
    assert_eq!(ctx.pass_lp_user_balance, 200);
    assert_eq!(ctx.pass_lp_vault_balance, 0);
    assert_eq!(ctx.fail_lp_user_balance, 500);
}

#[test]
fn initialize_dao_fills_defaults() {
    let op = InitializeDao {
        token_mint: gkey(20),
        usdc_mint: gkey(21),
        treasury: gkey(22),
        treasury_pda_bump: 250,
    };
    let dao = op.handle(InitializeDaoParams {
        twap_initial_observation: 1_000,
        twap_max_observation_change_per_update: 50,
        min_quote_futarchic_liquidity: 7,
        min_base_futarchic_liquidity: 8,
        pass_threshold_bps: None,
        slots_per_proposal: None,
    });
    assert_eq!(dao.pass_threshold_bps, 300);
    assert_eq!(dao.slots_per_proposal, 648_000);
    assert_eq!(dao.proposal_count, 0);
    assert_eq!(dao.token_mint, gkey(20));
    assert_eq!(dao.usdc_mint, gkey(21));
    assert_eq!(dao.treasury, gkey(22));
    assert_eq!(dao.min_quote_futarchic_liquidity, 7);
    assert_eq!(dao.min_base_futarchic_liquidity, 8);
}

#[test]
fn initialize_dao_takes_explicit_policy() {
    let op = InitializeDao {
        token_mint: gkey(20),
        usdc_mint: gkey(21),
        treasury: gkey(22),
        treasury_pda_bump: 250,
    };
    let dao = op.handle(InitializeDaoParams {
        twap_initial_observation: 1_000,
        twap_max_observation_change_per_update: 50,
        min_quote_futarchic_liquidity: 7,
        min_base_futarchic_liquidity: 8,
        pass_threshold_bps: Some(500),
        slots_per_proposal: Some(100),
    });
    assert_eq!(dao.pass_threshold_bps, 500);
    assert_eq!(dao.slots_per_proposal, 100);
}

#[test]
fn update_dao_touches_only_the_given_fields() {
    let mut op = UpdateDao { dao: dao_record() };
    op.handle(UpdateDaoParams {
        pass_threshold_bps: Some(1_000),
        slots_per_proposal: None,
        twap_initial_observation: None,
        twap_max_observation_change_per_update: Some(42),
        min_quote_futarchic_liquidity: None,
        min_base_futarchic_liquidity: None,
    });
    assert_eq!(op.dao.pass_threshold_bps, 1_000);
    assert_eq!(op.dao.twap_max_observation_change_per_update, 42);
    assert_eq!(op.dao.slots_per_proposal, 10);
    assert_eq!(op.dao.twap_initial_observation, 100);
    assert_eq!(op.dao.seq_num, 1);
}

fn vault_for(question_key: Pubkey, mint: Pubkey) -> ConditionalVault {
    ConditionalVault {
        question: question_key,
        underlying_token_mint: mint,
        underlying_token_account: gkey(60),
        conditional_token_mints: vec![gkey(61), gkey(62)],
        pda_bump: 253,
        decimals: 6,
        seq_num: 0,
    }
}

fn proposal_factory() -> InitializeProposal {
    let dao = dao_record();
    InitializeProposal {
        base_vault: vault_for(gkey(1), dao.token_mint),
        quote_vault: vault_for(gkey(1), dao.usdc_mint),
        dao,
        dao_key: gkey(45),
        question: proposal_question(),
        question_key: gkey(1),
        base_vault_key: gkey(43),
        quote_vault_key: gkey(44),
        pass_amm: market_with_twap(100, 10, 11),
        pass_amm_key: gkey(41),
        fail_amm: market_with_twap(100, 12, 13),
        fail_amm_key: gkey(42),
        pass_lp_mint_supply: 100,
        fail_lp_mint_supply: 100,
        pass_lp_user_balance: 50,
        fail_lp_user_balance: 50,
        pass_lp_vault_balance: 0,
        fail_lp_vault_balance: 0,
        proposer: gkey(50),
    }
}

fn proposal_params(pass_lock: u64, fail_lock: u64) -> InitializeProposalParams {
    InitializeProposalParams {
        description_url: String::from("ipfs://proposal"),
        pass_lp_tokens_to_lock: pass_lock,
        fail_lp_tokens_to_lock: fail_lock,
        nonce: 3,
        base_tokens_to_lp: 1_000,
        quote_tokens_to_lp: 1_000,
    }
}

#[test]
fn initialize_proposal_locks_the_bond() {
    let mut op = proposal_factory();
    let p = op.handle(proposal_params(20, 30), 77, 249).unwrap();
    assert_eq!(p.number, 1);
    assert_eq!(p.state, ProposalState::Pending);
    assert_eq!(p.slot_enqueued, 77);
    assert_eq!(p.pass_lp_tokens_locked, 20);
    assert_eq!(p.fail_lp_tokens_locked, 30);
    assert_eq!(p.proposer, gkey(50));
    assert_eq!(p.nonce, 3);
    assert_eq!(p.question, gkey(1));
    assert_eq!(op.pass_lp_user_balance, 30);
    assert_eq!(op.fail_lp_user_balance, 20);
    assert_eq!(op.pass_lp_vault_balance, 20);
    assert_eq!(op.fail_lp_vault_balance, 30);
    assert_eq!(op.dao.proposal_count, 1);
}

#[test]
fn initialize_proposal_needs_the_lp_balance() {
    let mut op = proposal_factory();
    let r = op.handle(proposal_params(60, 30), 77, 249);
    assert_eq!(r.unwrap_err(), AutocratError::InsufficientLpTokenBalance);
    assert_eq!(op.pass_lp_user_balance, 50);
    assert_eq!(op.dao.proposal_count, 0);
}

#[test]
fn initialize_proposal_needs_enough_liquidity_behind_the_bond() {
    let mut op = proposal_factory();
    // 1000 * 20 / 100 = 200 withdrawable of each reserve; demand more
    op.dao.min_base_futarchic_liquidity = 201;
    let r = op.handle(proposal_params(20, 20), 77, 249);
    assert_eq!(r.unwrap_err(), AutocratError::InsufficientLpTokenLock);
    assert_eq!(op.pass_lp_vault_balance, 0);
}
