use futarchy::amm::Amm;
use futarchy::amm::CrankThatTwap;
use futarchy::amm::CreateAmm;
use futarchy::amm::CreateAmmArgs;
use futarchy::amm::PRICE_SCALE;
use futarchy::errors::AmmError;
use futarchy::keys::Pubkey;

fn mkey(n: u64) -> Pubkey {
    Pubkey::new(n, 0, 0, 0)
}

fn pool_factory() -> CreateAmm {
    CreateAmm {
        base_mint: mkey(10),
        quote_mint: mkey(11),
        base_mint_decimals: 9,
        quote_mint_decimals: 6,
        lp_mint: mkey(12),
    }
}

fn pool_args() -> CreateAmmArgs {
    CreateAmmArgs {
        twap_initial_observation: 1_000_000,
        twap_max_observation_change_per_update: 500_000_000_000_000_000,
        twap_start_delay_slots: 0,
    }
}

#[test]
fn create_amm_rejects_identical_mints() {
    let mut op = pool_factory();
    op.quote_mint = op.base_mint;
    assert_eq!(op.validate().unwrap_err(), AmmError::SameTokenMints);
    assert_eq!(
        op.handle(pool_args(), 7, 255).unwrap_err(),
        AmmError::SameTokenMints
    );
}

#[test]
fn create_amm_starts_empty_with_a_fresh_oracle() {
    let amm = pool_factory().handle(pool_args(), 7, 255).unwrap();
    assert_eq!(amm.base_amount, 0);
    assert_eq!(amm.quote_amount, 0);
    assert_eq!(amm.created_at_slot, 7);
    assert_eq!(amm.seq_num, 0);
    assert_eq!(amm.oracle.created_at_slot, 7);
    assert_eq!(amm.oracle.last_updated_slot, 7);
    assert_eq!(amm.oracle.aggregator, 0);
    assert_eq!(amm.oracle.last_observation, 1_000_000);
    assert_eq!(amm.oracle.initial_observation, 1_000_000);
}

#[test]
fn spot_price_is_quote_per_base_in_fixed_point() {
    let mut amm = pool_factory().handle(pool_args(), 0, 255).unwrap();
    amm.add_liquidity(1_000, 2_000);
    assert_eq!(amm.spot_price(), 2 * PRICE_SCALE);
}

#[test]
fn crank_feeds_the_oracle_the_spot_price() {
    let mut amm = pool_factory().handle(pool_args(), 0, 255).unwrap();
    amm.add_liquidity(1_000, 2_000);
    let mut crank = CrankThatTwap { amm };
    crank.handle(10);
    // ten slots at the seed observation
    assert_eq!(crank.amm.oracle.aggregator, 10 * 1_000_000);
    // the clamp band is wide enough here to take the spot price as is
    assert_eq!(crank.amm.oracle.last_observation, 2 * PRICE_SCALE);
    assert_eq!(crank.amm.seq_num, 2);
}

#[test]
fn crank_with_an_empty_pool_leaves_the_oracle_alone() {
    let amm = pool_factory().handle(pool_args(), 0, 255).unwrap();
    let before = amm.oracle;
    let mut crank = CrankThatTwap { amm };
    crank.handle(50);
    assert_eq!(crank.amm.oracle, before);
    assert_eq!(crank.amm.seq_num, 1);
}

#[test]
fn swap_follows_the_constant_product_rule() {
    let mut amm = pool_factory().handle(pool_args(), 0, 255).unwrap();
    amm.add_liquidity(1_000, 1_000);
    let out = amm.swap_base_for_quote(100).unwrap();
    // 1000 * 100 / 1100, rounded down
    assert_eq!(out, 90);
    assert_eq!(amm.base_amount, 1_100);
    assert_eq!(amm.quote_amount, 910);
    // rounding favors the pool: the reserve product never falls
    assert!(1_100u128 * 910 >= 1_000u128 * 1_000);
}

#[test]
fn swap_back_follows_the_same_rule() {
    let mut amm = pool_factory().handle(pool_args(), 0, 255).unwrap();
    amm.add_liquidity(1_000, 1_000);
    let out = amm.swap_quote_for_base(500).unwrap();
    // 1000 * 500 / 1500, rounded down
    assert_eq!(out, 333);
    assert_eq!(amm.quote_amount, 1_500);
    assert_eq!(amm.base_amount, 667);
}

#[test]
fn swap_on_an_empty_pool_fails() {
    let mut amm = pool_factory().handle(pool_args(), 0, 255).unwrap();
    let r = amm.swap_base_for_quote(100);
    assert_eq!(r.unwrap_err(), AmmError::InsufficientLiquidity);
    assert_eq!(amm.base_amount, 0);
}

#[test]
fn remove_liquidity_cannot_overdraw_a_reserve() {
    let mut amm = pool_factory().handle(pool_args(), 0, 255).unwrap();
    amm.add_liquidity(500, 800);
    let r = amm.remove_liquidity(501, 100);
    assert_eq!(r.unwrap_err(), AmmError::InsufficientLiquidity);
    assert_eq!(amm.base_amount, 500);
    assert_eq!(amm.quote_amount, 800);
    amm.remove_liquidity(500, 800).unwrap();
    assert_eq!(amm.base_amount, 0);
    assert_eq!(amm.quote_amount, 0);
}

#[test]
fn withdrawable_liquidity_is_proportional() {
    let mut amm = pool_factory().handle(pool_args(), 0, 255).unwrap();
    amm.add_liquidity(500, 800);
    let (base, quote) = amm.get_base_and_quote_withdrawable(10, 100);
    assert_eq!(base, 50);
    assert_eq!(quote, 80);
    // with no LP tokens outstanding nothing is withdrawable
    let (b0, q0) = amm.get_base_and_quote_withdrawable(0, 0);
    assert_eq!((b0, q0), (0, 0));
}

#[test]
fn pool_twap_tracks_a_steady_market() {
    // a pool whose spot price never moves yields exactly that price
    let args = CreateAmmArgs {
        twap_initial_observation: 2 * PRICE_SCALE,
        twap_max_observation_change_per_update: PRICE_SCALE,
        twap_start_delay_slots: 0,
    };
    let mut amm = pool_factory().handle(args, 0, 255).unwrap();
    amm.add_liquidity(1_000, 2_000);
    let mut crank = CrankThatTwap { amm };
    crank.handle(25);
    crank.handle(90);
    assert_eq!(crank.amm.get_twap().unwrap(), 2 * PRICE_SCALE);
}

#[test]
fn pool_twap_needs_a_window() {
    let amm = pool_factory().handle(pool_args(), 3, 255).unwrap();
    assert_eq!(amm.get_twap().unwrap_err(), AmmError::DivideByZero);
}
