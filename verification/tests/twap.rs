use futarchy::errors::AmmError;
use futarchy::oracle::TwapOracle;

#[test]
fn twap_over_constant_price_is_exactly_that_price() {
    // price P for the whole window, seeded at P: the average is exactly P
    let p: u128 = 5_000_000_000_000;
    let mut o = TwapOracle::new(0, p, 1_000_000_000_000_000, 0);
    o.update(7, p);
    o.update(19, p);
    o.update(64, p);
    assert_eq!(o.get_twap().unwrap(), p);
}

#[test]
fn twap_weights_each_interval_by_the_previous_observation() {
    // the average is the time integral of the previous observation: a price
    // change applies prospectively, not retroactively
    let mut o = TwapOracle::new(0, 100, 1_000_000, 0);
    o.update(10, 200);
    // first ten slots at the seed price of 100
    assert_eq!(o.aggregator, 1_000);
    assert_eq!(o.last_observation, 200);
    o.update(15, 200);
    // five more slots at 200
    assert_eq!(o.aggregator, 2_000);
    assert_eq!(o.get_twap().unwrap(), 2_000 / 15);
}

#[test]
fn twap_observation_step_is_clamped() {
    // each recorded observation moves at most max_change from the previous
    let mut o = TwapOracle::new(0, 1_000, 100, 0);
    o.update(1, 5_000);
    assert_eq!(o.last_observation, 1_100);
    o.update(2, 0);
    assert_eq!(o.last_observation, 1_000);
    o.update(3, 1_050);
    // within the clamp band the instant price is taken as is
    assert_eq!(o.last_observation, 1_050);
}

#[test]
fn twap_clamp_near_zero_takes_the_instant_price() {
    // the clamp band may reach below zero; a small drop inside it is taken
    let mut o = TwapOracle::new(0, 50, 100, 0);
    o.update(1, 0);
    assert_eq!(o.last_observation, 0);
    o.update(2, 30);
    assert_eq!(o.last_observation, 30);
}

#[test]
fn twap_empty_window_fails() {
    let o = TwapOracle::new(42, 1_000, 100, 0);
    assert_eq!(o.get_twap().unwrap_err(), AmmError::DivideByZero);
}

#[test]
fn twap_second_observation_in_a_slot_is_ignored() {
    let mut o = TwapOracle::new(0, 1_000, 100, 0);
    o.update(5, 1_050);
    let before = o;
    o.update(5, 2_000);
    assert_eq!(o, before);
}

#[test]
fn twap_start_delay_freezes_the_observation() {
    // within the start delay the clock and the aggregate advance but the
    // recorded observation stays at the seed
    let mut o = TwapOracle::new(0, 1_000, 100, 10);
    o.update(5, 1_080);
    assert_eq!(o.last_observation, 1_000);
    assert_eq!(o.last_updated_slot, 5);
    assert_eq!(o.aggregator, 5_000);
    // once the delay has passed, observations move again
    o.update(12, 1_080);
    assert_eq!(o.last_observation, 1_080);
}
