//! The time-weighted average price (TWAP) oracle.
//!
//! The oracle records at most one observation per slot and clamps each
//! recorded observation to within a fixed distance of the previous one, so
//! that moving the average far needs control of the price over many slots.
//! The average is the time integral of the *previous* observation over each
//! elapsed interval: a price change applies prospectively, never
//! retroactively.

use vstd::prelude::*;
use crate::errors::AmmError;
use vstd::arithmetic::div_mod::lemma_div_by_multiple;
use vstd::arithmetic::mul::lemma_mul_is_distributive_add;

verus! {

/// A running time-weighted price aggregate, owned by exactly one market.
///
/// Prices are unsigned 128-bit fixed-point values. `aggregator` carries the
/// sum of `last_observation * elapsed_slots` over the oracle's life; dividing
/// it by the length of the whole window gives the average.
#[derive(Clone, Copy, Debug, PartialEq, Eq, Structural)]
pub struct TwapOracle {
    /// Slot at which the oracle was created; start of the averaging window.
    pub created_at_slot: u64,
    /// Slot of the most recent update; never decreases.
    pub last_updated_slot: u64,
    /// The most recently recorded (clamped) observation.
    pub last_observation: u128,
    /// Running sum of `last_observation * elapsed` over all updates.
    pub aggregator: u128,
    /// Seed for the very first observation, fixed at creation.
    pub initial_observation: u128,
    /// Bound on how far one update can move the recorded observation.
    pub max_observation_change_per_update: u128,
    /// Observations before `created_at_slot + start_delay_slots` advance the
    /// clock and the aggregate but leave the recorded observation unchanged,
    /// neutralizing manipulation before trading opens.
    pub start_delay_slots: u64,
}

impl TwapOracle {
    /// The oracle's clock never runs backwards.
    pub open spec fn wf(&self) -> bool {
        self.created_at_slot <= self.last_updated_slot
    }

    /// Length of the averaging window so far, in slots.
    pub open spec fn window(&self) -> int {
        self.last_updated_slot - self.created_at_slot
    }

    /// `instant` clamped to within `max_change` of `prev`.
    pub open spec fn clamped(prev: int, instant: int, max_change: int) -> int {
        if instant > prev + max_change {
            prev + max_change
        } else if instant < prev - max_change {
            prev - max_change
        } else {
            instant
        }
    }

    /// Whether `slot` still falls in the pre-trading protection window.
    pub open spec fn in_start_delay(&self, slot: u64) -> bool {
        (slot as int) < self.created_at_slot + self.start_delay_slots
    }

    /// The oracle state after an update at `current_slot` with spot price
    /// `instant_price`: a no-op within the same slot, otherwise the clock
    /// advances, the aggregate grows by the previous observation times the
    /// elapsed time, and the observation moves to the clamped instant price
    /// (or stays put during the start delay).
    pub open spec fn updated(self, current_slot: u64, instant_price: u128) -> TwapOracle {
        if current_slot == self.last_updated_slot {
            self
        } else {
            TwapOracle {
                created_at_slot: self.created_at_slot,
                last_updated_slot: current_slot,
                last_observation: if self.in_start_delay(current_slot) {
                    self.last_observation
                } else {
                    Self::clamped(
                        self.last_observation as int,
                        instant_price as int,
                        self.max_observation_change_per_update as int,
                    ) as u128
                },
                aggregator: (self.aggregator + self.last_observation * (current_slot
                    - self.last_updated_slot)) as u128,
                initial_observation: self.initial_observation,
                max_observation_change_per_update: self.max_observation_change_per_update,
                start_delay_slots: self.start_delay_slots,
            }
        }
    }

    /// Seeds a fresh oracle: empty aggregate, observation at the configured
    /// initial value, window starting now.
    pub fn new(
        current_slot: u64,
        initial_observation: u128,
        max_observation_change_per_update: u128,
        start_delay_slots: u64,
    ) -> (r: TwapOracle)
        ensures
            r == (TwapOracle {
                created_at_slot: current_slot,
                last_updated_slot: current_slot,
                last_observation: initial_observation,
                aggregator: 0,
                initial_observation,
                max_observation_change_per_update,
                start_delay_slots,
            }),
    {
        TwapOracle {
            created_at_slot: current_slot,
            last_updated_slot: current_slot,
            last_observation: initial_observation,
            aggregator: 0,
            initial_observation,
            max_observation_change_per_update,
            start_delay_slots,
        }
    }

    /// Records an observation. Overflow of the aggregate is a programming
    /// invariant violation, not a user error, so the precondition excludes it;
    /// the clock the host supplies never runs backwards.
    ///
    /// The last two postconditions state the clamp bound: each update moves
    /// the recorded observation by at most
    /// `max_observation_change_per_update` in either direction.
    pub fn update(&mut self, current_slot: u64, instant_price: u128)
        requires
            old(self).wf(),
            current_slot >= old(self).last_updated_slot,
            old(self).aggregator + old(self).last_observation * (current_slot - old(
                self,
            ).last_updated_slot) <= u128::MAX,
        ensures
            *final(self) == old(self).updated(current_slot, instant_price),
            final(self).wf(),
            final(self).last_observation <= old(self).last_observation + old(
                self,
            ).max_observation_change_per_update,
            old(self).last_observation <= final(self).last_observation + old(
                self,
            ).max_observation_change_per_update,
    {
        if current_slot == self.last_updated_slot {
            return ;
        }
        let elapsed: u64 = current_slot - self.last_updated_slot;
        self.aggregator = self.aggregator + self.last_observation * (elapsed as u128);
        let prev: u128 = self.last_observation;
        let max_change: u128 = self.max_observation_change_per_update;
        let candidate: u128 = if instant_price > prev {
            if instant_price - prev > max_change {
                prev + max_change
            } else {
                instant_price
            }
        } else {
            if prev - instant_price > max_change {
                prev - max_change
            } else {
                instant_price
            }
        };
        if current_slot as u128 >= self.created_at_slot as u128 + self.start_delay_slots as u128 {
            self.last_observation = candidate;
        }
        self.last_updated_slot = current_slot;
    }

    /// The average price over the whole window, or an error while the window
    /// is still empty.
    pub fn get_twap(&self) -> (r: Result<u128, AmmError>)
        requires
            self.wf(),
        ensures
            self.last_updated_slot == self.created_at_slot ==> r == Err::<u128, AmmError>(
                AmmError::DivideByZero,
            ),
            self.last_updated_slot != self.created_at_slot ==> r == Ok::<u128, AmmError>(
                (self.aggregator / (self.window() as u128)) as u128,
            ),
    {
        let slots_passed: u64 = self.last_updated_slot - self.created_at_slot;
        if slots_passed == 0 {
            return Err(AmmError::DivideByZero);
        }
        Ok(self.aggregator / (slots_passed as u128))
    }

    /// Under any update sequence, each recorded observation differs from
    /// the one before it by at most the configured bound: the clamp holds
    /// whatever the instant price, the slot and the start-delay
    /// configuration, so moving the average far needs many slots.
    pub proof fn lemma_observation_step_bounded(o: TwapOracle, current_slot: u64, instant_price: u128)
        requires
            o.wf(),
            current_slot >= o.last_updated_slot,
        ensures
            o.updated(current_slot, instant_price).last_observation <= o.last_observation
                + o.max_observation_change_per_update,
            o.last_observation <= o.updated(current_slot, instant_price).last_observation
                + o.max_observation_change_per_update,
    {
    }

    /// Invariant behind the exactness of the average at a constant price:
    /// when the market price has been `p` for the oracle's whole life, the
    /// aggregate is exactly `p` times the window.
    pub open spec fn tracks_constant_price(&self, p: u128) -> bool {
        &&& self.wf()
        &&& self.last_observation == p
        &&& self.aggregator == p * self.window()
    }

    /// An update at the constant price `p` keeps the aggregate exactly
    /// proportional to the window, whatever the slot and whatever the clamp
    /// or start-delay configuration.
    pub proof fn lemma_constant_price_update(o: TwapOracle, p: u128, current_slot: u64)
        requires
            o.tracks_constant_price(p),
            current_slot >= o.last_updated_slot,
            o.aggregator + o.last_observation * (current_slot - o.last_updated_slot) <= u128::MAX,
        ensures
            o.updated(current_slot, p).tracks_constant_price(p),
    {
        if current_slot != o.last_updated_slot {
            let e = current_slot - o.last_updated_slot;
            assert(p * o.window() + p * e == p * (o.window() + e)) by {
                lemma_mul_is_distributive_add(p as int, o.window(), e);
            }
        }
    }

    /// Over a window in which the instant price was `p` throughout, the
    /// time-weighted average is exactly `p`.
    pub proof fn lemma_constant_price_twap(o: TwapOracle, p: u128)
        requires
            o.tracks_constant_price(p),
            o.last_updated_slot > o.created_at_slot,
        ensures
            o.aggregator / (o.window() as u128) == p,
    {
        lemma_div_by_multiple(p as int, o.window());
    }
}

} // verus!
