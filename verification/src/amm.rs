//! The automated market maker: a constant-product two-asset pool.
//!
//! The pool holds base and quote reserves, answers price queries, and owns
//! the TWAP oracle for its pair, feeding it the pool's own spot price when
//! anyone cranks it. Prices are fixed-point with twelve decimal places:
//! `spot = quote_reserve * PRICE_SCALE / base_reserve`.

use vstd::prelude::*;
use crate::errors::AmmError;
use crate::keys::Pubkey;
use crate::oracle::TwapOracle;
use vstd::arithmetic::div_mod::lemma_fundamental_div_mod;
use vstd::arithmetic::div_mod::lemma_mod_bound;
use vstd::arithmetic::div_mod::lemma_multiply_divide_le;
use vstd::arithmetic::div_mod::lemma_multiply_divide_lt;
use vstd::arithmetic::mul::lemma_mul_upper_bound;

verus! {

/// Fixed-point scale of all prices: twelve decimal places.
pub const PRICE_SCALE: u128 = 1_000_000_000_000;

/// What a holder of `lp_tokens` out of `lp_supply` outstanding LP tokens
/// could withdraw from a reserve, rounded down.
pub open spec fn withdrawable(reserve: u64, lp_tokens: u64, lp_supply: u64) -> int {
    if lp_supply == 0 {
        0
    } else {
        (reserve * lp_tokens) / (lp_supply as int)
    }
}

/// A constant-product pool for one (base, quote) pair.
#[derive(Clone, Copy, Debug, PartialEq, Eq, Structural)]
pub struct Amm {
    /// Derivation bump of the pool's own authority.
    pub bump: u8,
    /// Slot of creation; also the start of the oracle's window.
    pub created_at_slot: u64,
    /// Mint of the pool's LP token.
    pub lp_mint: Pubkey,
    /// The base asset; must differ from the quote asset.
    pub base_mint: Pubkey,
    /// The quote asset.
    pub quote_mint: Pubkey,
    /// Precision of the base asset.
    pub base_mint_decimals: u8,
    /// Precision of the quote asset.
    pub quote_mint_decimals: u8,
    /// Current base reserve.
    pub base_amount: u64,
    /// Current quote reserve.
    pub quote_amount: u64,
    /// The pool's time-weighted price oracle.
    pub oracle: TwapOracle,
    /// Count of mutating operations, for ordering events.
    pub seq_num: u64,
}

impl Amm {
    /// The pool's clocks agree and its assets differ.
    pub open spec fn wf(&self) -> bool {
        &&& self.oracle.wf()
        &&& self.base_mint != self.quote_mint
    }

    /// The pool's spot price in fixed point: quote per base.
    pub open spec fn spec_spot_price(&self) -> int {
        (self.quote_amount * PRICE_SCALE) / (self.base_amount as int)
    }

    /// The pool's spot price; meaningful only while the base reserve is
    /// non-empty.
    pub fn spot_price(&self) -> (r: u128)
        requires
            self.base_amount > 0,
        ensures
            r == self.spec_spot_price(),
    {
        proof {
            lemma_mul_upper_bound(
                self.quote_amount as int,
                u64::MAX as int,
                PRICE_SCALE as int,
                PRICE_SCALE as int,
            );
        }
        (self.quote_amount as u128 * PRICE_SCALE) / (self.base_amount as u128)
    }

    /// Feeds the oracle the pool's current spot price. Idempotent within a
    /// slot; with an empty base reserve there is no price, so the oracle is
    /// left untouched. Anyone may crank: the spot price is already public,
    /// so there is nothing to gain by doing it for someone else.
    pub fn update_twap(&mut self, current_slot: u64)
        requires
            old(self).wf(),
            current_slot >= old(self).oracle.last_updated_slot,
            old(self).oracle.aggregator + old(self).oracle.last_observation * (current_slot - old(
                self,
            ).oracle.last_updated_slot) <= u128::MAX,
        ensures
            old(self).base_amount > 0 ==> final(self).oracle == old(self).oracle.updated(
                current_slot,
                old(self).spec_spot_price() as u128,
            ),
            old(self).base_amount == 0 ==> final(self).oracle == old(self).oracle,
            final(self).oracle.wf(),
            *final(self) == (Amm { oracle: final(self).oracle, ..*old(self) }),
    {
        if self.base_amount > 0 {
            let price = self.spot_price();
            self.oracle.update(current_slot, price);
        }
    }

    /// The time-weighted average price over the oracle's whole window;
    /// meaningful only while the window is non-empty.
    pub open spec fn spec_twap(&self) -> int {
        (self.oracle.aggregator as int) / self.oracle.window()
    }

    /// The time-weighted average price over the oracle's whole window, or an
    /// error while the window is empty.
    pub fn get_twap(&self) -> (r: Result<u128, AmmError>)
        requires
            self.wf(),
        ensures
            self.oracle.last_updated_slot == self.oracle.created_at_slot ==> r == Err::<
                u128,
                AmmError,
            >(AmmError::DivideByZero),
            self.oracle.last_updated_slot != self.oracle.created_at_slot ==> r == Ok::<
                u128,
                AmmError,
            >((self.oracle.aggregator / (self.oracle.window() as u128)) as u128),
    {
        self.oracle.get_twap()
    }

    /// What the given LP tokens could withdraw of each reserve at the
    /// current exchange rate, as `(base, quote)`.
    pub fn get_base_and_quote_withdrawable(&self, lp_tokens: u64, lp_supply: u64) -> (r: (u64, u64))
        requires
            lp_tokens <= lp_supply,
        ensures
            r.0 == withdrawable(self.base_amount, lp_tokens, lp_supply),
            r.1 == withdrawable(self.quote_amount, lp_tokens, lp_supply),
    {
        if lp_supply == 0 {
            return (0, 0);
        }
        proof {
            lemma_mul_upper_bound(
                self.base_amount as int,
                u64::MAX as int,
                lp_tokens as int,
                u64::MAX as int,
            );
            lemma_mul_upper_bound(
                self.quote_amount as int,
                u64::MAX as int,
                lp_tokens as int,
                u64::MAX as int,
            );
            assert(self.base_amount * lp_tokens <= (lp_supply as int) * self.base_amount)
                by (nonlinear_arith)
                requires
                    lp_tokens <= lp_supply,
                    0 <= self.base_amount,
            ;
            assert(self.quote_amount * lp_tokens <= (lp_supply as int) * self.quote_amount)
                by (nonlinear_arith)
                requires
                    lp_tokens <= lp_supply,
                    0 <= self.quote_amount,
            ;
            lemma_multiply_divide_le(
                self.base_amount * lp_tokens,
                lp_supply as int,
                self.base_amount as int,
            );
            lemma_multiply_divide_le(
                self.quote_amount * lp_tokens,
                lp_supply as int,
                self.quote_amount as int,
            );
        }
        let base = (self.base_amount as u128 * lp_tokens as u128) / (lp_supply as u128);
        let quote = (self.quote_amount as u128 * lp_tokens as u128) / (lp_supply as u128);
        (base as u64, quote as u64)
    }

    /// Deposits into both reserves.
    pub fn add_liquidity(&mut self, base_amount: u64, quote_amount: u64)
        requires
            old(self).base_amount + base_amount <= u64::MAX,
            old(self).quote_amount + quote_amount <= u64::MAX,
            old(self).seq_num < u64::MAX,
        ensures
            final(self).base_amount == old(self).base_amount + base_amount,
            final(self).quote_amount == old(self).quote_amount + quote_amount,
            final(self).seq_num == old(self).seq_num + 1,
            *final(self) == (Amm {
                base_amount: final(self).base_amount,
                quote_amount: final(self).quote_amount,
                seq_num: final(self).seq_num,
                ..*old(self)
            }),
    {
        self.base_amount = self.base_amount + base_amount;
        self.quote_amount = self.quote_amount + quote_amount;
        self.seq_num = self.seq_num + 1;
    }

    /// Withdraws from both reserves; fails if either reserve would be
    /// overdrawn.
    pub fn remove_liquidity(&mut self, base_amount: u64, quote_amount: u64) -> (r: Result<
        (),
        AmmError,
    >)
        requires
            old(self).seq_num < u64::MAX,
        ensures
            r == Ok::<(), AmmError>(()) <==> base_amount <= old(self).base_amount && quote_amount
                <= old(self).quote_amount,
            r != Ok::<(), AmmError>(()) ==> r == Err::<(), AmmError>(AmmError::InsufficientLiquidity)
                && *final(self) == *old(self),
            r == Ok::<(), AmmError>(()) ==> {
                &&& final(self).base_amount == old(self).base_amount - base_amount
                &&& final(self).quote_amount == old(self).quote_amount - quote_amount
                &&& final(self).seq_num == old(self).seq_num + 1
                &&& *final(self) == (Amm {
                    base_amount: final(self).base_amount,
                    quote_amount: final(self).quote_amount,
                    seq_num: final(self).seq_num,
                    ..*old(self)
                })
            },
    {
        if base_amount > self.base_amount || quote_amount > self.quote_amount {
            return Err(AmmError::InsufficientLiquidity);
        }
        self.base_amount = self.base_amount - base_amount;
        self.quote_amount = self.quote_amount - quote_amount;
        self.seq_num = self.seq_num + 1;
        Ok(())
    }

    /// Swaps base in for quote out under the constant-product rule: the
    /// output is `quote * base_in / (base + base_in)`, rounded down, so the
    /// product of the reserves never decreases and neither reserve empties.
    pub fn swap_base_for_quote(&mut self, base_in: u64) -> (r: Result<u64, AmmError>)
        requires
            old(self).base_amount + base_in <= u64::MAX,
            old(self).seq_num < u64::MAX,
        ensures
            r is Ok <==> old(self).base_amount > 0 && old(self).quote_amount > 0,
            r is Err ==> r == Err::<u64, AmmError>(AmmError::InsufficientLiquidity) && *final(self)
                == *old(self),
            r matches Ok(out) ==> {
                &&& out == (old(self).quote_amount * base_in) / (old(self).base_amount + base_in)
                &&& out < old(self).quote_amount
                &&& final(self).base_amount == old(self).base_amount + base_in
                &&& final(self).quote_amount == old(self).quote_amount - out
                &&& final(self).seq_num == old(self).seq_num + 1
                &&& final(self).base_amount * final(self).quote_amount >= old(self).base_amount
                    * old(self).quote_amount
                &&& *final(self) == (Amm {
                    base_amount: final(self).base_amount,
                    quote_amount: final(self).quote_amount,
                    seq_num: final(self).seq_num,
                    ..*old(self)
                })
            },
    {
        if self.base_amount == 0 || self.quote_amount == 0 {
            return Err(AmmError::InsufficientLiquidity);
        }
        let b = self.base_amount;
        let q = self.quote_amount;
        proof {
            lemma_mul_upper_bound(q as int, u64::MAX as int, base_in as int, u64::MAX as int);
            lemma_swap_bounds(b as int, q as int, base_in as int);
        }
        let out_wide: u128 = (q as u128 * base_in as u128) / (b as u128 + base_in as u128);
        let out: u64 = out_wide as u64;
        self.base_amount = b + base_in;
        self.quote_amount = q - out;
        self.seq_num = self.seq_num + 1;
        Ok(out)
    }

    /// Swaps quote in for base out; the mirror image of
    /// [`Self::swap_base_for_quote`].
    pub fn swap_quote_for_base(&mut self, quote_in: u64) -> (r: Result<u64, AmmError>)
        requires
            old(self).quote_amount + quote_in <= u64::MAX,
            old(self).seq_num < u64::MAX,
        ensures
            r is Ok <==> old(self).base_amount > 0 && old(self).quote_amount > 0,
            r is Err ==> r == Err::<u64, AmmError>(AmmError::InsufficientLiquidity) && *final(self)
                == *old(self),
            r matches Ok(out) ==> {
                &&& out == (old(self).base_amount * quote_in) / (old(self).quote_amount + quote_in)
                &&& out < old(self).base_amount
                &&& final(self).quote_amount == old(self).quote_amount + quote_in
                &&& final(self).base_amount == old(self).base_amount - out
                &&& final(self).seq_num == old(self).seq_num + 1
                &&& final(self).base_amount * final(self).quote_amount >= old(self).base_amount
                    * old(self).quote_amount
                &&& *final(self) == (Amm {
                    base_amount: final(self).base_amount,
                    quote_amount: final(self).quote_amount,
                    seq_num: final(self).seq_num,
                    ..*old(self)
                })
            },
    {
        if self.base_amount == 0 || self.quote_amount == 0 {
            return Err(AmmError::InsufficientLiquidity);
        }
        let b = self.base_amount;
        let q = self.quote_amount;
        proof {
            lemma_mul_upper_bound(b as int, u64::MAX as int, quote_in as int, u64::MAX as int);
            lemma_swap_bounds(q as int, b as int, quote_in as int);
        }
        let out_wide: u128 = (b as u128 * quote_in as u128) / (q as u128 + quote_in as u128);
        let out: u64 = out_wide as u64;
        self.quote_amount = q + quote_in;
        self.base_amount = b - out;
        self.seq_num = self.seq_num + 1;
        Ok(out)
    }
}

/// The constant-product bookkeeping behind a swap of `x` into the `b`
/// reserve: the output `q * x / (b + x)` stays strictly below the opposite
/// reserve `q`, and what remains keeps the reserve product from falling.
proof fn lemma_swap_bounds(b: int, q: int, x: int)
    requires
        b > 0,
        q > 0,
        x >= 0,
    ensures
        (q * x) / (b + x) < q,
        (b + x) * (q - (q * x) / (b + x)) >= b * q,
{
    let d = b + x;
    let out = (q * x) / d;
    assert(q * x < d * q) by (nonlinear_arith)
        requires
            b > 0,
            q > 0,
            x >= 0,
            d == b + x,
    ;
    lemma_multiply_divide_lt(q * x, d, q);
    lemma_fundamental_div_mod(q * x, d);
    lemma_mod_bound(q * x, d);
    assert(d * out <= q * x);
    assert(d * (q - out) >= b * q) by (nonlinear_arith)
        requires
            d == b + x,
            d * out <= q * x,
            q > 0,
            b > 0,
            x >= 0,
    ;
}

/// Parameters fixed at pool creation for its TWAP oracle.
pub struct CreateAmmArgs {
    /// Seed for the oracle's first observation.
    pub twap_initial_observation: u128,
    /// Bound on how far one oracle update can move the observation.
    pub twap_max_observation_change_per_update: u128,
    /// Slots after creation during which observations do not move.
    pub twap_start_delay_slots: u64,
}

/// The operation that creates a pool for a pair of assets.
pub struct CreateAmm {
    /// The base asset.
    pub base_mint: Pubkey,
    /// The quote asset.
    pub quote_mint: Pubkey,
    /// Precision of the base asset.
    pub base_mint_decimals: u8,
    /// Precision of the quote asset.
    pub quote_mint_decimals: u8,
    /// Mint of the pool's LP token, derived by the host.
    pub lp_mint: Pubkey,
}

impl CreateAmm {
    /// A pool must trade two distinct assets.
    pub fn validate(&self) -> (r: Result<(), AmmError>)
        ensures
            r == Ok::<(), AmmError>(()) <==> self.base_mint != self.quote_mint,
            r != Ok::<(), AmmError>(()) ==> r == Err::<(), AmmError>(AmmError::SameTokenMints),
    {
        if self.base_mint == self.quote_mint {
            return Err(AmmError::SameTokenMints);
        }
        Ok(())
    }

    /// Creates the pool: empty reserves and a fresh oracle seeded from the
    /// given parameters at the current slot.
    pub fn handle(&self, args: CreateAmmArgs, current_slot: u64, bump: u8) -> (r: Result<
        Amm,
        AmmError,
    >)
        ensures
            self.base_mint == self.quote_mint ==> r == Err::<Amm, AmmError>(
                AmmError::SameTokenMints,
            ),
            self.base_mint != self.quote_mint ==> (r matches Ok(amm) && {
                &&& amm.bump == bump
                &&& amm.created_at_slot == current_slot
                &&& amm.lp_mint == self.lp_mint
                &&& amm.base_mint == self.base_mint
                &&& amm.quote_mint == self.quote_mint
                &&& amm.base_mint_decimals == self.base_mint_decimals
                &&& amm.quote_mint_decimals == self.quote_mint_decimals
                &&& amm.base_amount == 0
                &&& amm.quote_amount == 0
                &&& amm.oracle == (TwapOracle {
                    created_at_slot: current_slot,
                    last_updated_slot: current_slot,
                    last_observation: args.twap_initial_observation,
                    aggregator: 0,
                    initial_observation: args.twap_initial_observation,
                    max_observation_change_per_update: args.twap_max_observation_change_per_update,
                    start_delay_slots: args.twap_start_delay_slots,
                })
                &&& amm.seq_num == 0
                &&& amm.wf()
            }),
    {
        match self.validate() {
            Ok(()) => {},
            Err(e) => {
                return Err(e);
            },
        }
        Ok(
            Amm {
                bump,
                created_at_slot: current_slot,
                lp_mint: self.lp_mint,
                base_mint: self.base_mint,
                quote_mint: self.quote_mint,
                base_mint_decimals: self.base_mint_decimals,
                quote_mint_decimals: self.quote_mint_decimals,
                base_amount: 0,
                quote_amount: 0,
                oracle: TwapOracle::new(
                    current_slot,
                    args.twap_initial_observation,
                    args.twap_max_observation_change_per_update,
                    args.twap_start_delay_slots,
                ),
                seq_num: 0,
            },
        )
    }
}

/// The operation that cranks a pool's oracle to the current slot.
pub struct CrankThatTwap {
    /// The pool whose oracle is advanced.
    pub amm: Amm,
}

impl CrankThatTwap {
    /// Advances the oracle to the current slot and counts the operation.
    pub fn handle(&mut self, current_slot: u64)
        requires
            old(self).amm.wf(),
            current_slot >= old(self).amm.oracle.last_updated_slot,
            old(self).amm.oracle.aggregator + old(self).amm.oracle.last_observation * (current_slot
                - old(self).amm.oracle.last_updated_slot) <= u128::MAX,
            old(self).amm.seq_num < u64::MAX,
        ensures
            old(self).amm.base_amount > 0 ==> final(self).amm.oracle == old(
                self,
            ).amm.oracle.updated(current_slot, old(self).amm.spec_spot_price() as u128),
            old(self).amm.base_amount == 0 ==> final(self).amm.oracle == old(self).amm.oracle,
            final(self).amm.seq_num == old(self).amm.seq_num + 1,
            *final(self) == (CrankThatTwap {
                amm: Amm {
                    oracle: final(self).amm.oracle,
                    seq_num: final(self).amm.seq_num,
                    ..old(self).amm
                },
            }),
    {
        self.amm.update_twap(current_slot);
        self.amm.seq_num = self.amm.seq_num + 1;
    }
}

} // verus!
