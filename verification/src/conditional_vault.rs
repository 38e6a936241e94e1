//! Conditional vaults: escrowed collateral backing outcome tokens.
//!
//! A vault is tied to one question and one collateral asset. It mints one
//! conditional token per outcome and must stay solvent at every step: its
//! collateral balance covers the worst payout it could ever owe. While the
//! question is unresolved any single outcome could pay in full, so the
//! liability is the largest conditional supply; once resolved the liability
//! is the exact weighted sum of the supplies under the payout fractions,
//! with flooring division.

use vstd::prelude::*;
use crate::errors::VaultError;
use crate::keys::Pubkey;
use crate::math::lemma_div_monotone;
use crate::math::lemma_div_superadditive;
use crate::question::Question;
use crate::question::sum_u32;
use vstd::arithmetic::div_mod::lemma_div_pos_is_pos;
use vstd::arithmetic::mul::lemma_mul_inequality;
use vstd::arithmetic::mul::lemma_mul_is_distributive_add_other_way;

verus! {

/// The largest element of a sequence of token amounts (zero when empty).
pub open spec fn seq_max_u64(s: Seq<u64>) -> int
    decreases s.len(),
{
    if s.len() == 0 {
        0
    } else if s.last() >= seq_max_u64(s.drop_last()) {
        s.last() as int
    } else {
        seq_max_u64(s.drop_last())
    }
}

/// The collateral owed on `amounts` under payout weights `numerators` over
/// `denom`: the sum over outcomes of `floor(amount * numerator / denom)`.
pub open spec fn weighted_payout(amounts: Seq<u64>, numerators: Seq<u32>, denom: u32) -> int
    decreases amounts.len(),
{
    if amounts.len() == 0 || numerators.len() == 0 {
        0
    } else {
        weighted_payout(amounts.drop_last(), numerators.drop_last(), denom) + (amounts.last()
            * numerators.last()) / (denom as int)
    }
}

/// The most collateral the vault could ever owe on the given conditional
/// supplies: the largest supply while the question is unresolved, the exact
/// weighted payout once it is resolved.
pub open spec fn max_liability(question: Question, supplies: Seq<u64>) -> int {
    if question.payout_denominator == 0 {
        seq_max_u64(supplies)
    } else {
        weighted_payout(supplies, question.payout_numerators@, question.payout_denominator)
    }
}

/// The maximum dominates every element and is never negative.
pub proof fn lemma_seq_max_ge(s: Seq<u64>)
    ensures
        0 <= seq_max_u64(s),
        forall|i: int| 0 <= i < s.len() ==> s[i] <= seq_max_u64(s),
    decreases s.len(),
{
    if s.len() > 0 {
        lemma_seq_max_ge(s.drop_last());
        assert(forall|i: int| 0 <= i < s.len() - 1 ==> s[i] == s.drop_last()[i]);
    }
}

/// Any bound on all elements bounds the maximum.
pub proof fn lemma_seq_max_le(s: Seq<u64>, m: int)
    requires
        0 <= m,
        forall|i: int| 0 <= i < s.len() ==> s[i] <= m,
    ensures
        seq_max_u64(s) <= m,
    decreases s.len(),
{
    if s.len() > 0 {
        assert(forall|i: int| 0 <= i < s.len() - 1 ==> s.drop_last()[i] == s[i]);
        lemma_seq_max_le(s.drop_last(), m);
    }
}

/// Weighted payouts are never negative.
pub proof fn lemma_weighted_payout_nonneg(amounts: Seq<u64>, numerators: Seq<u32>, denom: u32)
    requires
        denom > 0,
    ensures
        weighted_payout(amounts, numerators, denom) >= 0,
    decreases amounts.len(),
{
    if amounts.len() > 0 && numerators.len() > 0 {
        lemma_weighted_payout_nonneg(amounts.drop_last(), numerators.drop_last(), denom);
        lemma_div_pos_is_pos(amounts.last() * numerators.last(), denom as int);
    }
}

/// A prefix of the outcomes never pays more than all of them.
pub proof fn lemma_weighted_payout_take_le(
    amounts: Seq<u64>,
    numerators: Seq<u32>,
    denom: u32,
    i: int,
)
    requires
        denom > 0,
        amounts.len() == numerators.len(),
        0 <= i <= amounts.len(),
    ensures
        weighted_payout(amounts.take(i), numerators.take(i), denom) <= weighted_payout(
            amounts,
            numerators,
            denom,
        ),
    decreases amounts.len(),
{
    if i == amounts.len() {
        assert(amounts.take(i) =~= amounts);
        assert(numerators.take(i) =~= numerators);
    } else {
        assert(amounts.drop_last().take(i) =~= amounts.take(i));
        assert(numerators.drop_last().take(i) =~= numerators.take(i));
        lemma_weighted_payout_take_le(amounts.drop_last(), numerators.drop_last(), denom, i);
        lemma_div_pos_is_pos(amounts.last() * numerators.last(), denom as int);
    }
}

/// The weighted payout is at most `seq_max(amounts) * sum(numerators) / denom`.
pub proof fn lemma_weighted_payout_le_scaled(amounts: Seq<u64>, numerators: Seq<u32>, denom: u32)
    requires
        denom > 0,
        amounts.len() == numerators.len(),
    ensures
        weighted_payout(amounts, numerators, denom) <= (seq_max_u64(amounts) * sum_u32(numerators))
            / (denom as int),
    decreases amounts.len(),
{
    let d = denom as int;
    let m = seq_max_u64(amounts);
    lemma_seq_max_ge(amounts);
    crate::question::lemma_sum_u32_nonneg(numerators);
    if amounts.len() == 0 {
        lemma_div_pos_is_pos(m * sum_u32(numerators), d);
    } else {
        let a = amounts.drop_last();
        let n = numerators.drop_last();
        let al = amounts.last() as int;
        let nl = numerators.last() as int;
        lemma_weighted_payout_le_scaled(a, n, denom);
        crate::question::lemma_sum_u32_nonneg(n);
        // the prefix bound is monotone in the maximum
        lemma_seq_max_ge(a);
        assert(forall|i: int| 0 <= i < a.len() ==> a[i] <= m);
        lemma_seq_max_le(a, m);
        assert(seq_max_u64(a) * sum_u32(n) <= m * sum_u32(n)) by {
            lemma_mul_inequality(seq_max_u64(a), m, sum_u32(n));
        }
        lemma_div_monotone(seq_max_u64(a) * sum_u32(n), m * sum_u32(n), d);
        // the last term is bounded by m * nl / d
        assert(al * nl <= m * nl) by {
            lemma_mul_inequality(al, m, nl);
        }
        lemma_div_monotone(al * nl, m * nl, d);
        // recombine with superadditivity of flooring division
        assert(m * sum_u32(n) >= 0) by {
            vstd::arithmetic::mul::lemma_mul_nonnegative(m, sum_u32(n));
        }
        assert(m * nl >= 0) by {
            vstd::arithmetic::mul::lemma_mul_nonnegative(m, nl);
        }
        lemma_div_superadditive(m * sum_u32(n), m * nl, d);
        assert(m * sum_u32(n) + m * nl == m * sum_u32(numerators)) by {
            vstd::arithmetic::mul::lemma_mul_is_distributive_add(m, sum_u32(n), nl);
        }
    }
}

/// When the weights sum to the denominator, the weighted payout never
/// exceeds the largest single amount: the payout fractions sum to one.
pub proof fn lemma_weighted_payout_le_max(amounts: Seq<u64>, numerators: Seq<u32>, denom: u32)
    requires
        denom > 0,
        amounts.len() == numerators.len(),
        sum_u32(numerators) == denom,
    ensures
        weighted_payout(amounts, numerators, denom) <= seq_max_u64(amounts),
{
    lemma_weighted_payout_le_scaled(amounts, numerators, denom);
    lemma_seq_max_ge(amounts);
    vstd::arithmetic::div_mod::lemma_div_by_multiple(seq_max_u64(amounts), denom as int);
    assert(seq_max_u64(amounts) * (denom as int) == (denom as int) * seq_max_u64(amounts))
        by (nonlinear_arith);
}

/// The payout is monotone in the amounts, outcome by outcome.
pub proof fn lemma_weighted_payout_monotone(
    small: Seq<u64>,
    large: Seq<u64>,
    numerators: Seq<u32>,
    denom: u32,
)
    requires
        denom > 0,
        small.len() == large.len() == numerators.len(),
        forall|i: int| 0 <= i < small.len() ==> small[i] <= large[i],
    ensures
        weighted_payout(small, numerators, denom) <= weighted_payout(large, numerators, denom),
    decreases small.len(),
{
    if small.len() > 0 {
        assert(forall|i: int|
            0 <= i < small.len() - 1 ==> small.drop_last()[i] <= large.drop_last()[i]);
        lemma_weighted_payout_monotone(
            small.drop_last(),
            large.drop_last(),
            numerators.drop_last(),
            denom,
        );
        let nl = numerators.last() as int;
        assert(small.last() * nl <= large.last() * nl) by {
            lemma_mul_inequality(small.last() as int, large.last() as int, nl);
        }
        lemma_div_monotone(small.last() * nl, large.last() * nl, denom as int);
    }
}

/// Splitting each amount in two parts never increases the total payout:
/// redeeming a part and keeping the rest never pays more than the whole.
pub proof fn lemma_weighted_payout_superadditive(
    part: Seq<u64>,
    whole: Seq<u64>,
    numerators: Seq<u32>,
    denom: u32,
)
    requires
        denom > 0,
        part.len() == whole.len() == numerators.len(),
        forall|i: int| 0 <= i < part.len() ==> part[i] <= whole[i],
    ensures
        weighted_payout(part, numerators, denom) + weighted_payout(
            seq_sub_pointwise_u64(whole, part),
            numerators,
            denom,
        ) <= weighted_payout(whole, numerators, denom),
    decreases part.len(),
{
    let rest = seq_sub_pointwise_u64(whole, part);
    if part.len() > 0 {
        assert(forall|i: int|
            0 <= i < part.len() - 1 ==> part.drop_last()[i] <= whole.drop_last()[i]);
        lemma_weighted_payout_superadditive(
            part.drop_last(),
            whole.drop_last(),
            numerators.drop_last(),
            denom,
        );
        assert(seq_sub_pointwise_u64(whole.drop_last(), part.drop_last()) =~= rest.drop_last());
        let d = denom as int;
        let nl = numerators.last() as int;
        let pl = part.last() as int;
        let wl = whole.last() as int;
        let rl = rest.last() as int;
        assert(rl == wl - pl);
        assert(pl * nl + rl * nl == wl * nl) by {
            lemma_mul_is_distributive_add_other_way(nl, pl, rl);
        }
        assert(pl * nl >= 0) by {
            vstd::arithmetic::mul::lemma_mul_nonnegative(pl, nl);
        }
        assert(rl * nl >= 0) by {
            vstd::arithmetic::mul::lemma_mul_nonnegative(rl, nl);
        }
        lemma_div_superadditive(pl * nl, rl * nl, d);
    } else {
        assert(rest.len() == 0);
    }
}

/// Element-wise difference of two amount sequences.
pub open spec fn seq_sub_pointwise_u64(s: Seq<u64>, t: Seq<u64>) -> Seq<u64> {
    Seq::new(s.len(), |i: int| (s[i] - t[i]) as u64)
}

/// Every amount raised by the same quantity.
pub open spec fn seq_add_u64(s: Seq<u64>, a: u64) -> Seq<u64> {
    Seq::new(s.len(), |i: int| (s[i] + a) as u64)
}

/// Every amount lowered by the same quantity.
pub open spec fn seq_sub_u64(s: Seq<u64>, a: u64) -> Seq<u64> {
    Seq::new(s.len(), |i: int| (s[i] - a) as u64)
}

/// The operational status of a vault.
#[derive(Clone, Copy, Debug, PartialEq, Eq, Structural)]
pub enum VaultStatus {
    /// Normal operation: tokens may be split, merged and redeemed.
    Active,
    /// The vault has completed.
    Finalized,
    /// The vault has been reverted.
    Reverted,
}

/// A conditional vault: one question, one collateral asset, one conditional
/// token mint per outcome.
#[derive(Clone, Debug)]
pub struct ConditionalVault {
    /// The governing question.
    pub question: Pubkey,
    /// The collateral asset.
    pub underlying_token_mint: Pubkey,
    /// The account holding the vault's collateral.
    pub underlying_token_account: Pubkey,
    /// One conditional token mint per outcome, index-aligned with the
    /// question's payout numerators.
    pub conditional_token_mints: Vec<Pubkey>,
    /// Derivation bump of the vault's own authority.
    pub pda_bump: u8,
    /// Shared precision of the collateral and all conditional mints.
    pub decimals: u8,
    /// Count of mutating operations, for ordering events.
    pub seq_num: u64,
}

impl ConditionalVault {
    /// The same vault record with only its operation counter advanced.
    pub open spec fn bumped(self) -> ConditionalVault {
        ConditionalVault { seq_num: (self.seq_num + 1) as u64, ..self }
    }

    /// Checks that the vault's collateral covers its maximum possible
    /// liability under the given question and conditional supplies. Called
    /// after every mutating operation; a violation means the whole operation
    /// must be rolled back.
    ///
    /// `conditional_token_supplies` is index-aligned with the question's
    /// payout numerators.
    pub fn check_invariant(
        &self,
        question: &Question,
        conditional_token_supplies: Vec<u64>,
        vault_underlying_balance: u64,
    ) -> (r: Result<(), VaultError>)
        requires
            question.wf(),
            conditional_token_supplies@.len() == question.payout_numerators@.len(),
        ensures
            r == Ok::<(), VaultError>(()) <==> vault_underlying_balance as int >= max_liability(
                *question,
                conditional_token_supplies@,
            ),
            r != Ok::<(), VaultError>(()) ==> r == Err::<(), VaultError>(VaultError::Insolvent),
    {
        let supplies = conditional_token_supplies;
        if !question.is_resolved() {
            let max_supply = vec_max_u64(&supplies);
            if vault_underlying_balance >= max_supply {
                Ok(())
            } else {
                Err(VaultError::Insolvent)
            }
        } else {
            let denom = question.payout_denominator;
            let n = supplies.len();
            let mut liability: u128 = 0;
            let mut i: usize = 0;
            while i < n
                invariant
                    0 <= i <= n,
                    n == supplies@.len(),
                    n == question.payout_numerators@.len(),
                    denom == question.payout_denominator,
                    denom > 0,
                    denom == sum_u32(question.payout_numerators@),
                    liability == weighted_payout(
                        supplies@.take(i as int),
                        question.payout_numerators@.take(i as int),
                        denom,
                    ),
                    liability <= seq_max_u64(supplies@),
                decreases n - i,
            {
                proof {
                    assert(supplies@.take(i + 1).drop_last() =~= supplies@.take(i as int));
                    assert(question.payout_numerators@.take(i + 1).drop_last()
                        =~= question.payout_numerators@.take(i as int));
                    lemma_weighted_payout_take_le(
                        supplies@,
                        question.payout_numerators@,
                        denom,
                        i + 1,
                    );
                    lemma_weighted_payout_le_max(supplies@, question.payout_numerators@, denom);
                    lemma_div_pos_is_pos(
                        supplies@[i as int] * question.payout_numerators@[i as int],
                        denom as int,
                    );
                    vstd::arithmetic::mul::lemma_mul_upper_bound(
                        supplies@[i as int] as int,
                        u64::MAX as int,
                        question.payout_numerators@[i as int] as int,
                        u32::MAX as int,
                    );
                    lemma_seq_max_le(supplies@, u64::MAX as int);
                }
                let term: u128 = (supplies[i] as u128 * question.payout_numerators[i] as u128) / (
                denom as u128);
                liability = liability + term;
                i = i + 1;
            }
            proof {
                assert(supplies@.take(n as int) =~= supplies@);
                assert(question.payout_numerators@.take(n as int) =~= question.payout_numerators@);
            }
            if vault_underlying_balance as u128 >= liability {
                Ok(())
            } else {
                Err(VaultError::Insolvent)
            }
        }
    }
}

/// The largest element of a vector of token amounts (zero when empty).
pub fn vec_max_u64(v: &Vec<u64>) -> (r: u64)
    ensures
        r == seq_max_u64(v@),
{
    let mut r: u64 = 0;
    let mut i: usize = 0;
    while i < v.len()
        invariant
            0 <= i <= v@.len(),
            r == seq_max_u64(v@.take(i as int)),
        decreases v@.len() - i,
    {
        proof {
            assert(v@.take(i + 1).drop_last() =~= v@.take(i as int));
        }
        if v[i] > r {
            r = v[i];
        }
        i = i + 1;
    }
    proof {
        assert(v@.take(v@.len() as int) =~= v@);
    }
    r
}

/// A copy of a vector of token amounts.
pub fn copy_amounts(v: &Vec<u64>) -> (r: Vec<u64>)
    ensures
        r@ == v@,
{
    let mut r: Vec<u64> = Vec::new();
    let mut i: usize = 0;
    while i < v.len()
        invariant
            0 <= i <= v@.len(),
            r@ =~= v@.take(i as int),
        decreases v@.len() - i,
    {
        r.push(v[i]);
        i = i + 1;
    }
    proof {
        assert(v@.take(v@.len() as int) =~= v@);
    }
    r
}

/// The operation that creates a vault for a question and a collateral asset.
/// The host derives the vault's authority, its collateral account and one
/// conditional mint per outcome, and hands in their keys.
pub struct InitializeConditionalVault {
    /// The governing question.
    pub question: Question,
    /// Key of the question record.
    pub question_key: Pubkey,
    /// The collateral asset.
    pub underlying_token_mint: Pubkey,
    /// The account that will hold the vault's collateral.
    pub vault_underlying_token_account: Pubkey,
}

impl InitializeConditionalVault {
    /// Creates the vault record, one conditional mint key per outcome.
    /// `decimals` is the collateral mint's precision, shared by every
    /// conditional mint.
    pub fn handle(
        &self,
        conditional_token_mints: Vec<Pubkey>,
        pda_bump: u8,
        decimals: u8,
    ) -> (r: Result<ConditionalVault, VaultError>)
        requires
            self.question.wf(),
        ensures
            conditional_token_mints@.len() != self.question.payout_numerators@.len() ==> r
                == Err::<ConditionalVault, VaultError>(VaultError::InvalidConditionals),
            conditional_token_mints@.len() == self.question.payout_numerators@.len() ==> (
            r matches Ok(v) && {
                &&& v.question == self.question_key
                &&& v.underlying_token_mint == self.underlying_token_mint
                &&& v.underlying_token_account == self.vault_underlying_token_account
                &&& v.conditional_token_mints@ == conditional_token_mints@
                &&& v.pda_bump == pda_bump
                &&& v.decimals == decimals
                &&& v.seq_num == 0
            }),
    {
        if conditional_token_mints.len() != self.question.num_outcomes() {
            return Err(VaultError::InvalidConditionals);
        }
        Ok(
            ConditionalVault {
                question: self.question_key,
                underlying_token_mint: self.underlying_token_mint,
                underlying_token_account: self.vault_underlying_token_account,
                conditional_token_mints,
                pda_bump,
                decimals,
                seq_num: 0,
            },
        )
    }
}

} // verus!
