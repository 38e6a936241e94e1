//! Vault operations: split, merge and redeem.
//!
//! The host hands each operation the authoritative amounts it read from the
//! ledger — the vault's collateral balance, the caller's balances and the
//! conditional supplies — and carries the computed state back out as mints,
//! burns and transfers. Each operation here is the complete decision: it
//! validates, computes the next state, re-checks the solvency invariant on
//! that state and either commits it whole or leaves everything unchanged.

use vstd::prelude::*;
use crate::conditional_vault::ConditionalVault;
use crate::conditional_vault::copy_amounts;
use crate::conditional_vault::lemma_seq_max_ge;
use crate::conditional_vault::lemma_seq_max_le;
use crate::conditional_vault::lemma_weighted_payout_le_max;
use crate::conditional_vault::lemma_weighted_payout_monotone;
use crate::conditional_vault::lemma_weighted_payout_nonneg;
use crate::conditional_vault::lemma_weighted_payout_superadditive;
use crate::conditional_vault::lemma_weighted_payout_take_le;
use crate::conditional_vault::max_liability;
use crate::conditional_vault::seq_add_u64;
use crate::conditional_vault::seq_max_u64;
use crate::conditional_vault::seq_sub_pointwise_u64;
use crate::conditional_vault::seq_sub_u64;
use crate::conditional_vault::vec_max_u64;
use crate::conditional_vault::weighted_payout;
use crate::errors::VaultError;
use crate::question::Question;
use vstd::arithmetic::div_mod::lemma_div_pos_is_pos;

verus! {

/// One interaction with a vault: the entities it touches, as the host read
/// them, amounts index-aligned with the question's payout numerators.
pub struct InteractWithVault {
    /// The vault's governing question.
    pub question: Question,
    /// The vault record.
    pub vault: ConditionalVault,
    /// Collateral held by the vault.
    pub vault_underlying_balance: u64,
    /// Collateral held by the caller.
    pub user_underlying_balance: u64,
    /// Total supply of each conditional token.
    pub conditional_token_supplies: Vec<u64>,
    /// The caller's balance of each conditional token.
    pub user_conditional_balances: Vec<u64>,
}

impl InteractWithVault {
    /// Number of outcomes, shared by every index-aligned sequence here.
    pub open spec fn n(&self) -> int {
        self.question.payout_numerators@.len() as int
    }

    /// Well-formedness: the shapes agree, nobody holds more of a token than
    /// exists, and the vault is solvent.
    pub open spec fn wf(&self) -> bool {
        &&& self.question.wf()
        &&& self.vault.conditional_token_mints@.len() == self.n()
        &&& self.conditional_token_supplies@.len() == self.n()
        &&& self.user_conditional_balances@.len() == self.n()
        &&& forall|i: int|
            0 <= i < self.n() ==> self.user_conditional_balances@[i]
                <= self.conditional_token_supplies@[i]
        &&& self.vault_underlying_balance as int >= max_liability(
            self.question,
            self.conditional_token_supplies@,
        )
    }

    /// Gathers the per-outcome supplies and caller balances, checking that
    /// the host supplied exactly one entry of each per outcome.
    pub fn get_mints_and_user_token_accounts(&self) -> (r: Result<
        (Vec<u64>, Vec<u64>),
        VaultError,
    >)
        ensures
            r is Ok <==> self.conditional_token_supplies@.len()
                == self.question.payout_numerators@.len() && self.user_conditional_balances@.len()
                == self.question.payout_numerators@.len(),
            r matches Ok(p) ==> p.0@ == self.conditional_token_supplies@ && p.1@
                == self.user_conditional_balances@,
            r is Err ==> r == Err::<(Vec<u64>, Vec<u64>), VaultError>(
                VaultError::InvalidConditionals,
            ),
    {
        let n = self.question.num_outcomes();
        if self.conditional_token_supplies.len() != n || self.user_conditional_balances.len() != n {
            return Err(VaultError::InvalidConditionals);
        }
        Ok((copy_amounts(&self.conditional_token_supplies), copy_amounts(&self.user_conditional_balances)))
    }

    /// Splits collateral into conditional tokens: moves `amount` collateral
    /// from the caller into the vault and mints `amount` of every
    /// conditional token to the caller.
    ///
    /// On an unresolved question this always succeeds once the caller's
    /// collateral suffices, because every supply and the collateral rise
    /// together. On a resolved question the solvency re-check still governs.
    #[verifier::loop_isolation(false)]
    pub fn handle_split_tokens(&mut self, amount: u64) -> (r: Result<(), VaultError>)
        requires
            old(self).wf(),
            old(self).vault_underlying_balance + amount <= u64::MAX,
            forall|i: int|
                0 <= i < old(self).n() ==> old(self).conditional_token_supplies@[i] + amount
                    <= u64::MAX,
            old(self).vault.seq_num < u64::MAX,
        ensures
            old(self).user_underlying_balance < amount ==> r == Err::<(), VaultError>(
                VaultError::InsufficientUnderlyingTokens,
            ),
            r == Ok::<(), VaultError>(()) <==> old(self).user_underlying_balance >= amount && old(
                self,
            ).vault_underlying_balance + amount >= max_liability(
                old(self).question,
                seq_add_u64(old(self).conditional_token_supplies@, amount),
            ),
            old(self).user_underlying_balance >= amount && old(self).question.payout_denominator
                == 0 ==> r == Ok::<(), VaultError>(()),
            old(self).user_underlying_balance >= amount && r != Ok::<(), VaultError>(()) ==> r
                == Err::<(), VaultError>(VaultError::Insolvent),
            r != Ok::<(), VaultError>(()) ==> *final(self) == *old(self),
            r == Ok::<(), VaultError>(()) ==> {
                &&& final(self).question == old(self).question
                &&& final(self).vault == old(self).vault.bumped()
                &&& final(self).conditional_token_supplies@ == seq_add_u64(
                    old(self).conditional_token_supplies@,
                    amount,
                )
                &&& final(self).user_conditional_balances@ == seq_add_u64(
                    old(self).user_conditional_balances@,
                    amount,
                )
                &&& final(self).vault_underlying_balance == old(self).vault_underlying_balance
                    + amount
                &&& final(self).user_underlying_balance == old(self).user_underlying_balance
                    - amount
                &&& final(self).wf()
            },
    {
        let (supplies, balances) = match self.get_mints_and_user_token_accounts() {
            Ok(p) => p,
            Err(e) => {
                return Err(e);
            },
        };
        if self.user_underlying_balance < amount {
            return Err(VaultError::InsufficientUnderlyingTokens);
        }
        let n = supplies.len();
        let mut new_supplies: Vec<u64> = Vec::new();
        let mut new_balances: Vec<u64> = Vec::new();
        let mut i: usize = 0;
        while i < n
            invariant
                0 <= i <= n,
                new_supplies@.len() == i,
                new_balances@.len() == i,
                forall|j: int| 0 <= j < i ==> new_supplies@[j] == supplies@[j] + amount,
                forall|j: int| 0 <= j < i ==> new_balances@[j] == balances@[j] + amount,
            decreases n - i,
        {
            new_supplies.push(supplies[i] + amount);
            new_balances.push(balances[i] + amount);
            i = i + 1;
        }
        proof {
            assert(new_supplies@ =~= seq_add_u64(self.conditional_token_supplies@, amount));
            assert(new_balances@ =~= seq_add_u64(self.user_conditional_balances@, amount));
        }
        let new_vault_balance = self.vault_underlying_balance + amount;
        proof {
            if self.question.payout_denominator == 0 {
                // unresolved: the largest supply and the collateral rise together
                lemma_seq_max_ge(self.conditional_token_supplies@);
                lemma_seq_max_le(
                    new_supplies@,
                    seq_max_u64(self.conditional_token_supplies@) + amount,
                );
            }
        }
        match self.vault.check_invariant(
            &self.question,
            copy_amounts(&new_supplies),
            new_vault_balance,
        ) {
            Ok(()) => {},
            Err(e) => {
                return Err(e);
            },
        }
        self.vault_underlying_balance = new_vault_balance;
        self.user_underlying_balance = self.user_underlying_balance - amount;
        self.conditional_token_supplies = new_supplies;
        self.user_conditional_balances = new_balances;
        self.vault.seq_num = self.vault.seq_num + 1;
        Ok(())
    }

    /// Merges conditional tokens back into collateral: burns `amount` of
    /// every conditional token from the caller and returns `amount`
    /// collateral — the inverse of a split.
    ///
    /// On an unresolved question this always succeeds once the caller holds
    /// `amount` of every conditional token. On a resolved question the
    /// flooring of the weighted liability can make an even withdrawal
    /// unsound, so the solvency re-check may refuse it.
    #[verifier::loop_isolation(false)]
    pub fn handle_merge_tokens(&mut self, amount: u64) -> (r: Result<(), VaultError>)
        requires
            old(self).wf(),
            old(self).user_underlying_balance + amount <= u64::MAX,
            old(self).vault.seq_num < u64::MAX,
        ensures
            (exists|i: int|
                0 <= i < old(self).n() && old(self).user_conditional_balances@[i] < amount) ==> r
                == Err::<(), VaultError>(VaultError::InsufficientConditionalTokens),
            r == Ok::<(), VaultError>(()) <==> (forall|i: int|
                0 <= i < old(self).n() ==> old(self).user_conditional_balances@[i] >= amount) && old(
                self,
            ).vault_underlying_balance >= amount && old(self).vault_underlying_balance - amount
                >= max_liability(
                old(self).question,
                seq_sub_u64(old(self).conditional_token_supplies@, amount),
            ),
            (forall|i: int|
                0 <= i < old(self).n() ==> old(self).user_conditional_balances@[i] >= amount) && old(
                self,
            ).question.payout_denominator == 0 ==> r == Ok::<(), VaultError>(()),
            (forall|i: int|
                0 <= i < old(self).n() ==> old(self).user_conditional_balances@[i] >= amount) && r
                != Ok::<(), VaultError>(()) ==> r == Err::<(), VaultError>(VaultError::Insolvent),
            r != Ok::<(), VaultError>(()) ==> *final(self) == *old(self),
            r == Ok::<(), VaultError>(()) ==> {
                &&& final(self).question == old(self).question
                &&& final(self).vault == old(self).vault.bumped()
                &&& final(self).conditional_token_supplies@ == seq_sub_u64(
                    old(self).conditional_token_supplies@,
                    amount,
                )
                &&& final(self).user_conditional_balances@ == seq_sub_u64(
                    old(self).user_conditional_balances@,
                    amount,
                )
                &&& final(self).vault_underlying_balance == old(self).vault_underlying_balance
                    - amount
                &&& final(self).user_underlying_balance == old(self).user_underlying_balance
                    + amount
                &&& final(self).wf()
            },
    {
        let (supplies, balances) = match self.get_mints_and_user_token_accounts() {
            Ok(p) => p,
            Err(e) => {
                return Err(e);
            },
        };
        let n = supplies.len();
        let mut i: usize = 0;
        while i < n
            invariant
                0 <= i <= n,
                forall|j: int| 0 <= j < i ==> balances@[j] >= amount,
            decreases n - i,
        {
            if balances[i] < amount {
                return Err(VaultError::InsufficientConditionalTokens);
            }
            i = i + 1;
        }
        if self.vault_underlying_balance < amount {
            // the vault cannot pay the withdrawal; only reachable after
            // resolution, when flooring has shrunk the liability below the
            // deposits that remain
            proof {
                lemma_seq_max_ge(self.conditional_token_supplies@);
            }
            return Err(VaultError::Insolvent);
        }
        let mut new_supplies: Vec<u64> = Vec::new();
        let mut new_balances: Vec<u64> = Vec::new();
        let mut i: usize = 0;
        while i < n
            invariant
                0 <= i <= n,
                new_supplies@.len() == i,
                new_balances@.len() == i,
                forall|j: int| 0 <= j < i ==> new_supplies@[j] == supplies@[j] - amount,
                forall|j: int| 0 <= j < i ==> new_balances@[j] == balances@[j] - amount,
            decreases n - i,
        {
            new_supplies.push(supplies[i] - amount);
            new_balances.push(balances[i] - amount);
            i = i + 1;
        }
        proof {
            assert(new_supplies@ =~= seq_sub_u64(self.conditional_token_supplies@, amount));
            assert(new_balances@ =~= seq_sub_u64(self.user_conditional_balances@, amount));
        }
        let new_vault_balance = self.vault_underlying_balance - amount;
        proof {
            if self.question.payout_denominator == 0 {
                // unresolved: every supply falls by the full amount, so the
                // largest remaining supply is covered by what remains
                lemma_seq_max_ge(self.conditional_token_supplies@);
                lemma_seq_max_le(
                    new_supplies@,
                    seq_max_u64(self.conditional_token_supplies@) - amount,
                );
            }
        }
        match self.vault.check_invariant(
            &self.question,
            copy_amounts(&new_supplies),
            new_vault_balance,
        ) {
            Ok(()) => {},
            Err(e) => {
                return Err(e);
            },
        }
        self.vault_underlying_balance = new_vault_balance;
        self.user_underlying_balance = self.user_underlying_balance + amount;
        self.conditional_token_supplies = new_supplies;
        self.user_conditional_balances = new_balances;
        self.vault.seq_num = self.vault.seq_num + 1;
        Ok(())
    }

    /// Redemption is only possible once the question has resolved.
    pub fn validate_redeem_tokens(&self) -> (r: Result<(), VaultError>)
        ensures
            r == Ok::<(), VaultError>(()) <==> self.question.payout_denominator != 0,
            r != Ok::<(), VaultError>(()) ==> r == Err::<(), VaultError>(
                VaultError::CantRedeemConditionalTokens,
            ),
    {
        if !self.question.is_resolved() {
            return Err(VaultError::CantRedeemConditionalTokens);
        }
        Ok(())
    }

    /// Redeems the caller's conditional tokens after resolution: burns the
    /// caller's full balance of every conditional token and pays out
    /// `floor(balance * numerator / denominator)` collateral per outcome.
    ///
    /// Because the payout weights sum to the denominator, the total payout
    /// never exceeds the caller's largest single balance, and the vault
    /// stays solvent: redemption after resolution always succeeds.
    #[verifier::loop_isolation(false)]
    pub fn handle_redeem_tokens(&mut self) -> (r: Result<(), VaultError>)
        requires
            old(self).wf(),
            old(self).user_underlying_balance + seq_max_u64(old(self).user_conditional_balances@)
                <= u64::MAX,
            old(self).vault.seq_num < u64::MAX,
        ensures
            r == Ok::<(), VaultError>(()) <==> old(self).question.payout_denominator != 0,
            r != Ok::<(), VaultError>(()) ==> r == Err::<(), VaultError>(
                VaultError::CantRedeemConditionalTokens,
            ) && *final(self) == *old(self),
            r == Ok::<(), VaultError>(()) ==> {
                let paid = weighted_payout(
                    old(self).user_conditional_balances@,
                    old(self).question.payout_numerators@,
                    old(self).question.payout_denominator,
                );
                &&& paid <= seq_max_u64(old(self).user_conditional_balances@)
                &&& final(self).question == old(self).question
                &&& final(self).vault == old(self).vault.bumped()
                &&& final(self).conditional_token_supplies@ == seq_sub_pointwise_u64(
                    old(self).conditional_token_supplies@,
                    old(self).user_conditional_balances@,
                )
                &&& final(self).user_conditional_balances@.len() == old(self).n()
                &&& forall|i: int|
                    0 <= i < old(self).n() ==> final(self).user_conditional_balances@[i] == 0u64
                &&& final(self).vault_underlying_balance == old(self).vault_underlying_balance
                    - paid
                &&& final(self).user_underlying_balance == old(self).user_underlying_balance + paid
                &&& final(self).wf()
            },
    {
        match self.validate_redeem_tokens() {
            Ok(()) => {},
            Err(e) => {
                return Err(e);
            },
        }
        let (supplies, balances) = match self.get_mints_and_user_token_accounts() {
            Ok(p) => p,
            Err(e) => {
                return Err(e);
            },
        };
        let denom = self.question.payout_denominator;
        let n = supplies.len();
        let ghost numerators = self.question.payout_numerators@;
        proof {
            lemma_weighted_payout_le_max(balances@, numerators, denom);
            lemma_seq_max_le(balances@, u64::MAX as int);
            lemma_seq_max_ge(balances@);
        }
        let mut total: u128 = 0;
        let mut i: usize = 0;
        while i < n
            invariant
                0 <= i <= n,
                total == weighted_payout(
                    balances@.take(i as int),
                    numerators.take(i as int),
                    denom,
                ),
                total <= seq_max_u64(balances@),
            decreases n - i,
        {
            proof {
                assert(balances@.take(i + 1).drop_last() =~= balances@.take(i as int));
                assert(numerators.take(i + 1).drop_last() =~= numerators.take(i as int));
                lemma_weighted_payout_take_le(balances@, numerators, denom, i + 1);
                lemma_weighted_payout_le_max(balances@, numerators, denom);
                lemma_div_pos_is_pos(balances@[i as int] * numerators[i as int], denom as int);
                vstd::arithmetic::mul::lemma_mul_upper_bound(
                    balances@[i as int] as int,
                    u64::MAX as int,
                    numerators[i as int] as int,
                    u32::MAX as int,
                );
            }
            let term: u128 = (balances[i] as u128 * self.question.payout_numerators[i] as u128) / (
            denom as u128);
            total = total + term;
            i = i + 1;
        }
        proof {
            assert(balances@.take(n as int) =~= balances@);
            assert(numerators.take(n as int) =~= numerators);
        }
        let total_redeemable: u64 = total as u64;
        // safety check from the payout weights summing to the denominator:
        // the payout never exceeds the caller's largest single balance
        let max_redeemable = vec_max_u64(&balances);
        assert(total_redeemable <= max_redeemable);
        let mut new_supplies: Vec<u64> = Vec::new();
        let mut new_balances: Vec<u64> = Vec::new();
        let mut i: usize = 0;
        while i < n
            invariant
                0 <= i <= n,
                new_supplies@.len() == i,
                new_balances@.len() == i,
                forall|j: int| 0 <= j < i ==> new_supplies@[j] == supplies@[j] - balances@[j],
                forall|j: int| 0 <= j < i ==> new_balances@[j] == 0u64,
            decreases n - i,
        {
            new_supplies.push(supplies[i] - balances[i]);
            new_balances.push(0);
            i = i + 1;
        }
        proof {
            assert(new_supplies@ =~= seq_sub_pointwise_u64(
                self.conditional_token_supplies@,
                self.user_conditional_balances@,
            ));
            // the collateral covers the payout: the liability on the whole
            // supplies dominates the payout on the caller's balances
            lemma_weighted_payout_monotone(
                balances@,
                self.conditional_token_supplies@,
                numerators,
                denom,
            );
            // and what remains covers the remaining liability
            lemma_weighted_payout_superadditive(
                balances@,
                self.conditional_token_supplies@,
                numerators,
                denom,
            );
            lemma_weighted_payout_nonneg(new_supplies@, numerators, denom);
        }
        let new_vault_balance = self.vault_underlying_balance - total_redeemable;
        match self.vault.check_invariant(
            &self.question,
            copy_amounts(&new_supplies),
            new_vault_balance,
        ) {
            Ok(()) => {},
            Err(e) => {
                return Err(e);
            },
        }
        self.vault_underlying_balance = new_vault_balance;
        self.user_underlying_balance = self.user_underlying_balance + total_redeemable;
        self.conditional_token_supplies = new_supplies;
        self.user_conditional_balances = new_balances;
        self.vault.seq_num = self.vault.seq_num + 1;
        Ok(())
    }
}

/// A vault state with no conditional tokens outstanding is well-formed
/// whatever collateral the vault holds: the base case of the solvency
/// argument. Every vault starts here, and each operation's postcondition
/// carries well-formedness — collateral covering the maximum possible
/// liability — to the next state, so it holds in every reachable state.
pub proof fn lemma_fresh_vault_state_wf(st: InteractWithVault)
    requires
        st.question.wf(),
        st.question.payout_denominator == 0,
        st.vault.conditional_token_mints@.len() == st.n(),
        st.conditional_token_supplies@.len() == st.n(),
        st.user_conditional_balances@.len() == st.n(),
        forall|i: int| 0 <= i < st.n() ==> st.conditional_token_supplies@[i] == 0u64,
        forall|i: int| 0 <= i < st.n() ==> st.user_conditional_balances@[i] == 0u64,
    ensures
        st.wf(),
{
    lemma_seq_max_le(st.conditional_token_supplies@, 0);
    lemma_seq_max_ge(st.conditional_token_supplies@);
}

/// Splitting and then merging the same amount on an unresolved vault is a
/// round trip: both operations succeed, and the conditional supplies, the
/// caller's balances and both collateral balances return to their pre-split
/// values.
pub proof fn lemma_split_merge_round_trip(pre: InteractWithVault, mid: InteractWithVault, a: u64)
    requires
        pre.wf(),
        pre.question.payout_denominator == 0,
        pre.user_underlying_balance >= a,
        pre.vault_underlying_balance + a <= u64::MAX,
        forall|i: int|
            0 <= i < pre.n() ==> pre.conditional_token_supplies@[i] + a <= u64::MAX,
        // `mid` is the state a successful split leaves behind
        mid.question == pre.question,
        mid.conditional_token_supplies@ == seq_add_u64(pre.conditional_token_supplies@, a),
        mid.user_conditional_balances@ == seq_add_u64(pre.user_conditional_balances@, a),
        mid.vault_underlying_balance == pre.vault_underlying_balance + a,
        mid.user_underlying_balance == pre.user_underlying_balance - a,
    ensures
        // the split out of `pre` succeeds
        pre.vault_underlying_balance + a >= max_liability(
            pre.question,
            seq_add_u64(pre.conditional_token_supplies@, a),
        ),
        // the merge out of `mid` succeeds
        forall|i: int| 0 <= i < mid.n() ==> mid.user_conditional_balances@[i] >= a,
        mid.vault_underlying_balance >= a,
        mid.vault_underlying_balance - a >= max_liability(
            mid.question,
            seq_sub_u64(mid.conditional_token_supplies@, a),
        ),
        // and it undoes the split exactly
        seq_sub_u64(mid.conditional_token_supplies@, a) =~= pre.conditional_token_supplies@,
        seq_sub_u64(mid.user_conditional_balances@, a) =~= pre.user_conditional_balances@,
        mid.vault_underlying_balance - a == pre.vault_underlying_balance,
        mid.user_underlying_balance + a == pre.user_underlying_balance,
{
    lemma_seq_max_ge(pre.conditional_token_supplies@);
    lemma_seq_max_le(
        seq_add_u64(pre.conditional_token_supplies@, a),
        seq_max_u64(pre.conditional_token_supplies@) + a,
    );
    assert(seq_sub_u64(mid.conditional_token_supplies@, a) =~= pre.conditional_token_supplies@);
    assert(seq_sub_u64(mid.user_conditional_balances@, a) =~= pre.user_conditional_balances@);
}

/// With two outcomes resolved all-or-nothing in favor of the first — payout
/// weights one and zero over a denominator of one — redemption pays exactly
/// the caller's balance of the winning outcome and nothing for the other.
pub proof fn lemma_redeem_winner_takes_all(balances: Seq<u64>, numerators: Seq<u32>)
    requires
        balances.len() == 2,
        numerators =~= seq![1u32, 0u32],
    ensures
        weighted_payout(balances, numerators, 1) == balances[0],
{
    let b = balances;
    let n = numerators;
    assert(n.last() == 0u32);
    assert(b.last() == b[1]);
    assert(n.drop_last().last() == 1u32);
    assert(b.drop_last().last() == b[0]);
    assert(b.drop_last().drop_last().len() == 0);
    assert(weighted_payout(b.drop_last().drop_last(), n.drop_last().drop_last(), 1) == 0);
    assert(b[1] * (0u32 as int) == 0) by {
        vstd::arithmetic::mul::lemma_mul_basics(b[1] as int);
    }
    assert(b[0] * (1u32 as int) == b[0]) by {
        vstd::arithmetic::mul::lemma_mul_basics(b[0] as int);
    }
    vstd::arithmetic::div_mod::lemma_div_basics(b[0] as int);
    vstd::arithmetic::div_mod::lemma_div_basics(0int);
    assert(0int / 1int == 0);
    assert(weighted_payout(b.drop_last(), n.drop_last(), 1) == b[0]);
    assert(weighted_payout(b, n, 1) == weighted_payout(b.drop_last(), n.drop_last(), 1) + (b.last()
        * n.last()) / 1int);
}

} // verus!
