//! Questions: statements about future events with weighted outcomes.
//!
//! A question has two or more outcomes and an oracle identity authorized to
//! resolve it. Resolution assigns each outcome a payout numerator; the
//! denominator is their sum, so each outcome is worth
//! `numerator / denominator` of one collateral token. A denominator of zero
//! means the question is still unresolved.

use vstd::prelude::*;
use crate::errors::VaultError;
use crate::keys::Pubkey;

verus! {

/// Sum of a sequence of payout numerators, as a mathematical integer.
pub open spec fn sum_u32(s: Seq<u32>) -> int
    decreases s.len(),
{
    if s.len() == 0 {
        0
    } else {
        sum_u32(s.drop_last()) + s.last()
    }
}

/// Every partial sum of numerators is at most the total.
pub proof fn lemma_sum_u32_take_le(s: Seq<u32>, i: int)
    requires
        0 <= i <= s.len(),
    ensures
        sum_u32(s.take(i)) <= sum_u32(s),
    decreases s.len(),
{
    if i == s.len() {
        assert(s.take(i) =~= s);
    } else {
        assert(s.drop_last().take(i) =~= s.take(i));
        lemma_sum_u32_take_le(s.drop_last(), i);
    }
}

/// Sums of numerators are never negative.
pub proof fn lemma_sum_u32_nonneg(s: Seq<u32>)
    ensures
        sum_u32(s) >= 0,
    decreases s.len(),
{
    if s.len() > 0 {
        lemma_sum_u32_nonneg(s.drop_last());
    }
}

/// An immutable-until-resolved record of an event with N >= 2 outcomes.
#[derive(Clone, Debug)]
pub struct Question {
    /// Unique identifier for the question.
    pub question_id: Pubkey,
    /// The identity authorized to resolve the question.
    pub oracle: Pubkey,
    /// One weight per outcome; all zero until resolution.
    pub payout_numerators: Vec<u32>,
    /// Zero while unresolved; the sum of the numerators once resolved.
    pub payout_denominator: u32,
}

impl Question {
    /// A question has at least two outcomes, and once resolved its
    /// denominator is exactly the sum of its numerators.
    pub open spec fn wf(&self) -> bool {
        &&& self.payout_numerators@.len() >= 2
        &&& self.payout_denominator != 0 ==> self.payout_denominator == sum_u32(
            self.payout_numerators@,
        )
    }

    /// The number of possible outcomes, fixed for the question's lifetime.
    pub fn num_outcomes(&self) -> (r: usize)
        ensures
            r == self.payout_numerators@.len(),
    {
        self.payout_numerators.len()
    }

    /// Whether the oracle has resolved the question.
    pub fn is_resolved(&self) -> (r: bool)
        ensures
            r == (self.payout_denominator != 0),
    {
        self.payout_denominator != 0
    }

    /// Resolves the question: sets the numerators to the given weights and
    /// the denominator to their sum. Mutates the question exactly once over
    /// its lifetime; every later attempt fails.
    ///
    /// The precondition keeps the weight sum within the denominator's width;
    /// a larger sum is a caller bug that the host rejects before calling.
    pub fn resolve(&mut self, payout_numerators: Vec<u32>) -> (r: Result<(), VaultError>)
        requires
            old(self).wf(),
            sum_u32(payout_numerators@) <= u32::MAX,
        ensures
            *old(self) == *final(self) || r == Ok::<(), VaultError>(()),
            old(self).payout_denominator != 0 ==> r == Err::<(), VaultError>(
                VaultError::QuestionAlreadyResolved,
            ),
            old(self).payout_denominator == 0 && payout_numerators@.len() != old(
                self,
            ).payout_numerators@.len() ==> r == Err::<(), VaultError>(
                VaultError::InvalidNumPayoutNumerators,
            ),
            old(self).payout_denominator == 0 && payout_numerators@.len() == old(
                self,
            ).payout_numerators@.len() && sum_u32(payout_numerators@) == 0 ==> r == Err::<
                (),
                VaultError,
            >(VaultError::PayoutZero),
            r == Ok::<(), VaultError>(()) <==> old(self).payout_denominator == 0
                && payout_numerators@.len() == old(self).payout_numerators@.len() && sum_u32(
                payout_numerators@,
            ) > 0,
            r == Ok::<(), VaultError>(()) ==> {
                &&& final(self).payout_numerators@ == payout_numerators@
                &&& final(self).payout_denominator == sum_u32(payout_numerators@)
                &&& final(self).question_id == old(self).question_id
                &&& final(self).oracle == old(self).oracle
                &&& final(self).wf()
            },
    {
        if self.payout_denominator != 0 {
            return Err(VaultError::QuestionAlreadyResolved);
        }
        if payout_numerators.len() != self.payout_numerators.len() {
            return Err(VaultError::InvalidNumPayoutNumerators);
        }
        let n = payout_numerators.len();
        let mut sum: u64 = 0;
        let mut i: usize = 0;
        while i < n
            invariant
                0 <= i <= n,
                n == payout_numerators@.len(),
                sum == sum_u32(payout_numerators@.take(i as int)),
                sum_u32(payout_numerators@) <= u32::MAX,
            decreases n - i,
        {
            proof {
                lemma_sum_u32_take_le(payout_numerators@, i + 1);
                lemma_sum_u32_nonneg(payout_numerators@.take(i as int));
                assert(payout_numerators@.take(i + 1).drop_last() =~= payout_numerators@.take(
                    i as int,
                ));
            }
            sum = sum + payout_numerators[i] as u64;
            i = i + 1;
        }
        proof {
            assert(payout_numerators@.take(n as int) =~= payout_numerators@);
        }
        if sum == 0 {
            return Err(VaultError::PayoutZero);
        }
        self.payout_denominator = sum as u32;
        self.payout_numerators = payout_numerators;
        Ok(())
    }
}

/// Inputs for creating a question.
pub struct InitializeQuestionArgs {
    /// A unique 32-byte identifier, typically a digest of the question text.
    pub question_id: Pubkey,
    /// The identity that will have exclusive permission to resolve.
    pub oracle: Pubkey,
    /// How many outcomes the question has; at least two.
    pub num_outcomes: u8,
}

/// The operation that creates a question.
pub struct InitializeQuestion;

impl InitializeQuestion {
    /// Creates an unresolved question: one zero numerator per outcome and a
    /// zero denominator.
    pub fn handle(args: InitializeQuestionArgs) -> (r: Result<Question, VaultError>)
        ensures
            args.num_outcomes < 2 ==> (r matches Err(e) && e
                == VaultError::InsufficientNumConditions),
            args.num_outcomes >= 2 ==> (r matches Ok(q) && {
                &&& q.question_id == args.question_id
                &&& q.oracle == args.oracle
                &&& q.payout_numerators@.len() == args.num_outcomes
                &&& forall|j: int|
                    0 <= j < q.payout_numerators@.len() ==> q.payout_numerators@[j] == 0u32
                &&& q.payout_denominator == 0
                &&& q.wf()
            }),
    {
        if args.num_outcomes < 2 {
            return Err(VaultError::InsufficientNumConditions);
        }
        let n = args.num_outcomes as usize;
        let mut payout_numerators: Vec<u32> = Vec::new();
        let mut i: usize = 0;
        while i < n
            invariant
                0 <= i <= n,
                payout_numerators@.len() == i,
                forall|j: int| 0 <= j < i ==> payout_numerators@[j] == 0u32,
            decreases n - i,
        {
            payout_numerators.push(0);
            i = i + 1;
        }
        Ok(
            Question {
                question_id: args.question_id,
                oracle: args.oracle,
                payout_numerators,
                payout_denominator: 0,
            },
        )
    }
}

/// Inputs for resolving a question.
pub struct ResolveQuestionArgs {
    /// One weight per outcome; their sum becomes the denominator.
    pub payout_numerators: Vec<u32>,
}

/// The operation that resolves a question: the question being mutated and
/// the identity the host authenticated as the caller.
pub struct ResolveQuestion {
    /// The question to resolve.
    pub question: Question,
    /// The authenticated caller; must be the question's oracle.
    pub oracle: Pubkey,
}

impl ResolveQuestion {
    /// Resolves the question with the given weights. Only the question's
    /// oracle may resolve, which the host checks by signature before
    /// invoking; the precondition records that authorization.
    pub fn handle(&mut self, args: ResolveQuestionArgs) -> (r: Result<(), VaultError>)
        requires
            old(self).question.wf(),
            old(self).oracle == old(self).question.oracle,
            sum_u32(args.payout_numerators@) <= u32::MAX,
        ensures
            final(self).oracle == old(self).oracle,
            old(self).question == final(self).question || r == Ok::<(), VaultError>(()),
            old(self).question.payout_denominator != 0 ==> r == Err::<(), VaultError>(
                VaultError::QuestionAlreadyResolved,
            ),
            old(self).question.payout_denominator == 0 && args.payout_numerators@.len() != old(
                self,
            ).question.payout_numerators@.len() ==> r == Err::<(), VaultError>(
                VaultError::InvalidNumPayoutNumerators,
            ),
            old(self).question.payout_denominator == 0 && args.payout_numerators@.len() == old(
                self,
            ).question.payout_numerators@.len() && sum_u32(args.payout_numerators@) == 0 ==> r
                == Err::<(), VaultError>(VaultError::PayoutZero),
            r == Ok::<(), VaultError>(()) <==> old(self).question.payout_denominator == 0
                && args.payout_numerators@.len() == old(self).question.payout_numerators@.len()
                && sum_u32(args.payout_numerators@) > 0,
            r == Ok::<(), VaultError>(()) ==> {
                &&& final(self).question.payout_numerators@ == args.payout_numerators@
                &&& final(self).question.payout_denominator == sum_u32(args.payout_numerators@)
                &&& final(self).question.question_id == old(self).question.question_id
                &&& final(self).question.oracle == old(self).question.oracle
                &&& final(self).question.wf()
            },
    {
        self.question.resolve(args.payout_numerators)
    }
}

} // verus!
