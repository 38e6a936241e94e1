use futarchy::errors::VaultError;
use futarchy::keys::Pubkey;
use futarchy::question::InitializeQuestion;
use futarchy::question::InitializeQuestionArgs;
use futarchy::question::Question;
use futarchy::question::ResolveQuestion;
use futarchy::question::ResolveQuestionArgs;

fn key(n: u64) -> Pubkey {
    Pubkey::new(n, 0, 0, 0)
}

fn fresh_question(num_outcomes: u8) -> Question {
    InitializeQuestion::handle(InitializeQuestionArgs {
        question_id: key(1),
        oracle: key(2),
        num_outcomes,
    })
    .unwrap()
}

#[test]
fn initialize_question_seeds_zero_weights() {
    let q = fresh_question(2);
    assert_eq!(q.question_id, key(1));
    assert_eq!(q.oracle, key(2));
    assert_eq!(q.payout_numerators, vec![0, 0]);
    assert_eq!(q.payout_denominator, 0);
    assert_eq!(q.num_outcomes(), 2);
    assert!(!q.is_resolved());
}

#[test]
fn initialize_question_allows_many_outcomes() {
    let q = fresh_question(5);
    assert_eq!(q.num_outcomes(), 5);
    assert_eq!(q.payout_numerators, vec![0, 0, 0, 0, 0]);
}

#[test]
fn initialize_question_rejects_fewer_than_two_outcomes() {
    for n in [0u8, 1u8] {
        let r = InitializeQuestion::handle(InitializeQuestionArgs {
            question_id: key(1),
            oracle: key(2),
            num_outcomes: n,
        });
        assert_eq!(r.unwrap_err(), VaultError::InsufficientNumConditions);
    }
}

#[test]
fn resolve_question_sums_denominator() {
    let mut q = fresh_question(2);
    q.resolve(vec![70, 30]).unwrap();
    assert!(q.is_resolved());
    assert_eq!(q.payout_numerators, vec![70, 30]);
    assert_eq!(q.payout_denominator, 100);
}

#[test]
fn resolve_question_twice_fails() {
    let mut q = fresh_question(2);
    q.resolve(vec![1, 0]).unwrap();
    let r = q.resolve(vec![0, 1]);
    assert_eq!(r.unwrap_err(), VaultError::QuestionAlreadyResolved);
    // the failed call changed nothing
    assert_eq!(q.payout_numerators, vec![1, 0]);
    assert_eq!(q.payout_denominator, 1);
}

#[test]
fn resolve_question_wrong_weight_count_fails() {
    let mut q = fresh_question(2);
    let r = q.resolve(vec![50, 30, 20]);
    assert_eq!(r.unwrap_err(), VaultError::InvalidNumPayoutNumerators);
    assert!(!q.is_resolved());
}

#[test]
fn resolve_question_zero_total_fails() {
    let mut q = fresh_question(3);
    let r = q.resolve(vec![0, 0, 0]);
    assert_eq!(r.unwrap_err(), VaultError::PayoutZero);
    assert!(!q.is_resolved());
    assert_eq!(q.payout_numerators, vec![0, 0, 0]);
}

#[test]
fn resolve_question_operation_checks_oracle() {
    let q = fresh_question(2);
    let mut op = ResolveQuestion {
        oracle: q.oracle,
        question: q,
    };
    op.handle(ResolveQuestionArgs {
        payout_numerators: vec![60, 40],
    })
    .unwrap();
    assert_eq!(op.question.payout_denominator, 100);
    assert_eq!(op.question.payout_numerators, vec![60, 40]);
}
