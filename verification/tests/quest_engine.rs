use std::collections::HashMap;

use learnault::account::AccountId;
use learnault::ledger::{Party, Transfer};
use learnault::quest_engine::{
    apply_multiplier, split_reward, QuestAction, QuestEngineContract, QuestError, QuestType, SubmissionStatus,
};

fn account(tag: u8) -> AccountId {
    let mut key = [b'Q'; 56];
    key[0] = b'G';
    key[55] = tag;
    AccountId::new(key)
}

fn hash(byte: u8) -> [u8; 32] {
    [byte; 32]
}

/// Drives the quest engine the way the host does: token balances, a stake vault that
/// reports a fixed multiplier, and a reward pool that either ignores top-up requests or
/// pays them from its own balance.
struct Harness {
    engine: QuestEngineContract,
    admin: AccountId,
    pool: AccountId,
    engine_account: AccountId,
    balances: HashMap<[u8; 56], i128>,
    multiplier: u32,
    pool_pays: bool,
}

impl Harness {
    fn with(multiplier: u32, pool_pays: bool) -> Harness {
        let admin = account(1);
        let token = account(2);
        let pool = account(3);
        let vault = account(4);
        let mut engine = QuestEngineContract::new();
        engine.initialize(admin, token, pool, vault).unwrap();
        Harness {
            engine,
            admin,
            pool,
            engine_account: account(200),
            balances: HashMap::new(),
            multiplier,
            pool_pays,
        }
    }

    fn setup() -> Harness {
        Harness::with(100, false)
    }

    fn mint(&mut self, who: AccountId, amount: i128) {
        *self.balances.entry(who.key).or_insert(0) += amount;
    }

    fn balance(&self, who: AccountId) -> i128 {
        *self.balances.get(&who.key).unwrap_or(&0)
    }

    fn contract_balance(&self) -> i128 {
        self.balance(self.engine_account)
    }

    fn resolve(&self, p: Party) -> AccountId {
        match p {
            Party::ThisContract => self.engine_account,
            Party::Account(a) => a,
        }
    }

    fn move_tokens(&mut self, from: AccountId, to: AccountId, amount: i128) -> Result<(), String> {
        if amount < 0 {
            return Err("negative amount".to_string());
        }
        if self.balance(from) < amount {
            return Err("insufficient balance".to_string());
        }
        *self.balances.entry(from.key).or_insert(0) -= amount;
        *self.balances.entry(to.key).or_insert(0) += amount;
        Ok(())
    }

    fn transfer(&mut self, t: Transfer) -> Result<(), String> {
        let from = self.resolve(t.from);
        let to = self.resolve(t.to);
        self.move_tokens(from, to, t.amount)
    }

    fn run(&mut self, actions: &[QuestAction]) -> Result<(), String> {
        for action in actions {
            match *action {
                QuestAction::Pay(t) => self.transfer(t)?,
                QuestAction::PoolReward { pool, learner, amount } => {
                    if self.pool_pays {
                        self.move_tokens(pool, learner, amount)?;
                    }
                },
            }
        }
        Ok(())
    }

    fn create_build_quest(&mut self, employer: AccountId, reward: i128, metadata: [u8; 32]) -> u32 {
        let (id, deposit, _event) = self.engine.create_build_quest(employer, reward, metadata).unwrap();
        self.transfer(deposit).unwrap();
        id
    }

    fn review(&mut self, employer: AccountId, learner: AccountId, quest_id: u32, approve: bool) -> Result<(), String> {
        let outcome = self
            .engine
            .review_submission(employer, learner, quest_id, approve, self.multiplier)
            .map_err(|e| e.message().to_string())?;
        self.run(&outcome.actions)
    }

    fn refund(&mut self, employer: AccountId, quest_id: u32) -> Result<(), String> {
        let balance = self.contract_balance();
        let (t, _event) = self
            .engine
            .refund_quest(employer, quest_id, balance)
            .map_err(|e| e.message().to_string())?;
        self.transfer(t)
    }

    fn batch(&mut self, employer: AccountId, quest_id: u32, learners: &Vec<AccountId>) -> Result<(), String> {
        let balance = self.contract_balance();
        let outcome = self
            .engine
            .batch_review_submissions(employer, quest_id, learners, balance)
            .map_err(|e| e.message().to_string())?;
        self.run(&outcome.actions)
    }
}

#[test]
fn test_test_initialize_twice_panics() {
    let mut h = Harness::setup();
    let err = h.engine.initialize(account(1), account(2), account(3), account(4)).unwrap_err();
    assert_eq!(err.message(), "Already initialized");
}

#[test]
fn test_create_build_quest_success() {
    let mut h = Harness::setup();
    let employer = account(10);
    let reward_amount: i128 = 1_000;
    let metadata_hash = hash(1);

    h.mint(employer, reward_amount);
    assert_eq!(h.balance(employer), reward_amount);

    let quest_id = h.create_build_quest(employer, reward_amount, metadata_hash);
    assert_eq!(quest_id, 1);
    assert_eq!(h.contract_balance(), reward_amount);
    assert_eq!(h.balance(employer), 0);

    let quest = h.engine.get_quest(quest_id).unwrap();
    assert_eq!(quest.employer, employer);
    assert_eq!(quest.reward_amount, reward_amount);
    assert_eq!(quest.quest_type, QuestType::Build);
    assert_eq!(quest.metadata_hash, metadata_hash);
    assert!(quest.active);
}

#[test]
fn test_create_build_quest_emits_event() {
    let mut h = Harness::setup();
    let employer = account(10);
    h.mint(employer, 500);
    let (id, _deposit, event) = h.engine.create_build_quest(employer, 500, hash(2)).unwrap();
    assert_eq!(event.quest_id, id);
    assert_eq!(event.employer, employer);
    assert_eq!(event.reward_amount, 500);
}

#[test]
fn test_create_build_quest_increments_ids() {
    let mut h = Harness::setup();
    let employer = account(10);
    h.mint(employer, 3000);

    let id1 = h.create_build_quest(employer, 1000, hash(3));
    let id2 = h.create_build_quest(employer, 1000, hash(3));
    let id3 = h.create_build_quest(employer, 1000, hash(3));
    assert_eq!((id1, id2, id3), (1, 2, 3));

    for id in [id1, id2, id3] {
        let quest = h.engine.get_quest(id).unwrap();
        assert_eq!(quest.quest_type, QuestType::Build);
        assert!(quest.active);
    }
    assert_eq!(h.contract_balance(), 3000);
}

#[test]
fn test_create_quest_without_init_panics() {
    let mut engine = QuestEngineContract::new();
    let err = engine.create_build_quest(account(10), 100, hash(0)).unwrap_err();
    assert_eq!(err.message(), "Not initialized");
}

#[test]
fn test_get_quest_returns_none_for_nonexistent() {
    let h = Harness::setup();
    assert_eq!(h.engine.get_quest(999), None);
}

#[test]
fn test_create_build_quest_multiple_employers() {
    let mut h = Harness::setup();
    let employer1 = account(10);
    let employer2 = account(11);
    h.mint(employer1, 500);
    h.mint(employer2, 700);

    let id1 = h.create_build_quest(employer1, 500, hash(4));
    let id2 = h.create_build_quest(employer2, 700, hash(4));

    let quest1 = h.engine.get_quest(id1).unwrap();
    let quest2 = h.engine.get_quest(id2).unwrap();
    assert_eq!(quest1.employer, employer1);
    assert_eq!(quest1.reward_amount, 500);
    assert_eq!(quest2.employer, employer2);
    assert_eq!(quest2.reward_amount, 700);
    assert_eq!(h.contract_balance(), 1200);
}

#[test]
fn test_submit_proof_success() {
    let mut h = Harness::setup();
    let employer = account(10);
    let learner = account(20);
    h.mint(employer, 1000);
    let quest_id = h.create_build_quest(employer, 1000, hash(5));

    h.engine.submit_proof(learner, quest_id, hash(6)).unwrap();

    let submission = h.engine.get_submission(learner, quest_id).unwrap();
    assert_eq!(submission.proof_hash, hash(6));
    assert_eq!(submission.status, SubmissionStatus::Pending);
}

#[test]
fn test_submit_proof_emits_event() {
    let mut h = Harness::setup();
    let employer = account(10);
    let learner = account(20);
    h.mint(employer, 1000);
    let quest_id = h.create_build_quest(employer, 1000, hash(7));

    let event = h.engine.submit_proof(learner, quest_id, hash(8)).unwrap();
    assert_eq!(event.learner, learner);
    assert_eq!(event.quest_id, quest_id);
    assert_eq!(event.proof_hash, hash(8));
}

#[test]
fn test_submit_proof_nonexistent_quest_panics() {
    let mut h = Harness::setup();
    let err = h.engine.submit_proof(account(20), 999, hash(9)).unwrap_err();
    assert_eq!(err.message(), "Quest not found");
}

#[test]
fn test_submit_proof_duplicate_panics() {
    let mut h = Harness::setup();
    let employer = account(10);
    let learner = account(20);
    h.mint(employer, 1000);
    let quest_id = h.create_build_quest(employer, 1000, hash(14));

    h.engine.submit_proof(learner, quest_id, hash(15)).unwrap();
    let err = h.engine.submit_proof(learner, quest_id, hash(15)).unwrap_err();
    assert_eq!(err.message(), "Submission already exists");
}

#[test]
fn test_get_submission_returns_none_for_nonexistent() {
    let h = Harness::setup();
    assert_eq!(h.engine.get_submission(account(20), 999), None);
}

#[test]
fn test_review_submission_approve_success() {
    let mut h = Harness::setup();
    let employer = account(10);
    let learner = account(20);
    let reward_amount: i128 = 1000;
    h.mint(employer, reward_amount);
    let quest_id = h.create_build_quest(employer, reward_amount, hash(16));
    h.engine.submit_proof(learner, quest_id, hash(17)).unwrap();

    assert_eq!(h.contract_balance(), reward_amount);
    assert_eq!(h.balance(learner), 0);

    h.review(employer, learner, quest_id, true).unwrap();

    let fee = (reward_amount * 15) / 100;
    let learner_amount = reward_amount - fee;
    assert_eq!(h.contract_balance(), 0);
    assert_eq!(h.balance(learner), learner_amount);
    assert_eq!(h.balance(h.pool), fee);
}

#[test]
fn test_review_submission_reject_success() {
    let mut h = Harness::setup();
    let employer = account(10);
    let learner = account(20);
    let reward_amount: i128 = 1000;
    h.mint(employer, reward_amount);
    let quest_id = h.create_build_quest(employer, reward_amount, hash(18));
    h.engine.submit_proof(learner, quest_id, hash(19)).unwrap();

    h.review(employer, learner, quest_id, false).unwrap();

    assert_eq!(h.contract_balance(), reward_amount);
    assert_eq!(h.balance(learner), 0);
    let submission = h.engine.get_submission(learner, quest_id).unwrap();
    assert_eq!(submission.status, SubmissionStatus::Rejected);
}

#[test]
fn test_review_submission_emits_event() {
    let mut h = Harness::setup();
    let employer = account(10);
    let learner = account(20);
    h.mint(employer, 1000);
    let quest_id = h.create_build_quest(employer, 1000, hash(20));
    h.engine.submit_proof(learner, quest_id, hash(21)).unwrap();

    let outcome = h.engine.review_submission(employer, learner, quest_id, true, 100).unwrap();
    assert!(outcome.event.approved);
    assert_eq!(outcome.event.learner, learner);
    assert_eq!(outcome.event.employer, employer);
}

#[test]
fn test_review_submission_nonexistent_quest_panics() {
    let mut h = Harness::setup();
    let err = h.review(account(10), account(20), 999, true).unwrap_err();
    assert_eq!(err, "Quest not found");
}

#[test]
fn test_review_submission_wrong_employer_panics() {
    let mut h = Harness::setup();
    let employer = account(10);
    let learner = account(20);
    h.mint(employer, 1000);
    let quest_id = h.create_build_quest(employer, 1000, hash(22));
    h.engine.submit_proof(learner, quest_id, hash(23)).unwrap();

    let err = h.review(account(11), learner, quest_id, true).unwrap_err();
    assert_eq!(err, "Only the quest employer can review submissions");
}

#[test]
fn test_review_submission_nonexistent_submission_panics() {
    let mut h = Harness::setup();
    let employer = account(10);
    h.mint(employer, 1000);
    let quest_id = h.create_build_quest(employer, 1000, hash(24));

    let err = h.review(employer, account(20), quest_id, true).unwrap_err();
    assert_eq!(err, "Submission not found");
}

#[test]
fn test_review_submission_already_reviewed_panics() {
    let mut h = Harness::setup();
    let employer = account(10);
    let learner = account(20);
    h.mint(employer, 1000);
    let quest_id = h.create_build_quest(employer, 1000, hash(25));
    h.engine.submit_proof(learner, quest_id, hash(26)).unwrap();
    h.review(employer, learner, quest_id, true).unwrap();

    let err = h.review(employer, learner, quest_id, false).unwrap_err();
    assert_eq!(err, "Submission is not pending review");
}

#[test]
fn test_refund_quest_success() {
    let mut h = Harness::setup();
    let employer = account(10);
    let reward_amount: i128 = 1000;
    h.mint(employer, reward_amount);
    let quest_id = h.create_build_quest(employer, reward_amount, hash(30));

    assert_eq!(h.contract_balance(), reward_amount);
    assert_eq!(h.balance(employer), 0);

    h.refund(employer, quest_id).unwrap();

    assert_eq!(h.contract_balance(), 0);
    assert_eq!(h.balance(employer), reward_amount);
    assert!(!h.engine.get_quest(quest_id).unwrap().active);
}

#[test]
fn test_refund_quest_after_full_payout_panics() {
    let mut h = Harness::setup();
    let employer = account(10);
    let learner = account(20);
    h.mint(employer, 1000);
    let quest_id = h.create_build_quest(employer, 1000, hash(33));
    h.engine.submit_proof(learner, quest_id, hash(34)).unwrap();
    h.review(employer, learner, quest_id, true).unwrap();

    let err = h.refund(employer, quest_id).unwrap_err();
    assert_eq!(err, "No unspent balance to refund");
}

#[test]
fn test_refund_quest_after_rejected_submission_still_succeeds() {
    let mut h = Harness::setup();
    let employer = account(10);
    let learner = account(20);
    h.mint(employer, 1000);
    let quest_id = h.create_build_quest(employer, 1000, hash(35));
    h.engine.submit_proof(learner, quest_id, hash(36)).unwrap();
    h.review(employer, learner, quest_id, false).unwrap();

    h.refund(employer, quest_id).unwrap();

    assert_eq!(h.contract_balance(), 0);
    assert_eq!(h.balance(employer), 1000);
    assert!(!h.engine.get_quest(quest_id).unwrap().active);
}

#[test]
fn test_refund_quest_before_submission_approval_still_succeeds() {
    let mut h = Harness::setup();
    let employer = account(10);
    let learner = account(20);
    h.mint(employer, 1000);
    let quest_id = h.create_build_quest(employer, 1000, hash(37));
    h.engine.submit_proof(learner, quest_id, hash(38)).unwrap();

    h.refund(employer, quest_id).unwrap();

    assert_eq!(h.contract_balance(), 0);
    assert_eq!(h.balance(employer), 1000);
    let submission = h.engine.get_submission(learner, quest_id).unwrap();
    assert_eq!(submission.status, SubmissionStatus::Pending);
    assert!(!h.engine.get_quest(quest_id).unwrap().active);
}

#[test]
fn test_refund_quest_already_inactive_panics() {
    let mut h = Harness::setup();
    let employer = account(10);
    h.mint(employer, 1000);
    let quest_id = h.create_build_quest(employer, 1000, hash(31));
    h.refund(employer, quest_id).unwrap();

    let err = h.refund(employer, quest_id).unwrap_err();
    assert_eq!(err, "Quest already inactive");
}

#[test]
fn test_refund_quest_wrong_employer_panics() {
    let mut h = Harness::setup();
    let employer = account(10);
    h.mint(employer, 1000);
    let quest_id = h.create_build_quest(employer, 1000, hash(32));

    let err = h.refund(account(11), quest_id).unwrap_err();
    assert_eq!(err, "Unauthorized");
}

#[test]
fn test_review_submission_with_no_multiplier() {
    let mut h = Harness::with(100, false);
    let employer = account(10);
    let learner = account(20);
    let reward_amount: i128 = 1000;
    h.mint(employer, reward_amount);
    let quest_id = h.create_build_quest(employer, reward_amount, hash(50));
    h.engine.submit_proof(learner, quest_id, hash(51)).unwrap();

    h.review(employer, learner, quest_id, true).unwrap();

    let fee = (reward_amount * 15) / 100;
    let base_amount = reward_amount - fee;
    assert_eq!(h.balance(learner), base_amount);
    assert_eq!(h.balance(h.pool), fee);
}

#[test]
fn test_review_submission_with_120_multiplier() {
    let mut h = Harness::with(120, true);
    let employer = account(10);
    let learner = account(20);
    let reward_amount: i128 = 1000;

    let fee = (reward_amount * 15) / 100;
    let base = reward_amount - fee;
    let boosted = (base * 120) / 100;
    let boost_delta = boosted - base;

    h.mint(employer, reward_amount);
    let pool = h.pool;
    h.mint(pool, boost_delta);

    let quest_id = h.create_build_quest(employer, reward_amount, hash(52));
    h.engine.submit_proof(learner, quest_id, hash(53)).unwrap();
    h.review(employer, learner, quest_id, true).unwrap();

    assert_eq!(h.balance(learner), boosted);
    assert_eq!(h.balance(pool), fee);
    assert!(boosted > base);
}

#[test]
fn test_multiplier_math_correctness() {
    let test_cases = [
        (1000i128, 150i128, 850i128, 1020i128),
        (5000i128, 750i128, 4250i128, 5100i128),
        (10000i128, 1500i128, 8500i128, 10200i128),
    ];

    for (reward, expected_fee, expected_base, expected_boosted) in test_cases {
        let (fee, base) = split_reward(reward).unwrap();
        let boosted = apply_multiplier(base, 120).unwrap();

        assert_eq!(fee, expected_fee);
        assert_eq!(base, expected_base);
        assert_eq!(boosted, expected_boosted);
    }
}

#[test]
fn test_staked_learner_receives_more_than_non_staked() {
    let reward_amount: i128 = 1000;
    let fee = (reward_amount * 15) / 100;
    let base = reward_amount - fee;
    let boost_delta_120 = (base * 120) / 100 - base;

    let mut h1 = Harness::with(100, false);
    let employer1 = account(10);
    let learner_no_stake = account(20);
    h1.mint(employer1, reward_amount);
    let qid1 = h1.create_build_quest(employer1, reward_amount, hash(80));
    h1.engine.submit_proof(learner_no_stake, qid1, hash(81)).unwrap();
    h1.review(employer1, learner_no_stake, qid1, true).unwrap();
    let non_staked_payout = h1.balance(learner_no_stake);

    let mut h2 = Harness::with(120, true);
    let employer2 = account(10);
    let learner_staked = account(21);
    h2.mint(employer2, reward_amount);
    let pool2 = h2.pool;
    h2.mint(pool2, boost_delta_120);
    let qid2 = h2.create_build_quest(employer2, reward_amount, hash(82));
    h2.engine.submit_proof(learner_staked, qid2, hash(83)).unwrap();
    h2.review(employer2, learner_staked, qid2, true).unwrap();
    let staked_payout = h2.balance(learner_staked);

    assert!(staked_payout > non_staked_payout);
    assert_eq!(non_staked_payout, base);
    assert_eq!(staked_payout, (base * 120) / 100);
}

#[test]
fn test_review_submission_with_200_multiplier_draws_delta_from_pool() {
    let mut h = Harness::with(200, true);
    let employer = account(10);
    let learner = account(20);
    let reward_amount: i128 = 1000;

    let fee = (reward_amount * 15) / 100;
    let base = reward_amount - fee;
    let boosted = (base * 200) / 100;
    let boost_delta = boosted - base;

    h.mint(employer, reward_amount);
    let pool = h.pool;
    h.mint(pool, boost_delta);

    let quest_id = h.create_build_quest(employer, reward_amount, hash(90));
    h.engine.submit_proof(learner, quest_id, hash(91)).unwrap();
    h.review(employer, learner, quest_id, true).unwrap();

    assert_eq!(h.balance(learner), boosted);
    assert_eq!(h.balance(pool), fee);
}

#[test]
fn test_review_submission_fails_deterministically_when_pool_cannot_cover_boost() {
    let mut h = Harness::with(120, true);
    let employer = account(10);
    let learner = account(20);
    h.mint(employer, 1000);
    let quest_id = h.create_build_quest(employer, 1000, hash(92));
    h.engine.submit_proof(learner, quest_id, hash(93)).unwrap();

    assert!(h.review(employer, learner, quest_id, true).is_err());
}

#[test]
fn test_review_submission_with_80_multiplier() {
    let mut h = Harness::with(80, false);
    let employer = account(10);
    let learner = account(20);
    let reward_amount: i128 = 1000;
    h.mint(employer, reward_amount);
    let quest_id = h.create_build_quest(employer, reward_amount, hash(54));
    h.engine.submit_proof(learner, quest_id, hash(55)).unwrap();

    h.review(employer, learner, quest_id, true).unwrap();

    let fee = (reward_amount * 15) / 100;
    let base = reward_amount - fee;
    let expected = (base * 80) / 100;
    assert_eq!(h.balance(learner), expected);
    assert_eq!(h.balance(h.pool), fee + (base - expected));
}

#[test]
fn test_batch_review_submissions_pays_all_learners() {
    let mut h = Harness::setup();
    let employer = account(10);
    let learner1 = account(20);
    let learner2 = account(21);
    let reward_amount: i128 = 1_000;
    h.mint(employer, reward_amount * 2);
    let quest_id = h.create_build_quest(employer, reward_amount, hash(1));
    let quest_id2 = h.create_build_quest(employer, reward_amount, hash(1));

    h.engine.submit_proof(learner1, quest_id, hash(1)).unwrap();
    h.engine.submit_proof(learner2, quest_id2, hash(1)).unwrap();

    h.batch(employer, quest_id, &vec![learner1]).unwrap();
    h.batch(employer, quest_id2, &vec![learner2]).unwrap();

    let fee = (reward_amount * 15) / 100;
    let learner_amount = reward_amount - fee;
    assert_eq!(h.balance(learner1), learner_amount);
    assert_eq!(h.balance(learner2), learner_amount);
    assert_eq!(h.balance(h.pool), fee * 2);
}

#[test]
fn test_batch_review_submissions_single_learner() {
    let mut h = Harness::setup();
    let employer = account(10);
    let learner = account(20);
    let reward_amount: i128 = 500;
    h.mint(employer, reward_amount);
    let quest_id = h.create_build_quest(employer, reward_amount, hash(5));
    h.engine.submit_proof(learner, quest_id, hash(5)).unwrap();

    h.batch(employer, quest_id, &vec![learner]).unwrap();

    let fee = (reward_amount * 15) / 100;
    let learner_amount = reward_amount - fee;
    assert_eq!(h.balance(learner), learner_amount);
    assert_eq!(h.balance(h.pool), fee);
}

#[test]
fn test_batch_review_submissions_emits_batch_reviewed_event() {
    let mut h = Harness::setup();
    let employer = account(10);
    let learner = account(20);
    h.mint(employer, 300);
    let quest_id = h.create_build_quest(employer, 300, hash(9));
    h.engine.submit_proof(learner, quest_id, hash(9)).unwrap();

    let balance = h.contract_balance();
    let outcome = h.engine.batch_review_submissions(employer, quest_id, &vec![learner], balance).unwrap();
    assert_eq!(outcome.event.approved_count, 1);
    assert_eq!(outcome.reviewed.len(), 1);
}

#[test]
fn test_batch_review_wrong_employer_panics() {
    let mut h = Harness::setup();
    let employer = account(10);
    let learner = account(20);
    h.mint(employer, 200);
    let quest_id = h.create_build_quest(employer, 200, hash(2));
    h.engine.submit_proof(learner, quest_id, hash(2)).unwrap();

    let err = h.batch(account(11), quest_id, &vec![learner]).unwrap_err();
    assert_eq!(err, "Only the quest employer can review submissions");
}

#[test]
fn test_batch_review_missing_submission_panics() {
    let mut h = Harness::setup();
    let employer = account(10);
    h.mint(employer, 200);
    let quest_id = h.create_build_quest(employer, 200, hash(3));

    let err = h.batch(employer, quest_id, &vec![account(20)]).unwrap_err();
    assert_eq!(err, "Submission not found");
}

#[test]
fn test_upgrade_contract_non_admin_panics() {
    let h = Harness::setup();
    let err = h.engine.upgrade_contract(account(66), [0xab; 32]).unwrap_err();
    assert_eq!(err.message(), "Unauthorized");
}

#[test]
fn test_create_explore_quest_success() {
    let mut h = Harness::setup();
    let admin = h.admin;
    let (quest_id, _event) = h.engine.create_explore_quest(admin, 500, hash(60)).unwrap();
    assert_eq!(quest_id, 1);

    let quest = h.engine.get_quest(quest_id).unwrap();
    assert_eq!(quest.employer, admin);
    assert_eq!(quest.reward_amount, 500);
    assert_eq!(quest.quest_type, QuestType::Explore);
    assert_eq!(quest.metadata_hash, hash(60));
    assert!(quest.active);
}

#[test]
fn test_create_explore_quest_unauthorized() {
    let mut h = Harness::setup();
    let err = h.engine.create_explore_quest(account(66), 500, hash(61)).unwrap_err();
    assert_eq!(err.message(), "Unauthorized");
}

#[test]
fn test_create_explore_quest_increments_ids() {
    let mut h = Harness::setup();
    let admin = h.admin;
    let (id1, _) = h.engine.create_explore_quest(admin, 100, hash(62)).unwrap();
    let (id2, _) = h.engine.create_explore_quest(admin, 200, hash(62)).unwrap();
    let (id3, _) = h.engine.create_explore_quest(admin, 300, hash(62)).unwrap();
    assert_eq!((id1, id2, id3), (1, 2, 3));
    for id in [id1, id2, id3] {
        assert_eq!(h.engine.get_quest(id).unwrap().quest_type, QuestType::Explore);
    }
}

#[test]
fn test_verify_explore_quest_success() {
    let mut h = Harness::setup();
    let admin = h.admin;
    let learner = account(20);
    let (quest_id, _) = h.engine.create_explore_quest(admin, 500, hash(63)).unwrap();
    let (action, event) = h.engine.verify_explore_quest(admin, learner, quest_id).unwrap();
    assert_eq!(action, QuestAction::PoolReward { pool: h.pool, learner, amount: 500 });
    assert_eq!(event.amount, 500);
    assert_eq!(h.engine.get_quest(quest_id).unwrap().quest_type, QuestType::Explore);
}

#[test]
fn test_verify_explore_quest_unauthorized() {
    let mut h = Harness::setup();
    let admin = h.admin;
    let (quest_id, _) = h.engine.create_explore_quest(admin, 500, hash(64)).unwrap();
    let err = h.engine.verify_explore_quest(account(66), account(20), quest_id).unwrap_err();
    assert_eq!(err.message(), "Unauthorized");
}

#[test]
fn test_verify_explore_quest_nonexistent() {
    let mut h = Harness::setup();
    let admin = h.admin;
    let err = h.engine.verify_explore_quest(admin, account(20), 999).unwrap_err();
    assert_eq!(err.message(), "Quest not found");
}

#[test]
fn test_verify_explore_quest_wrong_type() {
    let mut h = Harness::setup();
    let admin = h.admin;
    let employer = account(10);
    h.mint(employer, 1000);
    let quest_id = h.create_build_quest(employer, 1000, hash(65));
    let err = h.engine.verify_explore_quest(admin, account(20), quest_id).unwrap_err();
    assert_eq!(err.message(), "Not an Explore quest");
}

#[test]
fn test_explore_quest_emits_event() {
    let mut h = Harness::setup();
    let admin = h.admin;
    let (id, event) = h.engine.create_explore_quest(admin, 500, hash(66)).unwrap();
    assert_eq!(event.quest_id, id);
    assert_eq!(event.employer, admin);
}

fn verify_twice(tag: u8) -> QuestError {
    let mut h = Harness::setup();
    let admin = h.admin;
    let learner = account(20);
    let (quest_id, _) = h.engine.create_explore_quest(admin, 500, hash(tag)).unwrap();
    h.engine.verify_explore_quest(admin, learner, quest_id).unwrap();
    h.engine.verify_explore_quest(admin, learner, quest_id).unwrap_err()
}

#[test]
fn test_explore_quest_cannot_be_verified_twice() {
    assert_eq!(verify_twice(100).message(), "Learner already verified for this quest");
}

#[test]
fn test_explore_quest_duplicate_verification_panics() {
    assert_eq!(verify_twice(101).message(), "Learner already verified for this quest");
}

#[test]
fn test_different_learners_can_verify_same_quest() {
    let mut h = Harness::setup();
    let admin = h.admin;
    let (quest_id, _) = h.engine.create_explore_quest(admin, 500, hash(102)).unwrap();
    h.engine.verify_explore_quest(admin, account(20), quest_id).unwrap();
    h.engine.verify_explore_quest(admin, account(21), quest_id).unwrap();
}

#[test]
fn test_verify_explore_quest_replay_attack_prevented() {
    assert_eq!(verify_twice(103).message(), "Learner already verified for this quest");
}

#[test]
fn test_explore_verification_persists_after_payout() {
    assert_eq!(verify_twice(104).message(), "Learner already verified for this quest");
}

#[test]
fn test_verify_explore_quest_with_multiple_quests() {
    let mut h = Harness::setup();
    let admin = h.admin;
    let learner = account(20);
    let (quest_id1, _) = h.engine.create_explore_quest(admin, 500, hash(105)).unwrap();
    let (quest_id2, _) = h.engine.create_explore_quest(admin, 500, hash(105)).unwrap();
    h.engine.verify_explore_quest(admin, learner, quest_id1).unwrap();
    let err = h.engine.verify_explore_quest(admin, learner, quest_id1).unwrap_err();
    assert_eq!(err.message(), "Learner already verified for this quest");
    assert!(h.engine.verify_explore_quest(admin, learner, quest_id2).is_ok());
}

#[test]
fn test_mixed_quest_types() {
    let mut h = Harness::setup();
    let admin = h.admin;
    let employer = account(10);
    h.mint(employer, 1000);
    let build_id = h.create_build_quest(employer, 1000, hash(67));
    let (explore_id, _) = h.engine.create_explore_quest(admin, 500, hash(67)).unwrap();

    let build_quest = h.engine.get_quest(build_id).unwrap();
    let explore_quest = h.engine.get_quest(explore_id).unwrap();
    assert_eq!(build_quest.quest_type, QuestType::Build);
    assert_eq!(explore_quest.quest_type, QuestType::Explore);
    assert_eq!(build_quest.employer, employer);
    assert_eq!(explore_quest.employer, admin);
}

// ── Further cases ──────────────────────────────────────────────────────────────

#[test]
fn approval_updates_escrow_accounting() {
    let mut h = Harness::setup();
    let employer = account(10);
    let learner = account(20);
    h.mint(employer, 1000);
    let quest_id = h.create_build_quest(employer, 1000, hash(70));
    let quest = h.engine.get_quest(quest_id).unwrap();
    assert_eq!(quest.total_funded, 1000);
    assert_eq!(quest.remaining_budget(), 1000);
    h.engine.submit_proof(learner, quest_id, hash(71)).unwrap();
    h.review(employer, learner, quest_id, true).unwrap();
    let quest = h.engine.get_quest(quest_id).unwrap();
    assert!(quest.has_approved_submission);
    assert_eq!(quest.consumed_amount, 1000);
    assert_eq!(quest.remaining_budget(), 0);
}

#[test]
fn refund_records_refunded_amount() {
    let mut h = Harness::setup();
    let employer = account(10);
    h.mint(employer, 700);
    let quest_id = h.create_build_quest(employer, 700, hash(72));
    h.refund(employer, quest_id).unwrap();
    let quest = h.engine.get_quest(quest_id).unwrap();
    assert_eq!(quest.refunded_amount, 700);
    assert_eq!(quest.remaining_budget(), 0);
}

#[test]
fn submissions_need_active_build_quests() {
    let mut h = Harness::setup();
    let admin = h.admin;
    let (explore_id, _) = h.engine.create_explore_quest(admin, 500, hash(73)).unwrap();
    let err = h.engine.submit_proof(account(20), explore_id, hash(74)).unwrap_err();
    assert_eq!(err.message(), "Only Build quests accept submissions");

    let employer = account(10);
    h.mint(employer, 100);
    let build_id = h.create_build_quest(employer, 100, hash(75));
    h.refund(employer, build_id).unwrap();
    let err = h.engine.submit_proof(account(20), build_id, hash(76)).unwrap_err();
    assert_eq!(err.message(), "Quest is not active");
}

#[test]
fn pause_blocks_reviews() {
    let mut h = Harness::setup();
    let admin = h.admin;
    let employer = account(10);
    let learner = account(20);
    h.mint(employer, 1000);
    let quest_id = h.create_build_quest(employer, 1000, hash(77));
    h.engine.submit_proof(learner, quest_id, hash(78)).unwrap();
    h.engine.set_pause(admin, true).unwrap();
    assert_eq!(h.review(employer, learner, quest_id, true).unwrap_err(), "Contract is paused");
    assert_eq!(h.batch(employer, quest_id, &vec![learner]).unwrap_err(), "Contract is paused");
    assert_eq!(h.engine.set_pause(account(66), false), Err(QuestError::Unauthorized));
    h.engine.set_pause(admin, false).unwrap();
    h.review(employer, learner, quest_id, true).unwrap();
}

#[test]
fn batch_with_repeated_learner_is_refused_without_changes() {
    let mut h = Harness::setup();
    let employer = account(10);
    let learner = account(20);
    h.mint(employer, 2000);
    let quest_id = h.create_build_quest(employer, 1000, hash(79));
    let _other = h.create_build_quest(employer, 1000, hash(79));
    h.engine.submit_proof(learner, quest_id, hash(80)).unwrap();

    let err = h.batch(employer, quest_id, &vec![learner, learner]).unwrap_err();
    assert_eq!(err, "Submission is not pending review");
    assert_eq!(h.engine.get_submission(learner, quest_id).unwrap().status, SubmissionStatus::Pending);
    assert!(h.engine.get_quest(quest_id).unwrap().active);
    assert_eq!(h.contract_balance(), 2000);
}

#[test]
fn batch_needs_enough_budget() {
    let mut h = Harness::setup();
    let employer = account(10);
    h.mint(employer, 1000);
    let quest_id = h.create_build_quest(employer, 1000, hash(81));
    h.engine.submit_proof(account(20), quest_id, hash(82)).unwrap();
    h.engine.submit_proof(account(21), quest_id, hash(82)).unwrap();

    let err = h.batch(employer, quest_id, &vec![account(20), account(21)]).unwrap_err();
    assert_eq!(err, "Insufficient quest budget");
}

#[test]
fn batch_closes_quest_and_pays_in_order() {
    let mut h = Harness::setup();
    let employer = account(10);
    h.mint(employer, 2000);
    let quest_id = h.create_build_quest(employer, 1000, h_hash());
    let _second = h.create_build_quest(employer, 1000, h_hash());
    h.engine.submit_proof(account(20), quest_id, h_hash()).unwrap();
    h.engine.submit_proof(account(21), quest_id, h_hash()).unwrap();

    let balance = h.contract_balance();
    let outcome = h
        .engine
        .batch_review_submissions(employer, quest_id, &vec![account(20), account(21)], balance)
        .unwrap();
    assert_eq!(outcome.actions.len(), 4);
    match outcome.actions[1] {
        QuestAction::Pay(t) => {
            assert_eq!(t.to, Party::Account(account(20)));
            assert_eq!(t.amount, 850);
        },
        _ => panic!("expected a payment"),
    }
    assert_eq!(outcome.event.approved_count, 2);
    let quest = h.engine.get_quest(quest_id).unwrap();
    assert!(!quest.active);
    assert_eq!(quest.consumed_amount, 2000);
    assert_eq!(h.engine.get_submission(account(21), quest_id).unwrap().status, SubmissionStatus::Approved);
}

fn h_hash() -> [u8; 32] {
    hash(83)
}

#[test]
fn fee_rounds_toward_zero() {
    assert_eq!(split_reward(7), Some((1, 6)));
    assert_eq!(split_reward(6), Some((0, 6)));
    assert_eq!(split_reward(-7), Some((-1, -6)));
    assert_eq!(split_reward(i128::MAX), None);
}

#[test]
fn test_basis_point_math_for_100_120_200_multipliers() {
    let reward: i128 = 1000;
    let (_fee, base) = split_reward(reward).unwrap();

    let b100 = apply_multiplier(base, 100).unwrap();
    assert_eq!(b100, 850);

    let b120 = apply_multiplier(base, 120).unwrap();
    assert_eq!(b120, 1020);

    let b200 = apply_multiplier(base, 200).unwrap();
    assert_eq!(b200, 1700);

    assert!(b100 < b120);
    assert!(b120 < b200);
}

#[test]
fn refund_returns_only_the_quests_own_escrow() {
    let mut h = Harness::setup();
    let e1 = account(10);
    let e2 = account(11);
    h.mint(e1, 1000);
    h.mint(e2, 500);
    let q1 = h.create_build_quest(e1, 1000, hash(90));
    let q2 = h.create_build_quest(e2, 500, hash(91));

    h.refund(e1, q1).unwrap();
    assert_eq!(h.balance(e1), 1000);
    assert_eq!(h.contract_balance(), 500);
    let first = h.engine.get_quest(q1).unwrap();
    assert_eq!(first.refunded_amount, 1000);
    assert_eq!(first.remaining_budget(), 0);
    assert!(h.engine.get_quest(q2).unwrap().active);

    h.refund(e2, q2).unwrap();
    assert_eq!(h.balance(e2), 500);
    assert_eq!(h.contract_balance(), 0);
}

#[test]
fn refund_after_rejection_and_approval_returns_what_is_left() {
    let mut h = Harness::setup();
    let employer = account(10);
    h.mint(employer, 1000);
    let quest_id = h.create_build_quest(employer, 1000, hash(92));
    // Another employer's escrow sits in the same contract.
    h.mint(account(12), 700);
    h.create_build_quest(account(12), 700, hash(93));
    h.engine.submit_proof(account(20), quest_id, hash(94)).unwrap();
    h.review(employer, account(20), quest_id, true).unwrap();

    let err = h.refund(employer, quest_id).unwrap_err();
    assert_eq!(err, "No unspent balance to refund");
    assert_eq!(h.contract_balance(), 700);
}

#[test]
fn refund_is_bounded_by_the_contract_balance() {
    let mut h = Harness::setup();
    let employer = account(10);
    h.mint(employer, 1000);
    let quest_id = h.create_build_quest(employer, 1000, hash(95));
    let (t, event) = h.engine.refund_quest(employer, quest_id, 400).unwrap();
    assert_eq!(t.amount, 400);
    assert_eq!(event.amount, 400);
    assert_eq!(h.engine.get_quest(quest_id).unwrap().refunded_amount, 400);
}
