use blobspam::config::{Config, ConfigError};
use blobspam::engine::{Engine, Phase};
use blobspam::funding::{all_confirmed, funding_intents, funding_share, FundingRun};
use blobspam::sched::{attempt_intent, pick_endpoint, AttemptOutcome, Batch, TickTimer};
use blobspam::tx::{funding_intent, payload_content, spam_intent, Party, GWEI};

#[test]
fn config_rejects_max_below_min() {
    assert_eq!(Config::validate(5, 2), Err(ConfigError::InconsistentRange));
}

#[test]
fn config_rejects_zero_max() {
    assert_eq!(Config::validate(0, 0), Err(ConfigError::InconsistentRange));
}

#[test]
fn config_accepts_valid_bounds() {
    let c = Config::validate(2, 5).unwrap();
    assert_eq!(c.min, 2);
    assert_eq!(c.max, 5);
    assert_eq!(Config::validate(3, 3), Ok(Config { min: 3, max: 3 }));
    assert_eq!(Config::validate(0, 1), Ok(Config { min: 0, max: 1 }));
}

#[test]
fn funding_share_exact() {
    assert_eq!(funding_share(1000, 4), 200);
    // The floor-division remainder is reserved, never distributed.
    assert_eq!(funding_share(1003, 4), 200);
    assert_eq!(funding_share(10, 0), 10);
    assert_eq!(funding_share(u128::MAX, 255), u128::MAX / 256);
    assert_eq!(funding_share(3, 7), 0);
}

#[test]
fn funding_intents_even_split_and_nonces() {
    let v = funding_intents(1000, 7, 4, 99);
    assert_eq!(v.len(), 4);
    for (i, t) in v.iter().enumerate() {
        assert_eq!(t.sender, Party::Funder);
        assert_eq!(t.recipient, Party::Ephemeral(i as u8));
        assert_eq!(t.value, 200);
        assert_eq!(t.nonce, 7 + i as u64);
        assert_eq!(t.chain_id, 99);
        assert_eq!(t.gas_limit, 21_000);
        assert_eq!(t.max_fee_per_gas, 10 * GWEI);
        assert_eq!(t.max_priority_fee_per_gas, GWEI);
        assert_eq!(t.max_fee_per_blob_gas, None);
        assert!(!t.carries_payload);
    }
}

#[test]
fn funding_run_counter_advances() {
    let mut run = FundingRun::new(1000, 7, 4, 99);
    let v = run.issue_all();
    assert_eq!(v.len(), 4);
    assert_eq!(run.issued, 4);
    assert_eq!(run.next_nonce, 11);
}

#[test]
fn funding_transfers_pipeline_sequentially() {
    let mut run = FundingRun::new(100, 3, 2, 1);
    let a = run.next_transfer().unwrap();
    let b = run.next_transfer().unwrap();
    assert_eq!(a.nonce, 3);
    assert_eq!(b.nonce, 4);
    assert_eq!(a.value, 33);
    assert_eq!(b.value, 33);
    assert!(run.next_transfer().is_none());
    assert_eq!(run.next_nonce, 5);
}

#[test]
fn funding_failure_blocks_spam() {
    assert!(!all_confirmed(&vec![true, false, true]));
    let cfg = Config::validate(1, 2).unwrap();
    let mut engine = Engine::new(cfg);
    assert_eq!(engine.phase, Phase::AwaitingFunding);
    engine.on_funding_result(all_confirmed(&vec![true, false, true]));
    assert_eq!(engine.phase, Phase::Aborted);
}

#[test]
fn funding_success_starts_spam() {
    assert!(all_confirmed(&vec![true, true, true]));
    assert!(all_confirmed(&Vec::new()));
    let cfg = Config::validate(1, 2).unwrap();
    let mut engine = Engine::new(cfg);
    engine.on_funding_result(true);
    assert_eq!(engine.phase, Phase::Running);
}

#[test]
fn tick_count_within_bounds() {
    let cfg = Config::validate(2, 5).unwrap();
    let mut engine = Engine::new(cfg);
    engine.on_funding_result(true);
    let mut seen = [false; 6];
    for _ in 0..400 {
        let b = engine.begin_tick();
        assert!(b.count >= 2 && b.count <= 5);
        seen[b.count as usize] = true;
    }
    // Repeated sampling covers the whole configured range.
    assert!(seen[2] && seen[3] && seen[4] && seen[5]);
}

#[test]
fn tick_count_fixed_when_min_equals_max() {
    let cfg = Config::validate(3, 3).unwrap();
    let mut engine = Engine::new(cfg);
    engine.on_funding_result(true);
    for _ in 0..10 {
        assert_eq!(engine.begin_tick().count, 3);
    }
}

#[test]
fn batch_addresses_prefix_in_order() {
    let mut b = Batch::new(4);
    let outcomes = [
        AttemptOutcome::Sent,
        AttemptOutcome::NonceFetchFailed,
        AttemptOutcome::SubmitFailed,
        AttemptOutcome::Sent,
    ];
    let mut addressed = Vec::new();
    while let Some(idx) = b.current_target() {
        addressed.push(idx);
        b.complete_attempt(outcomes[idx as usize]);
    }
    assert_eq!(addressed, vec![0, 1, 2, 3]);
    assert!(b.finished());
}

#[test]
fn attempt_failure_isolated() {
    let mut clean = Batch::new(3);
    let mut faulty = Batch::new(3);
    clean.complete_attempt(AttemptOutcome::Sent);
    clean.complete_attempt(AttemptOutcome::Sent);
    faulty.complete_attempt(AttemptOutcome::NonceFetchFailed);
    faulty.complete_attempt(AttemptOutcome::SubmitFailed);
    assert_eq!(clean, faulty);
    assert_eq!(faulty.current_target(), Some(2));
}

#[test]
fn missed_ticks_coalesce() {
    let mut t = TickTimer::new(0, 12);
    assert!(t.poll(0));
    assert!(!t.poll(5));
    assert!(!t.poll(11));
    assert!(t.poll(12));
    // The work overruns well past the deadline at 24: the poll at 40 is more
    // than one full period late, yet exactly one further tick fires, and the
    // next is due a whole period after it.
    assert!(t.poll(40));
    for now in 41..52 {
        assert!(!t.poll(now));
    }
    assert!(t.poll(52));
}

#[test]
fn timer_remaining_until_due() {
    let mut t = TickTimer::new(0, 12);
    assert_eq!(t.remaining(0), 0);
    assert!(t.poll(0));
    assert_eq!(t.remaining(4), 8);
    assert_eq!(t.remaining(12), 0);
    assert_eq!(t.remaining(30), 0);
}

#[test]
fn spam_intent_is_self_transfer_with_payload() {
    let t = spam_intent(7, 31, 42);
    assert_eq!(t.sender, Party::Ephemeral(7));
    assert_eq!(t.recipient, Party::Ephemeral(7));
    assert_eq!(t.value, 0);
    assert_eq!(t.nonce, 31);
    assert_eq!(t.chain_id, 42);
    assert_eq!(t.gas_limit, 21_000);
    assert_eq!(t.max_fee_per_gas, 10 * GWEI);
    assert_eq!(t.max_priority_fee_per_gas, GWEI);
    assert_eq!(t.max_fee_per_blob_gas, Some(10 * GWEI));
    assert!(t.carries_payload);
}

#[test]
fn funding_intent_fields_exact() {
    let t = funding_intent(3, 12, 500, 1);
    assert_eq!(t.sender, Party::Funder);
    assert_eq!(t.recipient, Party::Ephemeral(3));
    assert_eq!(t.value, 500);
    assert_eq!(t.nonce, 12);
    assert_eq!(t.max_fee_per_blob_gas, None);
    assert!(!t.carries_payload);
}

#[test]
fn payload_content_is_fixed() {
    assert_eq!(payload_content(), b"spam".to_vec());
}

#[test]
fn endpoint_pick_in_range() {
    assert_eq!(pick_endpoint(1), 0);
    let mut seen = [false; 3];
    for _ in 0..300 {
        let i = pick_endpoint(3);
        assert!(i < 3);
        seen[i] = true;
    }
    assert!(seen[0] && seen[1] && seen[2]);
}

#[test]
fn attempt_intent_uses_fetched_counter() {
    let t = attempt_intent(2, Some(31), 7).unwrap();
    assert_eq!(t.sender, Party::Ephemeral(2));
    assert_eq!(t.nonce, 31);
    assert_eq!(t.value, 0);
    assert!(attempt_intent(2, None, 7).is_none());
}
