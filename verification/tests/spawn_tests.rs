use prediction_markets::base::{InstanceId, MICROS_PER_SECOND};
use prediction_markets::spawn_handler::{
    matches_trigger_condition, process_template, seed_liquidity, Message, Operation,
    SpawnHandlerError, SpawnHandlerStateData, SpawnTemplate, TriggerCondition,
    DEFAULT_STAKE_BASELINE,
};

fn s(x: &str) -> String {
    x.to_string()
}

fn template(ratio_bps: u64) -> SpawnTemplate {
    SpawnTemplate {
        question_template: s("What follows {outcome} of {parent_market_id}?"),
        outcomes: vec![s("Up"), s("Down")],
        expiry_offset_seconds: 3600,
        seed_liquidity_ratio_bps: ratio_bps,
    }
}

fn market_resolution(market_pattern: &str, outcome_pattern: &str) -> TriggerCondition {
    TriggerCondition::MarketResolution {
        market_pattern: s(market_pattern),
        outcome_pattern: s(outcome_pattern),
    }
}

#[test]
fn matching_is_case_insensitive_substring() {
    let c = market_resolution("election", "");
    assert!(matches_trigger_condition(&c, "Who wins the ELECTION?", "Yes"));
    assert!(matches_trigger_condition(&c, "midterm election results", "anything"));
    assert!(!matches_trigger_condition(&c, "Who wins the match?", "Yes"));
}

#[test]
fn matching_checks_both_patterns() {
    let c = market_resolution("election", "yes");
    assert!(matches_trigger_condition(&c, "The Election", "YES"));
    assert!(!matches_trigger_condition(&c, "The Election", "No"));
}

#[test]
fn empty_patterns_match_everything() {
    let c = market_resolution("", "");
    assert!(matches_trigger_condition(&c, "", ""));
    assert!(matches_trigger_condition(&c, "anything", "at all"));
}

#[test]
fn time_delay_always_matches_and_custom_logic_never() {
    let td = TriggerCondition::TimeDelay { delay_seconds: 3600 };
    assert!(matches_trigger_condition(&td, "whatever", "whatever"));
    let cl = TriggerCondition::CustomLogic { logic_hash: s("abc123") };
    assert!(!matches_trigger_condition(&cl, "whatever", "whatever"));
}

#[test]
fn template_fill_substitutes_in_order() {
    let q = process_template(
        "After {parent_market_id}: impact of {outcome} on {parent_question}",
        "market_3",
        "Yes",
    );
    assert_eq!(q, "After market_3: impact of Yes on the previous event");
}

#[test]
fn template_fill_replaces_every_occurrence() {
    let q = process_template("{outcome}, {outcome} and {outcome}", "m", "A");
    assert_eq!(q, "A, A and A");
}

#[test]
fn seed_liquidity_is_floor_of_ratio() {
    assert_eq!(seed_liquidity(150, 1000), 15);
    assert_eq!(seed_liquidity(999, 500), 49);
    assert_eq!(seed_liquidity(0, 10_000), 0);
    assert_eq!(seed_liquidity(u64::MAX, 10_000), u64::MAX);
    assert_eq!(seed_liquidity(7, 0), 0);
}

#[test]
fn create_rule_upserts_and_rejects_bad_ratio() {
    let mut h = SpawnHandlerStateData::new();
    assert!(h
        .try_create_spawn_rule(s("r1"), market_resolution("a", ""), template(1000), InstanceId(1))
        .is_ok());
    assert_eq!(h.spawn_rules.len(), 1);
    assert!(h.spawn_rules[0].active);
    assert_eq!(h.spawn_rules[0].created_by, InstanceId(1));
    // Last write wins, in place.
    assert!(h
        .try_create_spawn_rule(s("r1"), market_resolution("b", ""), template(2000), InstanceId(2))
        .is_ok());
    assert_eq!(h.spawn_rules.len(), 1);
    assert_eq!(h.spawn_rules[0].spawn_template.seed_liquidity_ratio_bps, 2000);
    assert_eq!(h.spawn_rules[0].created_by, InstanceId(2));
    let r = h.try_create_spawn_rule(s("r2"), market_resolution("c", ""), template(10_001), InstanceId(1));
    assert_eq!(r, Err(SpawnHandlerError::InvalidTemplate));
    assert_eq!(h.spawn_rules.len(), 1);
}

#[test]
fn update_rule_checks_existence_and_authorization() {
    let mut h = SpawnHandlerStateData::new();
    assert!(h.try_initialize(InstanceId(100), InstanceId(50)).is_ok());
    assert!(h
        .try_create_spawn_rule(s("r1"), market_resolution("a", ""), template(1000), InstanceId(1))
        .is_ok());
    let r = h.try_update_spawn_rule(s("missing"), false, InstanceId(1));
    assert_eq!(r, Err(SpawnHandlerError::RuleNotFound));
    let r = h.try_update_spawn_rule(s("r1"), false, InstanceId(2));
    assert_eq!(r, Err(SpawnHandlerError::Unauthorized));
    // The creator may flip the flag.
    assert!(h.try_update_spawn_rule(s("r1"), false, InstanceId(1)).is_ok());
    assert!(!h.spawn_rules.iter().find(|r| r.rule_id == "r1").unwrap().active);
    // So may the admin.
    assert!(h.try_update_spawn_rule(s("r1"), true, InstanceId(100)).is_ok());
    assert!(h.spawn_rules.iter().find(|r| r.rule_id == "r1").unwrap().active);
}

#[test]
fn initialize_installs_default_rules_once() {
    let mut h = SpawnHandlerStateData::new();
    assert!(h.try_initialize(InstanceId(100), InstanceId(50)).is_ok());
    assert_eq!(h.admin, Some(InstanceId(100)));
    assert_eq!(h.spawn_rules.len(), 2);
    assert_eq!(h.spawn_rules[0].rule_id, "political_consequences");
    assert_eq!(h.spawn_rules[1].rule_id, "sports_aftermath");
    assert_eq!(h.spawn_rules[0].spawn_template.seed_liquidity_ratio_bps, 1000);
    assert_eq!(h.spawn_rules[1].spawn_template.seed_liquidity_ratio_bps, 500);
    assert_eq!(h.spawn_rules[0].spawn_template.expiry_offset_seconds, 30 * 24 * 3600);
    assert_eq!(h.spawn_rules[1].spawn_template.expiry_offset_seconds, 90 * 24 * 3600);
    let r = h.try_initialize(InstanceId(101), InstanceId(50));
    assert_eq!(r, Err(SpawnHandlerError::AlreadyInitialized));
    assert_eq!(h.admin, Some(InstanceId(100)));
    assert_eq!(h.spawn_rules.len(), 2);
}

#[test]
fn matching_rule_enqueues_pending_spawn() {
    let mut h = SpawnHandlerStateData::new();
    assert!(h.try_initialize(InstanceId(100), InstanceId(50)).is_ok());
    let now = 7_000;
    let requests =
        h.handle_market_resolved(s("m1"), s("Presidential election 2040"), s("Candidate A"), 1000, now);
    // MarketResolution triggers enqueue but never the immediate path.
    assert!(requests.is_empty());
    assert_eq!(h.pending_spawns.len(), 1);
    let p = &h.pending_spawns[0];
    assert_eq!(p.spawn_id, "political_consequences_7000");
    assert_eq!(p.parent_market_id, "m1");
    assert_eq!(p.parent_outcome, "Candidate A");
    assert_eq!(p.scheduled_time, now);
    assert!(!p.processed);
}

#[test]
fn non_matching_resolution_enqueues_nothing() {
    let mut h = SpawnHandlerStateData::new();
    assert!(h.try_initialize(InstanceId(100), InstanceId(50)).is_ok());
    let requests = h.handle_market_resolved(s("m1"), s("Will it rain?"), s("Yes"), 1000, 5);
    assert!(requests.is_empty());
    assert!(h.pending_spawns.is_empty());
}

#[test]
fn inactive_rule_is_not_evaluated() {
    let mut h = SpawnHandlerStateData::new();
    assert!(h
        .try_create_spawn_rule(s("r1"), TriggerCondition::TimeDelay { delay_seconds: 0 }, template(1000), InstanceId(1))
        .is_ok());
    assert!(h.try_update_spawn_rule(s("r1"), false, InstanceId(1)).is_ok());
    let requests = h.handle_market_resolved(s("m1"), s("q"), s("Yes"), 150, 5);
    assert!(requests.is_empty());
    assert!(h.pending_spawns.is_empty());
}

#[test]
fn zero_delay_rule_emits_exactly_one_immediate_request() {
    let mut h = SpawnHandlerStateData::new();
    assert!(h
        .try_create_spawn_rule(
            s("political_style"),
            TriggerCondition::TimeDelay { delay_seconds: 0 },
            SpawnTemplate {
                question_template: s("What will be the economic impact of {outcome}?"),
                outcomes: vec![s("Up"), s("Down")],
                expiry_offset_seconds: 3600,
                seed_liquidity_ratio_bps: 1000,
            },
            InstanceId(1),
        )
        .is_ok());
    let now = 50 * MICROS_PER_SECOND;
    let requests = h.handle_market_resolved(s("m1"), s("Who wins?"), s("Yes"), 150, now);
    assert_eq!(requests.len(), 1);
    match &requests[0] {
        Message::SpawnMarket { parent_market_id, question, outcomes, expiry_time, seed_liquidity } => {
            assert_eq!(parent_market_id, "m1");
            assert_eq!(question, "What will be the economic impact of Yes?");
            assert_eq!(outcomes, &vec![s("Up"), s("Down")]);
            assert_eq!(*expiry_time, now + 3600 * MICROS_PER_SECOND);
            assert_eq!(*seed_liquidity, 15, "floor(150 * 0.10)");
        },
        other => panic!("expected a creation request, got {:?}", other),
    }
    // The queue entry exists as well.
    assert_eq!(h.pending_spawns.len(), 1);
}

#[test]
fn nonzero_delay_rule_is_deferred_to_the_sweep() {
    let mut h = SpawnHandlerStateData::new();
    assert!(h
        .try_create_spawn_rule(
            s("r1"),
            TriggerCondition::TimeDelay { delay_seconds: 60 },
            template(1000),
            InstanceId(1),
        )
        .is_ok());
    let now = 9_000;
    let requests = h.handle_market_resolved(s("m1"), s("q"), s("Yes"), 150, now);
    assert!(requests.is_empty());
    assert_eq!(h.pending_spawns.len(), 1);
    assert_eq!(h.pending_spawns[0].scheduled_time, now);
}

#[test]
fn sweep_promotes_due_spawns_with_default_baseline() {
    let mut h = SpawnHandlerStateData::new();
    assert!(h
        .try_create_spawn_rule(
            s("r1"),
            TriggerCondition::TimeDelay { delay_seconds: 60 },
            SpawnTemplate {
                question_template: s("Impact of {outcome} on {parent_market_id}?"),
                outcomes: vec![s("Up"), s("Down")],
                expiry_offset_seconds: 120,
                seed_liquidity_ratio_bps: 1000,
            },
            InstanceId(1),
        )
        .is_ok());
    let t0 = 9_000;
    h.handle_market_resolved(s("m1"), s("q"), s("Yes"), 150, t0);
    let t1 = t0 + 5;
    let requests = h.process_pending_spawns(t1);
    assert_eq!(requests.len(), 1);
    match &requests[0] {
        Message::SpawnMarket { parent_market_id, question, outcomes, expiry_time, seed_liquidity } => {
            assert_eq!(parent_market_id, "m1");
            assert_eq!(question, "Impact of Yes on m1?");
            assert_eq!(outcomes, &vec![s("Up"), s("Down")]);
            assert_eq!(*expiry_time, t1 + 120 * MICROS_PER_SECOND);
            // The deferred path seeds from the fixed baseline, not the
            // (unretained) parent stake.
            assert_eq!(*seed_liquidity, DEFAULT_STAKE_BASELINE / 10);
        },
        other => panic!("expected a creation request, got {:?}", other),
    }
    assert!(h.pending_spawns[0].processed);
}

#[test]
fn sweep_twice_emits_nothing_new() {
    let mut h = SpawnHandlerStateData::new();
    assert!(h
        .try_create_spawn_rule(
            s("r1"),
            TriggerCondition::TimeDelay { delay_seconds: 60 },
            template(1000),
            InstanceId(1),
        )
        .is_ok());
    h.handle_market_resolved(s("m1"), s("q"), s("Yes"), 150, 9_000);
    let first = h.process_pending_spawns(9_005);
    assert_eq!(first.len(), 1);
    let second = h.process_pending_spawns(9_005);
    assert!(second.is_empty(), "no newly-due entries: the second sweep is a no-op");
    let third = h.process_pending_spawns(10_000);
    assert!(third.is_empty());
    // The processed entry is kept as an audit trail, not deleted.
    assert_eq!(h.pending_spawns.len(), 1);
    assert!(h.pending_spawns[0].processed);
}

#[test]
fn sweep_skips_not_yet_due_spawns() {
    let mut h = SpawnHandlerStateData::new();
    assert!(h
        .try_create_spawn_rule(
            s("r1"),
            TriggerCondition::TimeDelay { delay_seconds: 60 },
            template(1000),
            InstanceId(1),
        )
        .is_ok());
    h.handle_market_resolved(s("m1"), s("q"), s("Yes"), 150, 9_000);
    let requests = h.process_pending_spawns(8_000);
    assert!(requests.is_empty());
    assert!(!h.pending_spawns[0].processed);
    let later = h.process_pending_spawns(9_000);
    assert_eq!(later.len(), 1);
}

#[test]
fn execute_operation_dispatches_the_sweep() {
    let mut h = SpawnHandlerStateData::new();
    assert!(h
        .try_create_spawn_rule(
            s("r1"),
            TriggerCondition::TimeDelay { delay_seconds: 60 },
            template(1000),
            InstanceId(1),
        )
        .is_ok());
    h.execute_message(
        Message::MarketResolved {
            market_id: s("m1"),
            question: s("q"),
            winning_outcome: s("Yes"),
            total_stake: 150,
        },
        9_000,
    );
    assert_eq!(h.pending_spawns.len(), 1);
    let requests = h.execute_operation(Operation::ProcessPendingSpawns, InstanceId(1), 9_001);
    assert_eq!(requests.len(), 1);
}

#[test]
fn spawn_error_messages() {
    assert_eq!(SpawnHandlerError::Unauthorized.message(), "Unauthorized");
    assert_eq!(SpawnHandlerError::RuleNotFound.message(), "Rule not found");
    assert_eq!(SpawnHandlerError::InvalidTemplate.message(), "Invalid template");
    assert_eq!(SpawnHandlerError::ProcessingFailed.message(), "Processing failed");
    assert_eq!(SpawnHandlerError::AlreadyInitialized.message(), "Already initialized");
}
