use prediction_markets::base::{InstanceId, MICROS_PER_SECOND};
use prediction_markets::market::{
    MarketError, MarketStateData, OddsRatio, Operation, ResolutionNotification,
};

fn s(x: &str) -> String {
    x.to_string()
}

fn yes_no() -> Vec<String> {
    vec![s("Yes"), s("No")]
}

fn created_market() -> MarketStateData {
    let mut m = MarketStateData::new();
    let expiry = 1_000 + 3600 * MICROS_PER_SECOND;
    let r = m.try_create_market(s("m1"), s("Who wins?"), yes_no(), expiry, InstanceId(1));
    assert!(r.is_ok());
    m
}

fn staked_sum(m: &MarketStateData) -> u128 {
    let mut total: u128 = 0;
    for row in &m.bets {
        for bet in row {
            total += bet.amount as u128;
        }
    }
    total
}

#[test]
fn create_sets_all_fields() {
    let m = created_market();
    assert_eq!(m.market_id, "m1");
    assert_eq!(m.question, "Who wins?");
    assert_eq!(m.outcomes, vec![s("Yes"), s("No")]);
    assert_eq!(m.bets.len(), 2);
    assert!(m.bets.iter().all(|row| row.is_empty()));
    assert_eq!(m.total_staked, 0);
    assert!(!m.resolved);
    assert_eq!(m.winning_outcome, None);
    assert_eq!(m.creator, Some(InstanceId(1)));
}

#[test]
fn create_twice_is_rejected() {
    let mut m = created_market();
    let r = m.try_create_market(s("m2"), s("q"), yes_no(), 5, InstanceId(2));
    assert_eq!(r, Err(MarketError::MarketAlreadyExists));
    assert_eq!(m.market_id, "m1");
}

#[test]
fn create_with_one_outcome_is_rejected() {
    let mut m = MarketStateData::new();
    let r = m.try_create_market(s("m1"), s("q"), vec![s("Yes")], 5, InstanceId(1));
    assert_eq!(r, Err(MarketError::InvalidParameters));
    assert!(m.market_id.is_empty());
}

#[test]
fn create_with_repeated_outcomes_is_rejected() {
    let mut m = MarketStateData::new();
    let r = m.try_create_market(s("m1"), s("q"), vec![s("Yes"), s("Yes")], 5, InstanceId(1));
    assert_eq!(r, Err(MarketError::InvalidParameters));
}

#[test]
fn total_staked_is_sum_of_recorded_bets() {
    let mut m = created_market();
    assert!(m.try_place_bet(s("Yes"), 100, InstanceId(2), 10).is_ok());
    assert!(m.try_place_bet(s("No"), 50, InstanceId(3), 11).is_ok());
    assert!(m.try_place_bet(s("Yes"), 25, InstanceId(4), 12).is_ok());
    assert_eq!(m.total_staked, 175);
    assert_eq!(staked_sum(&m), 175);
    assert_eq!(m.bets[0].len(), 2);
    assert_eq!(m.bets[1].len(), 1);
    assert_eq!(m.bets[0][0].bettor, InstanceId(2));
    assert_eq!(m.bets[0][0].amount, 100);
    assert_eq!(m.bets[0][0].timestamp, 10);
}

#[test]
fn total_staked_saturates_instead_of_overflowing() {
    let mut m = created_market();
    assert!(m.try_place_bet(s("Yes"), u64::MAX, InstanceId(2), 10).is_ok());
    assert!(m.try_place_bet(s("No"), 7, InstanceId(3), 11).is_ok());
    assert_eq!(m.total_staked, u64::MAX);
    assert_eq!(staked_sum(&m), u64::MAX as u128 + 7);
}

#[test]
fn bet_on_resolved_market_is_noop() {
    let mut m = created_market();
    assert!(m.try_place_bet(s("Yes"), 10, InstanceId(2), 10).is_ok());
    assert!(m.try_resolve_market(s("Yes"), InstanceId(1)).is_ok());
    let before = m.bets.clone();
    let r = m.try_place_bet(s("Yes"), 10, InstanceId(2), 10);
    assert_eq!(r, Err(MarketError::MarketAlreadyResolved));
    assert_eq!(m.total_staked, 10);
    assert_eq!(m.bets[0].len(), before[0].len());
}

#[test]
fn bet_after_expiry_is_noop() {
    let mut m = created_market();
    let late = 2_000 + 3600 * MICROS_PER_SECOND;
    let r = m.try_place_bet(s("Yes"), 10, InstanceId(2), late);
    assert_eq!(r, Err(MarketError::MarketExpired));
    assert_eq!(m.total_staked, 0);
    assert!(m.bets.iter().all(|row| row.is_empty()));
}

#[test]
fn bet_on_unknown_outcome_is_noop() {
    let mut m = created_market();
    let r = m.try_place_bet(s("Maybe"), 10, InstanceId(2), 10);
    assert_eq!(r, Err(MarketError::InvalidOutcome));
    assert_eq!(m.total_staked, 0);
    assert!(m.bets.iter().all(|row| row.is_empty()));
}

#[test]
fn bet_exactly_at_expiry_is_accepted() {
    let mut m = created_market();
    let expiry = 1_000 + 3600 * MICROS_PER_SECOND;
    assert!(m.try_place_bet(s("Yes"), 10, InstanceId(2), expiry).is_ok());
    assert_eq!(m.total_staked, 10);
}

#[test]
fn resolve_emits_notification_once() {
    let mut m = created_market();
    assert!(m.try_place_bet(s("Yes"), 100, InstanceId(2), 10).is_ok());
    let n: ResolutionNotification = m.try_resolve_market(s("Yes"), InstanceId(1)).unwrap();
    assert_eq!(n.market_id, "m1");
    assert_eq!(n.question, "Who wins?");
    assert_eq!(n.winning_outcome, "Yes");
    assert_eq!(n.total_staked, 100);
    assert!(m.resolved);
    assert_eq!(m.winning_outcome, Some(s("Yes")));
}

#[test]
fn resolve_twice_is_noop_and_keeps_winner() {
    let mut m = created_market();
    assert!(m.try_resolve_market(s("Yes"), InstanceId(1)).is_ok());
    let r = m.try_resolve_market(s("No"), InstanceId(1));
    assert!(matches!(r, Err(MarketError::MarketAlreadyResolved)));
    assert_eq!(m.winning_outcome, Some(s("Yes")));
    assert!(m.resolved);
}

#[test]
fn resolve_by_non_creator_is_noop() {
    let mut m = created_market();
    let r = m.try_resolve_market(s("Yes"), InstanceId(99));
    assert!(matches!(r, Err(MarketError::Unauthorized)));
    assert!(!m.resolved);
    assert_eq!(m.winning_outcome, None);
}

#[test]
fn resolve_with_unknown_outcome_is_noop() {
    let mut m = created_market();
    let r = m.try_resolve_market(s("Maybe"), InstanceId(1));
    assert!(matches!(r, Err(MarketError::InvalidOutcome)));
    assert!(!m.resolved);
}

#[test]
fn odds_scenario_yes_100_no_50() {
    let mut m = created_market();
    assert!(m.try_place_bet(s("Yes"), 100, InstanceId(2), 10).is_ok());
    assert!(m.try_place_bet(s("No"), 50, InstanceId(3), 11).is_ok());
    assert_eq!(m.total_staked, 150);
    let o = m.odds();
    assert_eq!(o.len(), 2);
    assert_eq!(o[0], OddsRatio { numerator: 150, denominator: 100 });
    assert_eq!(o[1], OddsRatio { numerator: 150, denominator: 50 });
    assert_eq!(o[0].numerator as f64 / o[0].denominator as f64, 1.5);
    assert_eq!(o[1].numerator as f64 / o[1].denominator as f64, 3.0);
}

#[test]
fn odds_zero_stake_outcome_is_exactly_zero() {
    let mut m = created_market();
    assert!(m.try_place_bet(s("Yes"), 100, InstanceId(2), 10).is_ok());
    let o = m.odds();
    assert_eq!(o[1], OddsRatio { numerator: 0, denominator: 1 });
    assert_eq!(o[1].numerator as f64 / o[1].denominator as f64, 0.0);
}

#[test]
fn odds_with_no_stake_at_all_is_one_for_every_outcome() {
    let m = created_market();
    let o = m.odds();
    assert_eq!(o, vec![
        OddsRatio { numerator: 1, denominator: 1 },
        OddsRatio { numerator: 1, denominator: 1 },
    ]);
    assert_eq!(o[0].numerator as f64 / o[0].denominator as f64, 1.0);
}

#[test]
fn market_execute_operation_is_silent_on_rejection() {
    let mut m = created_market();
    let emitted = m.execute_operation(
        Operation::PlaceBet { outcome: s("Maybe"), amount: 10 },
        InstanceId(2),
        10,
    );
    assert!(emitted.is_none());
    assert_eq!(m.total_staked, 0);
}

#[test]
fn execute_operation_emits_on_resolution_only() {
    let mut m = created_market();
    let none = m.execute_operation(
        Operation::PlaceBet { outcome: s("Yes"), amount: 30, },
        InstanceId(2),
        10,
    );
    assert!(none.is_none());
    let emitted = m.execute_operation(
        Operation::ResolveMarket { winning_outcome: s("Yes") },
        InstanceId(1),
        20,
    );
    let n = emitted.expect("resolution emits a notification");
    assert_eq!(n.total_staked, 30);
    assert_eq!(n.winning_outcome, "Yes");
}

#[test]
fn error_messages() {
    assert_eq!(MarketError::MarketAlreadyExists.message(), "Market already exists");
    assert_eq!(MarketError::MarketAlreadyResolved.message(), "Market already resolved");
    assert_eq!(MarketError::MarketExpired.message(), "Market expired");
    assert_eq!(MarketError::InvalidOutcome.message(), "Invalid outcome");
    assert_eq!(MarketError::InvalidParameters.message(), "Invalid parameters");
    assert_eq!(MarketError::Unauthorized.message(), "Unauthorized");
    assert_eq!(MarketError::MarketNotFound.message(), "Market not found");
    assert_eq!(MarketError::InsufficientFunds.message(), "Insufficient funds");
}
