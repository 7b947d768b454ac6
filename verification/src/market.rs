//! A single market instance: its question, outcome set, betting
//! ledger, stake accounting, odds, and resolution.
//!
//! Every operation is a verified transition on [`MarketStateData`].
//! Rejected operations leave the state unchanged; the strict `try_`
//! forms say exactly which error each rejected input earns, and the
//! silent [`MarketStateData::execute_operation`] form discards the
//! error, as the operation ABI does.

use crate::base::{cap_u64, Amount, InstanceId, Timestamp};
use vstd::prelude::*;

verus! {

/// One recorded stake.  Immutable once appended to the ledger.
#[derive(Clone, Copy, PartialEq, Eq, Structural, Debug)]
pub struct Bet {
    pub bettor: InstanceId,
    pub amount: Amount,
    pub timestamp: Timestamp,
}

/// Operations a market instance accepts.
#[derive(Clone, Debug)]
pub enum Operation {
    CreateMarket { market_id: String, question: String, outcomes: Vec<String>, expiry_time: Timestamp },
    PlaceBet { outcome: String, amount: Amount },
    ResolveMarket { winning_outcome: String },
}

/// The notification a market emits exactly once per successful
/// resolution, addressed to the spawn-rule engine.
#[derive(Clone, Debug)]
pub struct ResolutionNotification {
    pub market_id: String,
    pub question: String,
    pub winning_outcome: String,
    pub total_staked: Amount,
}

/// Messages a market instance can address to a sibling market.
#[derive(Clone, Debug)]
pub enum Message {
    SpawnSubMarket {
        parent_market_id: String,
        parent_outcome: String,
        new_question: String,
        new_outcomes: Vec<String>,
        seed_liquidity: Amount,
    },
}

/// Market errors, one per rejected-input condition.
#[derive(Clone, Copy, PartialEq, Eq, Structural, Debug)]
pub enum MarketError {
    MarketAlreadyExists,
    MarketNotFound,
    MarketAlreadyResolved,
    MarketExpired,
    InvalidOutcome,
    InvalidParameters,
    InsufficientFunds,
    Unauthorized,
}

impl MarketError {
    /// A human-readable description of the error.
    pub fn message(&self) -> (m: &'static str) {
        match self {
            MarketError::MarketAlreadyExists => "Market already exists",
            MarketError::MarketNotFound => "Market not found",
            MarketError::MarketAlreadyResolved => "Market already resolved",
            MarketError::MarketExpired => "Market expired",
            MarketError::InvalidOutcome => "Invalid outcome",
            MarketError::InvalidParameters => "Invalid parameters",
            MarketError::InsufficientFunds => "Insufficient funds",
            MarketError::Unauthorized => "Unauthorized",
        }
    }
}

/// Opaque acknowledgement returned by the operation ABI: an empty
/// payload, since all business-relevant output is observable only
/// through read queries.
#[derive(Clone, Debug)]
pub struct ResponseBytes(pub Vec<u8>);

/// Static configuration of a market instance (none is needed).
#[derive(Clone, Copy, Debug)]
pub struct Parameters;

/// Marker tying a market instance to its operation and response types.
#[derive(Clone, Copy, Debug)]
pub struct MarketAbi;

/// The odds reported for one outcome, as an exact ratio.
///
/// `numerator / denominator` is the odds value.  A zero numerator is
/// the sentinel for "no stake on this outcome, odds undefined"; the
/// neutral `1 / 1` is reported for every outcome of a market with no
/// stake at all.
#[derive(Clone, Copy, PartialEq, Eq, Structural, Debug)]
pub struct OddsRatio {
    pub numerator: u64,
    pub denominator: u64,
}

/// The sum of the amounts of a row of bets.
pub open spec fn bets_sum(s: Seq<Bet>) -> int
    decreases s.len(),
{
    if s.len() == 0 {
        0
    } else {
        bets_sum(s.drop_last()) + s.last().amount
    }
}

/// The sum of all bet amounts across all rows of a ledger.
pub open spec fn ledger_sum(bs: Seq<Vec<Bet>>) -> int
    decreases bs.len(),
{
    if bs.len() == 0 {
        0
    } else {
        ledger_sum(bs.drop_last()) + bets_sum(bs.last()@)
    }
}

proof fn lemma_bets_sum_nonneg(s: Seq<Bet>)
    ensures
        bets_sum(s) >= 0,
    decreases s.len(),
{
    if s.len() > 0 {
        lemma_bets_sum_nonneg(s.drop_last());
    }
}

proof fn lemma_ledger_sum_nonneg(bs: Seq<Vec<Bet>>)
    ensures
        ledger_sum(bs) >= 0,
    decreases bs.len(),
{
    if bs.len() > 0 {
        lemma_ledger_sum_nonneg(bs.drop_last());
        lemma_bets_sum_nonneg(bs.last()@);
    }
}

proof fn lemma_bets_sum_push(s: Seq<Bet>, b: Bet)
    ensures
        bets_sum(s.push(b)) == bets_sum(s) + b.amount,
{
    assert(s.push(b).drop_last() =~= s);
    assert(s.push(b).last() == b);
}

proof fn lemma_ledger_sum_update(bs: Seq<Vec<Bet>>, i: int, v: Vec<Bet>)
    requires
        0 <= i < bs.len(),
    ensures
        ledger_sum(bs.update(i, v)) == ledger_sum(bs) - bets_sum(bs[i]@) + bets_sum(v@),
    decreases bs.len(),
{
    if i == bs.len() - 1 {
        assert(bs.update(i, v).drop_last() =~= bs.drop_last());
        assert(bs.update(i, v).last() == v);
    } else {
        lemma_ledger_sum_update(bs.drop_last(), i, v);
        assert(bs.update(i, v).drop_last() =~= bs.drop_last().update(i, v));
        assert(bs.update(i, v).last() == bs.last());
        assert(bs.drop_last()[i] == bs[i]);
    }
}

proof fn lemma_ledger_sum_empty_rows(bs: Seq<Vec<Bet>>)
    requires
        forall|i: int| 0 <= i < bs.len() ==> #[trigger] bs[i]@.len() == 0,
    ensures
        ledger_sum(bs) == 0,
    decreases bs.len(),
{
    if bs.len() > 0 {
        lemma_ledger_sum_empty_rows(bs.drop_last());
    }
}

/// Whether some element of `outcomes` reads `o`.
pub open spec fn has_outcome(outcomes: Seq<String>, o: Seq<char>) -> bool {
    exists|i: int| 0 <= i < outcomes.len() && #[trigger] outcomes[i]@ == o
}

/// Whether the elements of `outcomes` are pairwise distinct.
pub open spec fn distinct_outcomes(outcomes: Seq<String>) -> bool {
    forall|p: int, q: int|
        #![trigger outcomes[p], outcomes[q]]
        0 <= p < q < outcomes.len() ==> outcomes[p]@ != outcomes[q]@
}

/// Whether the strings in `v` are pairwise distinct.
pub fn distinct_strings(v: &Vec<String>) -> (b: bool)
    ensures
        b == distinct_outcomes(v@),
{
    let mut i: usize = 0;
    while i < v.len()
        invariant
            i <= v@.len(),
            forall|p: int, q: int|
                #![trigger v@[p], v@[q]]
                0 <= p < q < v@.len() && p < i ==> v@[p]@ != v@[q]@,
        decreases v@.len() - i,
    {
        let mut j: usize = i + 1;
        while j < v.len()
            invariant
                i < v@.len(),
                i + 1 <= j <= v@.len(),
                forall|q: int| i < q < j ==> v@[i as int]@ != #[trigger] v@[q]@,
        decreases v@.len() - j,
        {
            if v[i] == v[j] {
                return false;
            }
            j += 1;
        }
        i += 1;
    }
    true
}

/// The position of `o` in `outcomes`, if it occurs.
pub fn find_outcome(outcomes: &Vec<String>, o: &String) -> (r: Option<usize>)
    ensures
        match r {
            Some(i) => i < outcomes@.len() && outcomes@[i as int]@ == o@,
            None => !has_outcome(outcomes@, o@),
        },
{
    let mut i: usize = 0;
    while i < outcomes.len()
        invariant
            i <= outcomes@.len(),
            forall|j: int| 0 <= j < i ==> #[trigger] outcomes@[j]@ != o@,
        decreases outcomes@.len() - i,
    {
        if outcomes[i] == *o {
            return Some(i);
        }
        i += 1;
    }
    None
}

/// The full state of one market instance.
///
/// `bets` is the ledger: `bets[i]` is the ordered row of stakes placed
/// on `outcomes[i]`.
#[derive(Clone, Debug)]
pub struct MarketStateData {
    pub market_id: String,
    pub question: String,
    pub outcomes: Vec<String>,
    pub bets: Vec<Vec<Bet>>,
    pub total_staked: Amount,
    pub resolved: bool,
    pub winning_outcome: Option<String>,
    pub child_markets: Vec<String>,
    pub expiry_time: Timestamp,
    pub creator: Option<InstanceId>,
}

/// Exactly when market creation succeeds, and what it does: rejected
/// (state unchanged, with the matching error) on an instance that
/// already holds a market, on fewer than two outcomes, or on repeated
/// outcomes; otherwise every field is set and the ledger starts empty.
pub open spec fn create_transition(
    pre: MarketStateData,
    post: MarketStateData,
    market_id: String,
    question: String,
    outcomes: Vec<String>,
    expiry_time: Timestamp,
    caller: InstanceId,
    r: Result<(), MarketError>,
) -> bool {
    &&& (r is Ok <==> pre.market_id@.len() == 0 && outcomes@.len() >= 2 && distinct_outcomes(
        outcomes@,
    ))
    &&& pre.market_id@.len() > 0 ==> r == Result::<(), MarketError>::Err(
        MarketError::MarketAlreadyExists,
    )
    &&& pre.market_id@.len() == 0 && (outcomes@.len() < 2 || !distinct_outcomes(outcomes@))
        ==> r == Result::<(), MarketError>::Err(MarketError::InvalidParameters)
    &&& r is Err ==> post == pre
    &&& r is Ok ==> {
        &&& post.market_id == market_id
        &&& post.question == question
        &&& post.outcomes == outcomes
        &&& post.bets@.len() == outcomes@.len()
        &&& forall|i: int| 0 <= i < post.bets@.len() ==> #[trigger] post.bets@[i]@.len() == 0
        &&& post.total_staked == 0
        &&& !post.resolved
        &&& post.winning_outcome is None
        &&& post.child_markets == pre.child_markets
        &&& post.expiry_time == expiry_time
        &&& post.creator == Some(caller)
    }
}

/// Exactly when placing a bet succeeds, and what it does: rejected
/// (state unchanged, with the matching error) on a resolved market, a
/// past expiry, or an unknown outcome; otherwise the bet is appended
/// to its outcome's row and the total stake grows by the amount,
/// saturating at the largest representable amount.
pub open spec fn place_bet_transition(
    pre: MarketStateData,
    post: MarketStateData,
    outcome: String,
    amount: Amount,
    caller: InstanceId,
    now: Timestamp,
    r: Result<(), MarketError>,
) -> bool {
    &&& (r is Ok <==> !pre.resolved && now <= pre.expiry_time && has_outcome(
        pre.outcomes@,
        outcome@,
    ))
    &&& pre.resolved ==> r == Result::<(), MarketError>::Err(MarketError::MarketAlreadyResolved)
    &&& !pre.resolved && now > pre.expiry_time ==> r == Result::<(), MarketError>::Err(
        MarketError::MarketExpired,
    )
    &&& !pre.resolved && now <= pre.expiry_time && !has_outcome(pre.outcomes@, outcome@)
        ==> r == Result::<(), MarketError>::Err(MarketError::InvalidOutcome)
    &&& r is Err ==> post == pre
    &&& r is Ok ==> {
        &&& post == (MarketStateData { bets: post.bets, total_staked: post.total_staked, ..pre })
        &&& post.bets@.len() == pre.bets@.len()
        &&& forall|i: int|
            0 <= i < pre.outcomes@.len() && #[trigger] pre.outcomes@[i]@ == outcome@
                ==> post.bets@[i]@ == pre.bets@[i]@.push(
                Bet { bettor: caller, amount, timestamp: now },
            )
        &&& forall|i: int|
            0 <= i < pre.bets@.len() && !(i < pre.outcomes@.len() && pre.outcomes@[i]@ == outcome@)
                ==> post.bets@[i] == #[trigger] pre.bets@[i]
        &&& post.total_staked == pre.total_staked.saturating_add(amount)
    }
}

/// Exactly when resolution succeeds, and what it does: rejected (state
/// unchanged, with the matching error) on an already-resolved market,
/// an outcome outside the outcome set, or a caller other than the
/// creator; otherwise the market becomes resolved with that winning
/// outcome, and the resolution notification is the single emitted
/// side effect.
pub open spec fn resolve_transition(
    pre: MarketStateData,
    post: MarketStateData,
    winning_outcome: String,
    caller: InstanceId,
    r: Result<ResolutionNotification, MarketError>,
) -> bool {
    &&& (r is Ok <==> !pre.resolved && has_outcome(pre.outcomes@, winning_outcome@) && pre.creator
        == Some(caller))
    &&& pre.resolved ==> (r matches Err(e) && e == MarketError::MarketAlreadyResolved)
    &&& !pre.resolved && !has_outcome(pre.outcomes@, winning_outcome@) ==> (r matches Err(e)
        && e == MarketError::InvalidOutcome)
    &&& !pre.resolved && has_outcome(pre.outcomes@, winning_outcome@) && pre.creator != Some(caller)
        ==> (r matches Err(e) && e == MarketError::Unauthorized)
    &&& r is Err ==> post == pre
    &&& r matches Ok(n) ==> {
        &&& post == (MarketStateData {
            resolved: true,
            winning_outcome: Some(winning_outcome),
            ..pre
        })
        &&& n == (ResolutionNotification {
            market_id: pre.market_id,
            question: pre.question,
            winning_outcome,
            total_staked: pre.total_staked,
        })
    }
}

impl MarketStateData {
    /// The structural invariant every reachable market state obeys:
    /// the ledger has one row per outcome; the recorded total stake is
    /// the (saturating) sum of all recorded bet amounts; the winning
    /// outcome is present exactly on resolved markets and is a member
    /// of the outcome set; and the outcome set is empty (no market
    /// yet) or holds at least two pairwise-distinct entries.
    pub open spec fn wf(self) -> bool {
        &&& self.bets@.len() == self.outcomes@.len()
        &&& self.total_staked as int == cap_u64(ledger_sum(self.bets@))
        &&& (self.resolved <==> self.winning_outcome is Some)
        &&& self.winning_outcome matches Some(w) ==> has_outcome(self.outcomes@, w@)
        &&& distinct_outcomes(self.outcomes@)
        &&& self.outcomes@.len() == 0 || self.outcomes@.len() >= 2
    }

    /// A fresh, empty instance: no market created yet.
    pub fn new() -> (m: MarketStateData)
        ensures
            m.wf(),
            m.market_id@.len() == 0,
            m.question@.len() == 0,
            m.outcomes@.len() == 0,
            m.bets@.len() == 0,
            m.total_staked == 0,
            !m.resolved,
            m.winning_outcome is None,
            m.child_markets@.len() == 0,
            m.expiry_time == 0,
            m.creator is None,
    {
        MarketStateData {
            market_id: String::new(),
            question: String::new(),
            outcomes: Vec::new(),
            bets: Vec::new(),
            total_staked: 0,
            resolved: false,
            winning_outcome: None,
            child_markets: Vec::new(),
            expiry_time: 0,
            creator: None,
        }
    }

    /// Creates the market on this instance, or reports why the input
    /// is rejected.
    pub fn try_create_market(
        &mut self,
        market_id: String,
        question: String,
        outcomes: Vec<String>,
        expiry_time: Timestamp,
        caller: InstanceId,
    ) -> (r: Result<(), MarketError>)
        requires
            old(self).wf(),
        ensures
            final(self).wf(),
            create_transition(
                *old(self),
                *final(self),
                market_id,
                question,
                outcomes,
                expiry_time,
                caller,
                r,
            ),
    {
        if !self.market_id.as_str().is_empty() {
            return Err(MarketError::MarketAlreadyExists);
        }
        if outcomes.len() < 2 {
            return Err(MarketError::InvalidParameters);
        }
        if !distinct_strings(&outcomes) {
            return Err(MarketError::InvalidParameters);
        }
        let n: usize = outcomes.len();
        let mut bets: Vec<Vec<Bet>> = Vec::new();
        while bets.len() < n
            invariant
                bets@.len() <= n,
                forall|i: int| 0 <= i < bets@.len() ==> #[trigger] bets@[i]@.len() == 0,
            decreases n - bets@.len(),
        {
            bets.push(Vec::new());
        }
        proof {
            lemma_ledger_sum_empty_rows(bets@);
        }
        self.market_id = market_id;
        self.question = question;
        self.outcomes = outcomes;
        self.bets = bets;
        self.total_staked = 0;
        self.resolved = false;
        self.winning_outcome = None;
        self.expiry_time = expiry_time;
        self.creator = Some(caller);
        Ok(())
    }

    /// Appends a bet to the ledger, or reports why the input is
    /// rejected.
    pub fn try_place_bet(
        &mut self,
        outcome: String,
        amount: Amount,
        caller: InstanceId,
        now: Timestamp,
    ) -> (r: Result<(), MarketError>)
        requires
            old(self).wf(),
        ensures
            final(self).wf(),
            place_bet_transition(*old(self), *final(self), outcome, amount, caller, now, r),
    {
        if self.resolved {
            return Err(MarketError::MarketAlreadyResolved);
        }
        if now > self.expiry_time {
            return Err(MarketError::MarketExpired);
        }
        match find_outcome(&self.outcomes, &outcome) {
            None => Err(MarketError::InvalidOutcome),
            Some(idx) => {
                let ghost pre = *self;
                let mut row: Vec<Bet> = self.bets.remove(idx);
                row.push(Bet { bettor: caller, amount, timestamp: now });
                let ghost new_row = row;
                self.bets.insert(idx, row);
                self.total_staked = self.total_staked.saturating_add(amount);
                proof {
                    assert(self.bets@ =~= pre.bets@.update(idx as int, new_row));
                    lemma_bets_sum_push(pre.bets@[idx as int]@, Bet { bettor: caller, amount, timestamp: now });
                    lemma_ledger_sum_update(pre.bets@, idx as int, new_row);
                    lemma_ledger_sum_nonneg(pre.bets@);
                }
                Ok(())
            },
        }
    }

    /// Resolves the market and produces the resolution notification,
    /// or reports why the input is rejected.
    pub fn try_resolve_market(&mut self, winning_outcome: String, caller: InstanceId) -> (r:
        Result<ResolutionNotification, MarketError>)
        requires
            old(self).wf(),
        ensures
            final(self).wf(),
            resolve_transition(*old(self), *final(self), winning_outcome, caller, r),
    {
        if self.resolved {
            return Err(MarketError::MarketAlreadyResolved);
        }
        match find_outcome(&self.outcomes, &winning_outcome) {
            None => Err(MarketError::InvalidOutcome),
            Some(_idx) => {
                let authorized: bool = match &self.creator {
                    Some(c) => *c == caller,
                    None => false,
                };
                if !authorized {
                    return Err(MarketError::Unauthorized);
                }
                let n = ResolutionNotification {
                    market_id: self.market_id.clone(),
                    question: self.question.clone(),
                    winning_outcome: winning_outcome.clone(),
                    total_staked: self.total_staked,
                };
                self.resolved = true;
                self.winning_outcome = Some(winning_outcome);
                Ok(n)
            },
        }
    }

    /// Runs one operation, silently discarding any rejection, as the
    /// operation ABI does; the returned notification, present exactly
    /// on a successful resolution, is the single emitted side effect.
    pub fn execute_operation(
        &mut self,
        operation: Operation,
        caller: InstanceId,
        now: Timestamp,
    ) -> (emitted: Option<ResolutionNotification>)
        requires
            old(self).wf(),
        ensures
            final(self).wf(),
            match operation {
                Operation::CreateMarket { market_id, question, outcomes, expiry_time } => {
                    &&& emitted is None
                    &&& exists|r: Result<(), MarketError>|
                        create_transition(
                            *old(self),
                            *final(self),
                            market_id,
                            question,
                            outcomes,
                            expiry_time,
                            caller,
                            r,
                        )
                },
                Operation::PlaceBet { outcome, amount } => {
                    &&& emitted is None
                    &&& exists|r: Result<(), MarketError>|
                        place_bet_transition(
                            *old(self),
                            *final(self),
                            outcome,
                            amount,
                            caller,
                            now,
                            r,
                        )
                },
                Operation::ResolveMarket { winning_outcome } => exists|
                    r: Result<ResolutionNotification, MarketError>,
                |
                    {
                        &&& resolve_transition(
                            *old(self),
                            *final(self),
                            winning_outcome,
                            caller,
                            r,
                        )
                        &&& (r matches Ok(n) ==> emitted == Some(n))
                        &&& (r is Err ==> emitted is None)
                    },
            },
    {
        match operation {
            Operation::CreateMarket { market_id, question, outcomes, expiry_time } => {
                let _ = self.try_create_market(market_id, question, outcomes, expiry_time, caller);
                None
            },
            Operation::PlaceBet { outcome, amount } => {
                let _ = self.try_place_bet(outcome, amount, caller, now);
                None
            },
            Operation::ResolveMarket { winning_outcome } => {
                match self.try_resolve_market(winning_outcome, caller) {
                    Ok(n) => Some(n),
                    Err(_) => None,
                }
            },
        }
    }

    /// The (saturating) total staked on the outcome at position `i`.
    pub open spec fn spec_outcome_total(self, i: int) -> int {
        cap_u64(bets_sum(self.bets@[i]@))
    }

    /// The odds entry owed for position `i`: the neutral `1 / 1` when
    /// the market holds no stake at all; the `0 / 1` sentinel for an
    /// outcome with no stake against a nonzero total; otherwise
    /// `total_staked / outcome_total`, an exact ratio.
    pub open spec fn spec_odds_entry(self, i: int) -> OddsRatio {
        if self.total_staked == 0 {
            OddsRatio { numerator: 1, denominator: 1 }
        } else if self.spec_outcome_total(i) == 0 {
            OddsRatio { numerator: 0, denominator: 1 }
        } else {
            OddsRatio {
                numerator: self.total_staked,
                denominator: self.spec_outcome_total(i) as u64,
            }
        }
    }

    /// The odds table, one entry per outcome, in outcome order.
    pub fn odds(&self) -> (o: Vec<OddsRatio>)
        requires
            self.wf(),
        ensures
            o@.len() == self.outcomes@.len(),
            forall|i: int| 0 <= i < o@.len() ==> #[trigger] o@[i] == self.spec_odds_entry(i),
    {
        let mut o: Vec<OddsRatio> = Vec::new();
        let mut i: usize = 0;
        while i < self.outcomes.len()
            invariant
                self.wf(),
                i <= self.outcomes@.len(),
                o@.len() == i,
                forall|j: int| 0 <= j < i ==> #[trigger] o@[j] == self.spec_odds_entry(j),
            decreases self.outcomes@.len() - i,
        {
            let t: u64 = outcome_row_total(&self.bets[i]);
            let entry: OddsRatio = if self.total_staked == 0 {
                OddsRatio { numerator: 1, denominator: 1 }
            } else if t == 0 {
                OddsRatio { numerator: 0, denominator: 1 }
            } else {
                OddsRatio { numerator: self.total_staked, denominator: t }
            };
            o.push(entry);
            i += 1;
        }
        o
    }
}

/// The (saturating) sum of the amounts of one row of bets.
fn outcome_row_total(row: &Vec<Bet>) -> (t: u64)
    ensures
        t as int == cap_u64(bets_sum(row@)),
{
    let mut t: u64 = 0;
    let mut j: usize = 0;
    while j < row.len()
        invariant
            j <= row@.len(),
            t as int == cap_u64(bets_sum(row@.subrange(0, j as int))),
        decreases row@.len() - j,
    {
        proof {
            assert(row@.subrange(0, j + 1).drop_last() =~= row@.subrange(0, j as int));
            assert(row@.subrange(0, j + 1).last() == row@[j as int]);
            lemma_bets_sum_nonneg(row@.subrange(0, j as int));
        }
        t = t.saturating_add(row[j].amount);
        j += 1;
    }
    proof {
        assert(row@.subrange(0, row@.len() as int) =~= row@);
    }
    t
}

/// The total stake recorded by a well-formed market equals the sum of
/// all recorded bet amounts, whenever that sum is representable.
pub proof fn lemma_total_staked_is_sum(m: MarketStateData)
    requires
        m.wf(),
        ledger_sum(m.bets@) <= u64::MAX as int,
    ensures
        m.total_staked as int == ledger_sum(m.bets@),
{
}

/// A successfully placed bet grows the recorded ledger sum by exactly
/// its amount, and the recorded total stake follows it (saturating).
pub proof fn lemma_place_bet_accounts(
    pre: MarketStateData,
    post: MarketStateData,
    outcome: String,
    amount: Amount,
    caller: InstanceId,
    now: Timestamp,
)
    requires
        pre.wf(),
        place_bet_transition(pre, post, outcome, amount, caller, now, Ok(())),
    ensures
        ledger_sum(post.bets@) == ledger_sum(pre.bets@) + amount,
        post.total_staked as int == cap_u64(ledger_sum(pre.bets@) + amount),
{
    let i = choose|i: int| 0 <= i < pre.outcomes@.len() && #[trigger] pre.outcomes@[i]@ == outcome@;
    let b = Bet { bettor: caller, amount, timestamp: now };
    assert(post.bets@ =~= pre.bets@.update(i, post.bets@[i]));
    assert(post.bets@[i]@ == pre.bets@[i]@.push(b));
    lemma_bets_sum_push(pre.bets@[i]@, b);
    lemma_ledger_sum_update(pre.bets@, i, post.bets@[i]);
    lemma_ledger_sum_nonneg(pre.bets@);
}

/// A rejected bet is a no-op: no bet is recorded and the total stake
/// is unchanged.
pub proof fn lemma_rejected_bet_is_noop(
    pre: MarketStateData,
    post: MarketStateData,
    outcome: String,
    amount: Amount,
    caller: InstanceId,
    now: Timestamp,
    r: Result<(), MarketError>,
)
    requires
        place_bet_transition(pre, post, outcome, amount, caller, now, r),
        pre.resolved || now > pre.expiry_time || !has_outcome(pre.outcomes@, outcome@),
    ensures
        r is Err,
        post == pre,
{
}

/// Resolution is idempotent: once a resolution has succeeded, any
/// further resolution attempt is rejected, leaves the state unchanged,
/// emits nothing, and so never changes the winning outcome.
pub proof fn lemma_resolve_idempotent(
    m0: MarketStateData,
    m1: MarketStateData,
    m2: MarketStateData,
    o1: String,
    c1: InstanceId,
    o2: String,
    c2: InstanceId,
    n1: ResolutionNotification,
    r2: Result<ResolutionNotification, MarketError>,
)
    requires
        resolve_transition(m0, m1, o1, c1, Ok(n1)),
        resolve_transition(m1, m2, o2, c2, r2),
    ensures
        r2 matches Err(e) && e == MarketError::MarketAlreadyResolved,
        m2 == m1,
        m2.winning_outcome == Some(o1),
{
}

/// Only the creator can resolve: an attempt by any other caller leaves
/// the state unchanged and emits nothing.
pub proof fn lemma_resolve_unauthorized(
    pre: MarketStateData,
    post: MarketStateData,
    winning_outcome: String,
    caller: InstanceId,
    r: Result<ResolutionNotification, MarketError>,
)
    requires
        resolve_transition(pre, post, winning_outcome, caller, r),
        pre.creator != Some(caller),
    ensures
        r is Err,
        post == pre,
{
}

} // verus!
