//! The spawn-rule engine: it matches its active rules against market
//! resolution notifications, instantiates templates for derived
//! markets, and keeps the pending-spawn queue.
//!
//! Rule matching is deliberately case-insensitive substring matching,
//! not regular-expression matching: the patterns this design uses are
//! themselves simple keywords.  A matching rule always enqueues a
//! [`PendingSpawn`] scheduled at notification time; a rule whose
//! trigger is a zero-second delay additionally emits an immediate
//! market-creation request, seeded in proportion to the parent's
//! just-observed stake.  The periodic sweep promotes due pending
//! spawns to creation requests, seeded from a fixed default baseline,
//! since the parent's stake is not retained in the pending record —
//! an intentional asymmetry between the immediate and deferred paths.

use crate::base::{expiry_at, spec_expiry_at, Amount, InstanceId, Timestamp};
use crate::text::{
    chars_string, clone_strings, contains_ci, contains_seq, lower_of, push_all, replace_all,
    replace_chars, spec_decimal, str_chars, u64_decimal,
};
use vstd::prelude::*;
use vstd::seq_lib::*;
use vstd::string::StringExecFns;

verus! {

/// The denominator of a seed-liquidity ratio: ratios are carried in
/// basis points, so `10_000` stands for the ratio `1.0`.
pub const BPS_DENOMINATOR: u64 = 10_000;

/// The fixed total-stake baseline the sweep uses to seed deferred
/// spawns, since the parent's stake is not retained in the pending
/// record.
pub const DEFAULT_STAKE_BASELINE: u64 = 1_000;

/// When a rule fires on a resolution.
#[derive(Debug)]
pub enum TriggerCondition {
    /// Fires when the resolved question contains `market_pattern` and
    /// the winning outcome contains `outcome_pattern`, both
    /// case-insensitively.  An empty pattern matches everything.
    MarketResolution { market_pattern: String, outcome_pattern: String },
    /// Always fires; the delay governs when the resulting spawn is
    /// due.
    TimeDelay { delay_seconds: u64 },
    /// Reserved; never fires.
    CustomLogic { logic_hash: String },
}

/// What a fired rule spawns: a question template with placeholders,
/// the outcome set, an expiry offset, and a seed-liquidity ratio in
/// basis points.
#[derive(Debug)]
pub struct SpawnTemplate {
    pub question_template: String,
    pub outcomes: Vec<String>,
    pub expiry_offset_seconds: u64,
    pub seed_liquidity_ratio_bps: u64,
}

/// One spawn rule.
#[derive(Debug)]
pub struct SpawnRule {
    pub rule_id: String,
    pub trigger_condition: TriggerCondition,
    pub spawn_template: SpawnTemplate,
    pub active: bool,
    pub created_by: InstanceId,
}

/// A scheduled-but-not-yet-materialized child-market creation.  The
/// template is a snapshot taken at enqueue time.  `processed` moves
/// from `false` to `true` exactly once; entries are never deleted,
/// as an audit trail.
#[derive(Debug)]
pub struct PendingSpawn {
    pub spawn_id: String,
    pub parent_market_id: String,
    pub parent_outcome: String,
    pub spawn_template: SpawnTemplate,
    pub scheduled_time: Timestamp,
    pub processed: bool,
}

/// Operations the spawn-rule engine accepts.
#[derive(Debug)]
pub enum Operation {
    Initialize { admin: InstanceId },
    CreateSpawnRule {
        rule_id: String,
        trigger_condition: TriggerCondition,
        spawn_template: SpawnTemplate,
    },
    UpdateSpawnRule { rule_id: String, active: bool },
    ProcessPendingSpawns,
}

/// Messages exchanged with the other instances: the inbound
/// resolution notification and the outbound market-creation request.
#[derive(Debug)]
pub enum Message {
    MarketResolved {
        market_id: String,
        question: String,
        winning_outcome: String,
        total_stake: Amount,
    },
    SpawnMarket {
        parent_market_id: String,
        question: String,
        outcomes: Vec<String>,
        expiry_time: Timestamp,
        seed_liquidity: Amount,
    },
}

/// Spawn-rule engine errors, one per rejected-input condition.
#[derive(Clone, Copy, PartialEq, Eq, Structural, Debug)]
pub enum SpawnHandlerError {
    Unauthorized,
    RuleNotFound,
    InvalidTemplate,
    ProcessingFailed,
    AlreadyInitialized,
}

impl SpawnHandlerError {
    /// A human-readable description of the error.
    pub fn message(&self) -> (m: &'static str) {
        match self {
            SpawnHandlerError::Unauthorized => "Unauthorized",
            SpawnHandlerError::RuleNotFound => "Rule not found",
            SpawnHandlerError::InvalidTemplate => "Invalid template",
            SpawnHandlerError::ProcessingFailed => "Processing failed",
            SpawnHandlerError::AlreadyInitialized => "Already initialized",
        }
    }
}

/// Opaque acknowledgement returned by the operation ABI: an empty
/// payload.
#[derive(Clone, Debug)]
pub struct ResponseBytes(pub Vec<u8>);

/// Static configuration of the spawn-rule engine (none is needed).
#[derive(Clone, Copy, Debug)]
pub struct Parameters;

/// Marker tying the spawn-rule engine to its operation and response
/// types.
#[derive(Clone, Copy, Debug)]
pub struct SpawnHandlerAbi;

/// The full state of the spawn-rule engine instance.
#[derive(Debug)]
pub struct SpawnHandlerStateData {
    pub spawn_rules: Vec<SpawnRule>,
    pub pending_spawns: Vec<PendingSpawn>,
    pub admin: Option<InstanceId>,
}

/// Whether `condition` fires on a resolution of `question` with
/// `outcome`: case-insensitive substring matching for
/// `MarketResolution`, always for `TimeDelay`, never for the reserved
/// `CustomLogic`.
pub open spec fn spec_matches_trigger(
    condition: TriggerCondition,
    question: Seq<char>,
    outcome: Seq<char>,
) -> bool {
    match condition {
        TriggerCondition::MarketResolution { market_pattern, outcome_pattern } => contains_seq(
            lower_of(question),
            lower_of(market_pattern@),
        ) && contains_seq(lower_of(outcome), lower_of(outcome_pattern@)),
        TriggerCondition::TimeDelay { .. } => true,
        TriggerCondition::CustomLogic { .. } => false,
    }
}

/// Whether `condition` fires on a resolution of `question` with
/// `outcome`.
pub fn matches_trigger_condition(
    condition: &TriggerCondition,
    question: &str,
    outcome: &str,
) -> (b: bool)
    ensures
        b == spec_matches_trigger(*condition, question@, outcome@),
{
    match condition {
        TriggerCondition::MarketResolution { market_pattern, outcome_pattern } => {
            let qm: bool = contains_ci(question, market_pattern.as_str());
            let om: bool = contains_ci(outcome, outcome_pattern.as_str());
            qm && om
        },
        TriggerCondition::TimeDelay { .. } => true,
        TriggerCondition::CustomLogic { .. } => false,
    }
}

/// The question of a spawned market: the template with
/// `{parent_market_id}` replaced by the resolved market's id,
/// `{outcome}` by the winning outcome, and `{parent_question}` by a
/// fixed filler, in that order.  (The parent's question text is not
/// threaded through in this design.)
pub open spec fn spec_fill_template(
    template: Seq<char>,
    market_id: Seq<char>,
    outcome: Seq<char>,
) -> Seq<char> {
    replace_all(
        replace_all(
            replace_all(template, "{parent_market_id}"@, market_id),
            "{outcome}"@,
            outcome,
        ),
        "{parent_question}"@,
        "the previous event"@,
    )
}

/// Fills the placeholders of `template` for a resolution of
/// `market_id` with `outcome`.
pub fn process_template(template: &str, market_id: &str, outcome: &str) -> (r: String)
    ensures
        r@ == spec_fill_template(template@, market_id@, outcome@),
{
    proof {
        reveal_strlit("{parent_market_id}");
        reveal_strlit("{outcome}");
        reveal_strlit("{parent_question}");
    }
    let tv: Vec<char> = str_chars(template);
    let from1: Vec<char> = str_chars("{parent_market_id}");
    let to1: Vec<char> = str_chars(market_id);
    let step1: Vec<char> = replace_chars(&tv, &from1, &to1);
    let from2: Vec<char> = str_chars("{outcome}");
    let to2: Vec<char> = str_chars(outcome);
    let step2: Vec<char> = replace_chars(&step1, &from2, &to2);
    let from3: Vec<char> = str_chars("{parent_question}");
    let to3: Vec<char> = str_chars("the previous event");
    let step3: Vec<char> = replace_chars(&step2, &from3, &to3);
    chars_string(&step3)
}

/// The seed liquidity for a spawned market: the floor of
/// `total_stake` times the ratio `ratio_bps / 10_000`.
pub open spec fn spec_seed_liquidity(total_stake: Amount, ratio_bps: u64) -> int {
    (total_stake * ratio_bps) / (BPS_DENOMINATOR as int)
}

/// Computes the seed liquidity for a spawned market.
pub fn seed_liquidity(total_stake: Amount, ratio_bps: u64) -> (s: Amount)
    requires
        ratio_bps <= BPS_DENOMINATOR,
    ensures
        s as int == spec_seed_liquidity(total_stake, ratio_bps),
{
    proof {
        assert(total_stake as int * ratio_bps as int <= u64::MAX as int * (BPS_DENOMINATOR as int)
            && total_stake as int * ratio_bps as int >= 0 && (total_stake as int * ratio_bps as int)
            / (BPS_DENOMINATOR as int) <= u64::MAX as int) by (nonlinear_arith)
            requires
                ratio_bps <= BPS_DENOMINATOR,
                total_stake <= u64::MAX,
                BPS_DENOMINATOR == 10_000u64,
        ;
    }
    let wide: u128 = (total_stake as u128) * (ratio_bps as u128);
    let q: u128 = wide / (BPS_DENOMINATOR as u128);
    q as u64
}

/// The id of the pending spawn a rule enqueues at `now`: the rule id
/// with a time-based suffix.
pub open spec fn spec_spawn_id(rule_id: Seq<char>, now: Timestamp) -> Seq<char> {
    rule_id + "_"@ + spec_decimal(now as int)
}

/// Builds the id of the pending spawn `rule_id` enqueues at `now`.
pub fn make_spawn_id(rule_id: &String, now: Timestamp) -> (s: String)
    ensures
        s@ == spec_spawn_id(rule_id@, now),
{
    let mut v: Vec<char> = str_chars(rule_id.as_str());
    let sep: Vec<char> = str_chars("_");
    push_all(&mut v, &sep);
    let digits: Vec<char> = u64_decimal(now);
    push_all(&mut v, &digits);
    chars_string(&v)
}

/// A template is valid when its seed-liquidity ratio is at most `1.0`
/// (ten thousand basis points).
pub open spec fn template_valid(t: SpawnTemplate) -> bool {
    t.seed_liquidity_ratio_bps <= BPS_DENOMINATOR
}

/// Whether `a` and `b` carry the same template (list fields as
/// sequences).
pub open spec fn same_template(a: SpawnTemplate, b: SpawnTemplate) -> bool {
    &&& a.question_template == b.question_template
    &&& a.outcomes@ == b.outcomes@
    &&& a.expiry_offset_seconds == b.expiry_offset_seconds
    &&& a.seed_liquidity_ratio_bps == b.seed_liquidity_ratio_bps
}

/// A field-wise copy of `t`.
pub fn clone_template(t: &SpawnTemplate) -> (r: SpawnTemplate)
    ensures
        same_template(r, *t),
{
    SpawnTemplate {
        question_template: t.question_template.clone(),
        outcomes: clone_strings(&t.outcomes),
        expiry_offset_seconds: t.expiry_offset_seconds,
        seed_liquidity_ratio_bps: t.seed_liquidity_ratio_bps,
    }
}

/// Whether some rule carries the id `id`.
pub open spec fn has_rule(rules: Seq<SpawnRule>, id: Seq<char>) -> bool {
    exists|i: int| 0 <= i < rules.len() && #[trigger] rules[i].rule_id@ == id
}

/// Whether the rule ids are pairwise distinct.
pub open spec fn distinct_rule_ids(rules: Seq<SpawnRule>) -> bool {
    forall|p: int, q: int|
        #![trigger rules[p], rules[q]]
        0 <= p < q < rules.len() ==> rules[p].rule_id@ != rules[q].rule_id@
}

/// The position of the rule with id `id`, if one exists.
pub fn find_rule(rules: &Vec<SpawnRule>, id: &String) -> (r: Option<usize>)
    ensures
        match r {
            Some(i) => i < rules@.len() && rules@[i as int].rule_id@ == id@,
            None => !has_rule(rules@, id@),
        },
{
    let mut i: usize = 0;
    while i < rules.len()
        invariant
            i <= rules@.len(),
            forall|j: int| 0 <= j < i ==> #[trigger] rules@[j].rule_id@ != id@,
        decreases rules@.len() - i,
    {
        if rules[i].rule_id == *id {
            return Some(i);
        }
        i += 1;
    }
    None
}

/// Whether `rule` fires on a resolution of `question` with `outcome`:
/// only active rules are evaluated.
pub open spec fn rule_matches(rule: SpawnRule, question: Seq<char>, outcome: Seq<char>) -> bool {
    rule.active && spec_matches_trigger(rule.trigger_condition, question, outcome)
}

/// Whether `condition` is a zero-second delay, the immediate
/// fast-path.
pub open spec fn spec_zero_delay(condition: TriggerCondition) -> bool {
    condition matches TriggerCondition::TimeDelay { delay_seconds } && delay_seconds == 0
}

/// The rules that fire on a resolution of `question` with `outcome`,
/// in rule order.
pub open spec fn matching_rules(
    rules: Seq<SpawnRule>,
    question: Seq<char>,
    outcome: Seq<char>,
) -> Seq<SpawnRule> {
    rules.filter(|r: SpawnRule| rule_matches(r, question, outcome))
}

/// The rules that fire on a resolution of `question` with `outcome`
/// through the immediate zero-delay fast-path, in rule order.
pub open spec fn immediate_rules(
    rules: Seq<SpawnRule>,
    question: Seq<char>,
    outcome: Seq<char>,
) -> Seq<SpawnRule> {
    rules.filter(
        |r: SpawnRule| rule_matches(r, question, outcome) && spec_zero_delay(r.trigger_condition),
    )
}

/// The pending spawn that `rule`, fired by a resolution of
/// `market_id` with `outcome` at `now`, enqueues.
pub open spec fn pending_for(
    p: PendingSpawn,
    rule: SpawnRule,
    market_id: String,
    outcome: String,
    now: Timestamp,
) -> bool {
    &&& p.spawn_id@ == spec_spawn_id(rule.rule_id@, now)
    &&& p.parent_market_id == market_id
    &&& p.parent_outcome == outcome
    &&& same_template(p.spawn_template, rule.spawn_template)
    &&& p.scheduled_time == now
    &&& !p.processed
}

/// The market-creation request built from `template` for a market
/// spawned under `market_id` with `outcome` at `now`, seeded from
/// `total_stake`.
pub open spec fn request_for(
    m: Message,
    template: SpawnTemplate,
    market_id: String,
    outcome: String,
    total_stake: Amount,
    now: Timestamp,
) -> bool {
    &&& m matches Message::SpawnMarket {
        parent_market_id,
        question,
        outcomes,
        expiry_time,
        seed_liquidity,
    }
    &&& (m matches Message::SpawnMarket {
        parent_market_id,
        question,
        outcomes,
        expiry_time,
        seed_liquidity,
    } ==> {
        &&& parent_market_id == market_id
        &&& question@ == spec_fill_template(template.question_template@, market_id@, outcome@)
        &&& outcomes@ == template.outcomes@
        &&& expiry_time == spec_expiry_at(now, template.expiry_offset_seconds)
        &&& seed_liquidity as int == spec_seed_liquidity(total_stake, template.seed_liquidity_ratio_bps)
    })
}

/// A due pending spawn: not yet processed, and scheduled at or before
/// `now`.
pub open spec fn spawn_due(p: PendingSpawn, now: Timestamp) -> bool {
    !p.processed && p.scheduled_time <= now
}

/// The due pending spawns of `pending`, in queue order.
pub open spec fn due_spawns(pending: Seq<PendingSpawn>, now: Timestamp) -> Seq<PendingSpawn> {
    pending.filter(|p: PendingSpawn| spawn_due(p, now))
}

/// `post` is `pre` with `rule` inserted under its id: appended if the
/// id is new, otherwise replacing the rule already carrying it (last
/// write wins).
pub open spec fn upsert_rule(pre: Seq<SpawnRule>, post: Seq<SpawnRule>, rule: SpawnRule) -> bool {
    if has_rule(pre, rule.rule_id@) {
        exists|i: int|
            0 <= i < pre.len() && #[trigger] pre[i].rule_id@ == rule.rule_id@ && post == pre.update(
                i,
                rule,
            )
    } else {
        post == pre.push(rule)
    }
}

proof fn lemma_filter_singleton<A>(x: A, pred: spec_fn(A) -> bool)
    ensures
        seq![x].filter(pred) == (if pred(x) {
            seq![x]
        } else {
            Seq::<A>::empty()
        }),
{
    reveal(Seq::filter);
    assert(seq![x].drop_last() =~= Seq::<A>::empty());
    assert(Seq::<A>::empty().filter(pred) == Seq::<A>::empty());
    assert(seq![x].last() == x);
    if pred(x) {
        assert(Seq::<A>::empty().filter(pred).push(x) =~= seq![x]);
    }
}

proof fn lemma_filter_prefix_step<A>(s: Seq<A>, j: int, pred: spec_fn(A) -> bool)
    requires
        0 <= j < s.len(),
    ensures
        s.subrange(0, j + 1).filter(pred) == s.subrange(0, j).filter(pred) + (if pred(s[j]) {
            seq![s[j]]
        } else {
            Seq::<A>::empty()
        }),
{
    assert(s.subrange(0, j + 1) =~= s.subrange(0, j) + seq![s[j]]);
    Seq::<A>::filter_distributes_over_add(s.subrange(0, j), seq![s[j]], pred);
    lemma_filter_singleton(s[j], pred);
}

proof fn lemma_filter_none<A>(s: Seq<A>, pred: spec_fn(A) -> bool)
    requires
        forall|i: int| 0 <= i < s.len() ==> !pred(#[trigger] s[i]),
    ensures
        s.filter(pred) == Seq::<A>::empty(),
    decreases s.len(),
{
    reveal(Seq::filter);
    if s.len() > 0 {
        lemma_filter_none(s.drop_last(), pred);
    }
}

/// Exactly what initialization does: the admin identity is set once
/// and the two built-in rules are installed; a second attempt is
/// rejected and leaves the state unchanged.
pub open spec fn initialize_transition(
    pre: SpawnHandlerStateData,
    post: SpawnHandlerStateData,
    admin: InstanceId,
    caller: InstanceId,
    r: Result<(), SpawnHandlerError>,
) -> bool {
    &&& (r is Ok <==> pre.admin is None)
    &&& r is Err ==> post == pre && (r matches Err(e) && e
        == SpawnHandlerError::AlreadyInitialized)
    &&& r is Ok ==> {
        &&& post.admin == Some(admin)
        &&& post.pending_spawns@ == pre.pending_spawns@
        &&& exists|r1: SpawnRule, r2: SpawnRule, mid: Seq<SpawnRule>|
            {
                &&& is_political_rule(r1, caller)
                &&& is_sports_rule(r2, caller)
                &&& #[trigger] upsert_rule(pre.spawn_rules@, mid, r1)
                &&& #[trigger] upsert_rule(mid, post.spawn_rules@, r2)
            }
    }
}

/// The built-in rule that follows political resolutions: it fires on
/// questions containing "election" (any outcome), and spawns a
/// five-outcome economic-impact market expiring thirty days later,
/// seeded with a tenth of the parent's stake.
pub open spec fn is_political_rule(r: SpawnRule, creator: InstanceId) -> bool {
    &&& r.rule_id@ == "political_consequences"@
    &&& r.trigger_condition matches TriggerCondition::MarketResolution {
        market_pattern,
        outcome_pattern,
    }
    &&& (r.trigger_condition matches TriggerCondition::MarketResolution {
        market_pattern,
        outcome_pattern,
    } ==> market_pattern@ == "election"@ && outcome_pattern@ == ""@)
    &&& r.spawn_template.question_template@ == "What will be the economic impact of {outcome}?"@
    &&& r.spawn_template.outcomes@.len() == 5
    &&& r.spawn_template.outcomes@[0]@ == "Significant positive impact"@
    &&& r.spawn_template.outcomes@[1]@ == "Moderate positive impact"@
    &&& r.spawn_template.outcomes@[2]@ == "No significant impact"@
    &&& r.spawn_template.outcomes@[3]@ == "Moderate negative impact"@
    &&& r.spawn_template.outcomes@[4]@ == "Significant negative impact"@
    &&& r.spawn_template.expiry_offset_seconds == 30 * 24 * 3600
    &&& r.spawn_template.seed_liquidity_ratio_bps == 1000
    &&& r.active
    &&& r.created_by == creator
}

/// The built-in rule that follows sports resolutions: it fires on
/// questions containing "championship" (any outcome), and spawns a
/// five-outcome next-season market expiring ninety days later, seeded
/// with a twentieth of the parent's stake.
pub open spec fn is_sports_rule(r: SpawnRule, creator: InstanceId) -> bool {
    &&& r.rule_id@ == "sports_aftermath"@
    &&& r.trigger_condition matches TriggerCondition::MarketResolution {
        market_pattern,
        outcome_pattern,
    }
    &&& (r.trigger_condition matches TriggerCondition::MarketResolution {
        market_pattern,
        outcome_pattern,
    } ==> market_pattern@ == "championship"@ && outcome_pattern@ == ""@)
    &&& r.spawn_template.question_template@
        == "How will {outcome} affect team performance next season?"@
    &&& r.spawn_template.outcomes@.len() == 5
    &&& r.spawn_template.outcomes@[0]@ == "Significantly better"@
    &&& r.spawn_template.outcomes@[1]@ == "Slightly better"@
    &&& r.spawn_template.outcomes@[2]@ == "No change"@
    &&& r.spawn_template.outcomes@[3]@ == "Slightly worse"@
    &&& r.spawn_template.outcomes@[4]@ == "Significantly worse"@
    &&& r.spawn_template.expiry_offset_seconds == 90 * 24 * 3600
    &&& r.spawn_template.seed_liquidity_ratio_bps == 500
    &&& r.active
    &&& r.created_by == creator
}

/// Exactly what rule creation does: the rule is upserted under its id
/// (no existence check, last write wins), active, owned by the
/// caller; a template whose ratio exceeds `1.0` is rejected.
pub open spec fn create_rule_transition(
    pre: SpawnHandlerStateData,
    post: SpawnHandlerStateData,
    rule_id: String,
    trigger_condition: TriggerCondition,
    spawn_template: SpawnTemplate,
    caller: InstanceId,
    r: Result<(), SpawnHandlerError>,
) -> bool {
    &&& (r is Ok <==> template_valid(spawn_template))
    &&& r is Err ==> post == pre && (r matches Err(e) && e == SpawnHandlerError::InvalidTemplate)
    &&& r is Ok ==> {
        &&& post.pending_spawns@ == pre.pending_spawns@
        &&& post.admin == pre.admin
        &&& upsert_rule(
            pre.spawn_rules@,
            post.spawn_rules@,
            SpawnRule {
                rule_id,
                trigger_condition,
                spawn_template,
                active: true,
                created_by: caller,
            },
        )
    }
}

/// Whether `caller` may update the rule named `rule_id`: the rule's
/// creator and the configured admin may.
pub open spec fn update_authorized(
    pre: SpawnHandlerStateData,
    rule_id: Seq<char>,
    caller: InstanceId,
) -> bool {
    exists|i: int|
        0 <= i < pre.spawn_rules@.len() && #[trigger] pre.spawn_rules@[i].rule_id@ == rule_id && (
        pre.spawn_rules@[i].created_by == caller || pre.admin == Some(caller))
}

/// Exactly what a rule update does: an unknown id is "rule not
/// found"; a caller who is neither the rule's creator nor the admin
/// is "unauthorized"; otherwise the rule's `active` flag is set.
pub open spec fn update_rule_transition(
    pre: SpawnHandlerStateData,
    post: SpawnHandlerStateData,
    rule_id: String,
    active: bool,
    caller: InstanceId,
    r: Result<(), SpawnHandlerError>,
) -> bool {
    &&& (r is Ok <==> has_rule(pre.spawn_rules@, rule_id@) && update_authorized(
        pre,
        rule_id@,
        caller,
    ))
    &&& !has_rule(pre.spawn_rules@, rule_id@) ==> (r matches Err(e) && e
        == SpawnHandlerError::RuleNotFound)
    &&& has_rule(pre.spawn_rules@, rule_id@) && !update_authorized(pre, rule_id@, caller) ==> (
    r matches Err(e) && e == SpawnHandlerError::Unauthorized)
    &&& r is Err ==> post == pre
    &&& r is Ok ==> {
        &&& post.pending_spawns@ == pre.pending_spawns@
        &&& post.admin == pre.admin
        &&& post.spawn_rules@.len() == pre.spawn_rules@.len()
        &&& forall|i: int|
            0 <= i < pre.spawn_rules@.len() && #[trigger] pre.spawn_rules@[i].rule_id@ != rule_id@
                ==> post.spawn_rules@[i] == pre.spawn_rules@[i]
        &&& forall|i: int|
            0 <= i < pre.spawn_rules@.len() && #[trigger] pre.spawn_rules@[i].rule_id@ == rule_id@
                ==> post.spawn_rules@[i] == (SpawnRule { active, ..pre.spawn_rules@[i] })
    }
}

/// Exactly what handling a resolution notification does: every active
/// rule that matches enqueues one pending spawn scheduled at
/// notification time, in rule order; every matching zero-delay rule
/// additionally emits one immediate creation request, seeded from the
/// notification's total stake.
pub open spec fn resolution_transition(
    pre: SpawnHandlerStateData,
    post: SpawnHandlerStateData,
    market_id: String,
    question: String,
    winning_outcome: String,
    total_stake: Amount,
    now: Timestamp,
    requests: Seq<Message>,
) -> bool {
    let matched = matching_rules(pre.spawn_rules@, question@, winning_outcome@);
    let imm = immediate_rules(pre.spawn_rules@, question@, winning_outcome@);
    &&& post.spawn_rules@ == pre.spawn_rules@
    &&& post.admin == pre.admin
    &&& post.pending_spawns@.len() == pre.pending_spawns@.len() + matched.len()
    &&& post.pending_spawns@.subrange(0, pre.pending_spawns@.len() as int)
        == pre.pending_spawns@
    &&& forall|k: int|
        0 <= k < matched.len() ==> pending_for(
            #[trigger] post.pending_spawns@[pre.pending_spawns@.len() + k],
            matched[k],
            market_id,
            winning_outcome,
            now,
        )
    &&& requests.len() == imm.len()
    &&& forall|k: int|
        0 <= k < imm.len() ==> request_for(
            #[trigger] requests[k],
            imm[k].spawn_template,
            market_id,
            winning_outcome,
            total_stake,
            now,
        )
}

/// Exactly what the periodic sweep does: every due pending spawn
/// (unprocessed, scheduled at or before `now`) emits one creation
/// request, in queue order, seeded from the fixed default baseline,
/// and is marked processed; every other entry is untouched.
pub open spec fn sweep_transition(
    pre: SpawnHandlerStateData,
    post: SpawnHandlerStateData,
    now: Timestamp,
    requests: Seq<Message>,
) -> bool {
    let due = due_spawns(pre.pending_spawns@, now);
    &&& post.spawn_rules@ == pre.spawn_rules@
    &&& post.admin == pre.admin
    &&& post.pending_spawns@.len() == pre.pending_spawns@.len()
    &&& forall|i: int|
        0 <= i < pre.pending_spawns@.len() && !spawn_due(#[trigger] pre.pending_spawns@[i], now)
            ==> post.pending_spawns@[i] == pre.pending_spawns@[i]
    &&& forall|i: int|
        0 <= i < pre.pending_spawns@.len() && spawn_due(#[trigger] pre.pending_spawns@[i], now)
            ==> post.pending_spawns@[i] == (PendingSpawn {
            processed: true,
            ..pre.pending_spawns@[i]
        })
    &&& requests.len() == due.len()
    &&& forall|k: int|
        0 <= k < due.len() ==> request_for(
            #[trigger] requests[k],
            due[k].spawn_template,
            due[k].parent_market_id,
            due[k].parent_outcome,
            DEFAULT_STAKE_BASELINE,
            now,
        )
}

impl SpawnHandlerStateData {
    /// The structural invariant of the engine: rule ids are pairwise
    /// distinct, and every stored template carries a valid ratio.
    pub open spec fn wf(self) -> bool {
        &&& distinct_rule_ids(self.spawn_rules@)
        &&& forall|i: int|
            0 <= i < self.spawn_rules@.len() ==> template_valid(
                #[trigger] self.spawn_rules@[i].spawn_template,
            )
        &&& forall|i: int|
            0 <= i < self.pending_spawns@.len() ==> template_valid(
                #[trigger] self.pending_spawns@[i].spawn_template,
            )
    }

    /// A fresh, empty engine.
    pub fn new() -> (s: SpawnHandlerStateData)
        ensures
            s.wf(),
            s.spawn_rules@.len() == 0,
            s.pending_spawns@.len() == 0,
            s.admin is None,
    {
        SpawnHandlerStateData { spawn_rules: Vec::new(), pending_spawns: Vec::new(), admin: None }
    }

    /// Upserts a rule under `rule_id`, active and owned by the
    /// caller, or reports why the template is rejected.
    pub fn try_create_spawn_rule(
        &mut self,
        rule_id: String,
        trigger_condition: TriggerCondition,
        spawn_template: SpawnTemplate,
        caller: InstanceId,
    ) -> (r: Result<(), SpawnHandlerError>)
        requires
            old(self).wf(),
        ensures
            final(self).wf(),
            create_rule_transition(
                *old(self),
                *final(self),
                rule_id,
                trigger_condition,
                spawn_template,
                caller,
                r,
            ),
    {
        if spawn_template.seed_liquidity_ratio_bps > BPS_DENOMINATOR {
            return Err(SpawnHandlerError::InvalidTemplate);
        }
        let rule = SpawnRule {
            rule_id: rule_id.clone(),
            trigger_condition,
            spawn_template,
            active: true,
            created_by: caller,
        };
        match find_rule(&self.spawn_rules, &rule_id) {
            Some(i) => {
                let ghost pre_rules = self.spawn_rules@;
                self.spawn_rules.remove(i);
                self.spawn_rules.insert(i, rule);
                proof {
                    assert(self.spawn_rules@ =~= pre_rules.update(
                        i as int,
                        self.spawn_rules@[i as int],
                    ));
                }
            },
            None => {
                self.spawn_rules.push(rule);
            },
        }
        Ok(())
    }

    /// Flips the `active` flag of the rule named `rule_id`, or
    /// reports why the input is rejected.
    pub fn try_update_spawn_rule(&mut self, rule_id: String, active: bool, caller: InstanceId) -> (r:
        Result<(), SpawnHandlerError>)
        requires
            old(self).wf(),
        ensures
            final(self).wf(),
            update_rule_transition(*old(self), *final(self), rule_id, active, caller, r),
    {
        match find_rule(&self.spawn_rules, &rule_id) {
            None => Err(SpawnHandlerError::RuleNotFound),
            Some(i) => {
                let authorized: bool = self.spawn_rules[i].created_by == caller || (match &self
                    .admin {
                    Some(a) => *a == caller,
                    None => false,
                });
                if !authorized {
                    return Err(SpawnHandlerError::Unauthorized);
                }
                let ghost pre_rules = self.spawn_rules@;
                let mut rec: SpawnRule = self.spawn_rules.remove(i);
                rec.active = active;
                self.spawn_rules.insert(i, rec);
                proof {
                    assert(self.spawn_rules@ =~= pre_rules.update(
                        i as int,
                        self.spawn_rules@[i as int],
                    ));
                }
                Ok(())
            },
        }
    }

    /// Sets the admin identity and installs the two built-in rules,
    /// or reports that the engine is already initialized.
    pub fn try_initialize(&mut self, admin: InstanceId, caller: InstanceId) -> (r: Result<
        (),
        SpawnHandlerError,
    >)
        requires
            old(self).wf(),
        ensures
            final(self).wf(),
            initialize_transition(*old(self), *final(self), admin, caller, r),
    {
        if self.admin.is_some() {
            return Err(SpawnHandlerError::AlreadyInitialized);
        }
        self.admin = Some(admin);
        self.create_default_rules(caller);
        Ok(())
    }

    /// Installs the two built-in rules (political and sports
    /// follow-ons), upserting each under its id.  Their patterns are
    /// plain keywords matched as substrings; their empty outcome
    /// patterns match every outcome.
    pub fn create_default_rules(&mut self, creator: InstanceId)
        requires
            old(self).wf(),
        ensures
            final(self).wf(),
            final(self).admin == old(self).admin,
            final(self).pending_spawns@ == old(self).pending_spawns@,
            exists|r1: SpawnRule, r2: SpawnRule, mid: Seq<SpawnRule>|
                {
                    &&& is_political_rule(r1, creator)
                    &&& is_sports_rule(r2, creator)
                    &&& #[trigger] upsert_rule(old(self).spawn_rules@, mid, r1)
                    &&& #[trigger] upsert_rule(mid, final(self).spawn_rules@, r2)
                },
    {
        let mut political_outcomes: Vec<String> = Vec::new();
        political_outcomes.push(String::from_str("Significant positive impact"));
        political_outcomes.push(String::from_str("Moderate positive impact"));
        political_outcomes.push(String::from_str("No significant impact"));
        political_outcomes.push(String::from_str("Moderate negative impact"));
        political_outcomes.push(String::from_str("Significant negative impact"));
        let political = SpawnRule {
            rule_id: String::from_str("political_consequences"),
            trigger_condition: TriggerCondition::MarketResolution {
                market_pattern: String::from_str("election"),
                outcome_pattern: String::from_str(""),
            },
            spawn_template: SpawnTemplate {
                question_template: String::from_str(
                    "What will be the economic impact of {outcome}?",
                ),
                outcomes: political_outcomes,
                expiry_offset_seconds: 30 * 24 * 3600,
                seed_liquidity_ratio_bps: 1000,
            },
            active: true,
            created_by: creator,
        };
        let ghost r1 = political;
        let ghost pre_rules = self.spawn_rules@;
        self.upsert_rule_exec(political);
        let ghost mid = self.spawn_rules@;
        let mut sports_outcomes: Vec<String> = Vec::new();
        sports_outcomes.push(String::from_str("Significantly better"));
        sports_outcomes.push(String::from_str("Slightly better"));
        sports_outcomes.push(String::from_str("No change"));
        sports_outcomes.push(String::from_str("Slightly worse"));
        sports_outcomes.push(String::from_str("Significantly worse"));
        let sports = SpawnRule {
            rule_id: String::from_str("sports_aftermath"),
            trigger_condition: TriggerCondition::MarketResolution {
                market_pattern: String::from_str("championship"),
                outcome_pattern: String::from_str(""),
            },
            spawn_template: SpawnTemplate {
                question_template: String::from_str(
                    "How will {outcome} affect team performance next season?",
                ),
                outcomes: sports_outcomes,
                expiry_offset_seconds: 90 * 24 * 3600,
                seed_liquidity_ratio_bps: 500,
            },
            active: true,
            created_by: creator,
        };
        let ghost r2 = sports;
        self.upsert_rule_exec(sports);
        proof {
            assert(is_political_rule(r1, creator));
            assert(is_sports_rule(r2, creator));
            assert(upsert_rule(pre_rules, mid, r1));
            assert(upsert_rule(mid, self.spawn_rules@, r2));
        }
    }

    /// Inserts `rule` under its id, replacing any rule already
    /// carrying it.
    fn upsert_rule_exec(&mut self, rule: SpawnRule)
        requires
            old(self).wf(),
            template_valid(rule.spawn_template),
        ensures
            final(self).wf(),
            final(self).admin == old(self).admin,
            final(self).pending_spawns@ == old(self).pending_spawns@,
            upsert_rule(old(self).spawn_rules@, final(self).spawn_rules@, rule),
    {
        let ghost pre_rules = self.spawn_rules@;
        match find_rule(&self.spawn_rules, &rule.rule_id) {
            Some(i) => {
                self.spawn_rules.remove(i);
                self.spawn_rules.insert(i, rule);
                proof {
                    assert(self.spawn_rules@ =~= pre_rules.update(
                        i as int,
                        self.spawn_rules@[i as int],
                    ));
                }
            },
            None => {
                self.spawn_rules.push(rule);
            },
        }
    }

    /// Consumes a resolution notification: enqueues one pending spawn
    /// per matching active rule, and returns the immediate creation
    /// requests of the matching zero-delay rules, in rule order.
    pub fn handle_market_resolved(
        &mut self,
        market_id: String,
        question: String,
        winning_outcome: String,
        total_stake: Amount,
        now: Timestamp,
    ) -> (requests: Vec<Message>)
        requires
            old(self).wf(),
        ensures
            final(self).wf(),
            resolution_transition(
                *old(self),
                *final(self),
                market_id,
                question,
                winning_outcome,
                total_stake,
                now,
                requests@,
            ),
    {
        let ghost q = question@;
        let ghost o = winning_outcome@;
        let ghost pre_pending = self.pending_spawns@;
        let ghost rules0 = self.spawn_rules@;
        let mut requests: Vec<Message> = Vec::new();
        let mut j: usize = 0;
        proof {
            assert(rules0.subrange(0, 0) =~= Seq::<SpawnRule>::empty());
            lemma_filter_none(
                Seq::<SpawnRule>::empty(),
                |r: SpawnRule| rule_matches(r, q, o),
            );
            lemma_filter_none(
                Seq::<SpawnRule>::empty(),
                |r: SpawnRule| rule_matches(r, q, o) && spec_zero_delay(r.trigger_condition),
            );
        }
        while j < self.spawn_rules.len()
            invariant
                old(self).wf(),
                self.spawn_rules@ == rules0,
                rules0 == old(self).spawn_rules@,
                self.admin == old(self).admin,
                q == question@,
                o == winning_outcome@,
                pre_pending == old(self).pending_spawns@,
                j <= rules0.len(),
                self.wf(),
                ({
                    let matched = matching_rules(rules0.subrange(0, j as int), q, o);
                    &&& self.pending_spawns@.len() == pre_pending.len() + matched.len()
                    &&& self.pending_spawns@.subrange(0, pre_pending.len() as int) == pre_pending
                    &&& forall|k: int|
                        0 <= k < matched.len() ==> pending_for(
                            #[trigger] self.pending_spawns@[pre_pending.len() + k],
                            matched[k],
                            market_id,
                            winning_outcome,
                            now,
                        )
                }),
                ({
                    let imm = immediate_rules(rules0.subrange(0, j as int), q, o);
                    &&& requests@.len() == imm.len()
                    &&& forall|k: int|
                        0 <= k < imm.len() ==> request_for(
                            #[trigger] requests@[k],
                            imm[k].spawn_template,
                            market_id,
                            winning_outcome,
                            total_stake,
                            now,
                        )
                }),
            decreases rules0.len() - j,
        {
            proof {
                lemma_filter_prefix_step(rules0, j as int, |r: SpawnRule| rule_matches(r, q, o));
                lemma_filter_prefix_step(
                    rules0,
                    j as int,
                    |r: SpawnRule| rule_matches(r, q, o) && spec_zero_delay(r.trigger_condition),
                );
            }
            let active: bool = self.spawn_rules[j].active;
            let fired: bool = active && matches_trigger_condition(
                &self.spawn_rules[j].trigger_condition,
                question.as_str(),
                winning_outcome.as_str(),
            );
            if fired {
                let spawn_id: String = make_spawn_id(&self.spawn_rules[j].rule_id, now);
                let template: SpawnTemplate = clone_template(&self.spawn_rules[j].spawn_template);
                let pending = PendingSpawn {
                    spawn_id,
                    parent_market_id: market_id.clone(),
                    parent_outcome: winning_outcome.clone(),
                    spawn_template: template,
                    scheduled_time: now,
                    processed: false,
                };
                let ghost pre_q = self.pending_spawns@;
                self.pending_spawns.push(pending);
                proof {
                    assert(self.pending_spawns@.subrange(0, pre_pending.len() as int) =~= pre_q
                        .subrange(0, pre_pending.len() as int));
                }
                let zero_delay: bool = match &self.spawn_rules[j].trigger_condition {
                    TriggerCondition::TimeDelay { delay_seconds } => *delay_seconds == 0,
                    _ => false,
                };
                if zero_delay {
                    let question_filled: String = process_template(
                        self.spawn_rules[j].spawn_template.question_template.as_str(),
                        market_id.as_str(),
                        winning_outcome.as_str(),
                    );
                    let outcomes: Vec<String> = clone_strings(
                        &self.spawn_rules[j].spawn_template.outcomes,
                    );
                    let expiry: Timestamp = expiry_at(
                        now,
                        self.spawn_rules[j].spawn_template.expiry_offset_seconds,
                    );
                    let seed: Amount = seed_liquidity(
                        total_stake,
                        self.spawn_rules[j].spawn_template.seed_liquidity_ratio_bps,
                    );
                    requests.push(
                        Message::SpawnMarket {
                            parent_market_id: market_id.clone(),
                            question: question_filled,
                            outcomes,
                            expiry_time: expiry,
                            seed_liquidity: seed,
                        },
                    );
                }
            }
            j += 1;
        }
        proof {
            assert(rules0.subrange(0, rules0.len() as int) =~= rules0);
        }
        requests
    }

    /// The periodic sweep: promotes every due pending spawn to a
    /// creation request (in queue order, seeded from the fixed
    /// default baseline) and marks it processed.  Already-processed
    /// and not-yet-due entries are untouched, so a second sweep with
    /// no newly-due entries emits nothing.
    pub fn process_pending_spawns(&mut self, now: Timestamp) -> (requests: Vec<Message>)
        requires
            old(self).wf(),
        ensures
            final(self).wf(),
            sweep_transition(*old(self), *final(self), now, requests@),
    {
        let ghost pre_pending = self.pending_spawns@;
        let mut requests: Vec<Message> = Vec::new();
        let mut i: usize = 0;
        proof {
            assert(pre_pending.subrange(0, 0) =~= Seq::<PendingSpawn>::empty());
            lemma_filter_none(
                Seq::<PendingSpawn>::empty(),
                |p: PendingSpawn| spawn_due(p, now),
            );
        }
        while i < self.pending_spawns.len()
            invariant
                old(self).wf(),
                self.wf(),
                self.spawn_rules@ == old(self).spawn_rules@,
                self.admin == old(self).admin,
                pre_pending == old(self).pending_spawns@,
                i <= pre_pending.len(),
                self.pending_spawns@.len() == pre_pending.len(),
                forall|k: int| i <= k < pre_pending.len() ==> #[trigger] self.pending_spawns@[k]
                    == pre_pending[k],
                forall|k: int|
                    0 <= k < i && !spawn_due(#[trigger] pre_pending[k], now)
                        ==> self.pending_spawns@[k] == pre_pending[k],
                forall|k: int|
                    0 <= k < i && spawn_due(#[trigger] pre_pending[k], now)
                        ==> self.pending_spawns@[k] == (PendingSpawn {
                        processed: true,
                        ..pre_pending[k]
                    }),
                ({
                    let due = due_spawns(pre_pending.subrange(0, i as int), now);
                    &&& requests@.len() == due.len()
                    &&& forall|k: int|
                        0 <= k < due.len() ==> request_for(
                            #[trigger] requests@[k],
                            due[k].spawn_template,
                            due[k].parent_market_id,
                            due[k].parent_outcome,
                            DEFAULT_STAKE_BASELINE,
                            now,
                        )
                }),
            decreases pre_pending.len() - i,
        {
            proof {
                lemma_filter_prefix_step(
                    pre_pending,
                    i as int,
                    |p: PendingSpawn| spawn_due(p, now),
                );
            }
            let due: bool = !self.pending_spawns[i].processed && self.pending_spawns[i]
                .scheduled_time <= now;
            if due {
                let question_filled: String = process_template(
                    self.pending_spawns[i].spawn_template.question_template.as_str(),
                    self.pending_spawns[i].parent_market_id.as_str(),
                    self.pending_spawns[i].parent_outcome.as_str(),
                );
                let outcomes: Vec<String> = clone_strings(
                    &self.pending_spawns[i].spawn_template.outcomes,
                );
                let expiry: Timestamp = expiry_at(
                    now,
                    self.pending_spawns[i].spawn_template.expiry_offset_seconds,
                );
                let seed: Amount = seed_liquidity(
                    DEFAULT_STAKE_BASELINE,
                    self.pending_spawns[i].spawn_template.seed_liquidity_ratio_bps,
                );
                requests.push(
                    Message::SpawnMarket {
                        parent_market_id: self.pending_spawns[i].parent_market_id.clone(),
                        question: question_filled,
                        outcomes,
                        expiry_time: expiry,
                        seed_liquidity: seed,
                    },
                );
                let ghost pre_q = self.pending_spawns@;
                let mut rec: PendingSpawn = self.pending_spawns.remove(i);
                rec.processed = true;
                self.pending_spawns.insert(i, rec);
                proof {
                    assert(self.pending_spawns@ =~= pre_q.update(
                        i as int,
                        self.pending_spawns@[i as int],
                    ));
                }
            }
            i += 1;
        }
        proof {
            assert(pre_pending.subrange(0, pre_pending.len() as int) =~= pre_pending);
        }
        requests
    }

    /// Runs one operation, silently discarding any rejection, as the
    /// operation ABI does; the returned messages, present only for
    /// the sweep, are the emitted creation requests.
    pub fn execute_operation(
        &mut self,
        operation: Operation,
        caller: InstanceId,
        now: Timestamp,
    ) -> (requests: Vec<Message>)
        requires
            old(self).wf(),
        ensures
            final(self).wf(),
            match operation {
                Operation::Initialize { admin } => {
                    &&& requests@.len() == 0
                    &&& exists|r: Result<(), SpawnHandlerError>|
                        initialize_transition(*old(self), *final(self), admin, caller, r)
                },
                Operation::CreateSpawnRule { rule_id, trigger_condition, spawn_template } => {
                    &&& requests@.len() == 0
                    &&& exists|r: Result<(), SpawnHandlerError>|
                        create_rule_transition(
                            *old(self),
                            *final(self),
                            rule_id,
                            trigger_condition,
                            spawn_template,
                            caller,
                            r,
                        )
                },
                Operation::UpdateSpawnRule { rule_id, active } => {
                    &&& requests@.len() == 0
                    &&& exists|r: Result<(), SpawnHandlerError>|
                        update_rule_transition(
                            *old(self),
                            *final(self),
                            rule_id,
                            active,
                            caller,
                            r,
                        )
                },
                Operation::ProcessPendingSpawns => sweep_transition(
                    *old(self),
                    *final(self),
                    now,
                    requests@,
                ),
            },
    {
        match operation {
            Operation::Initialize { admin } => {
                let r = self.try_initialize(admin, caller);
                proof {
                    assert(initialize_transition(*old(self), *self, admin, caller, r));
                }
                Vec::new()
            },
            Operation::CreateSpawnRule { rule_id, trigger_condition, spawn_template } => {
                let ghost rid = rule_id;
                let ghost tc = trigger_condition;
                let ghost st = spawn_template;
                let r = self.try_create_spawn_rule(rule_id, trigger_condition, spawn_template, caller);
                proof {
                    assert(create_rule_transition(*old(self), *self, rid, tc, st, caller, r));
                }
                Vec::new()
            },
            Operation::UpdateSpawnRule { rule_id, active } => {
                let ghost rid = rule_id;
                let r = self.try_update_spawn_rule(rule_id, active, caller);
                proof {
                    assert(update_rule_transition(*old(self), *self, rid, active, caller, r));
                }
                Vec::new()
            },
            Operation::ProcessPendingSpawns => self.process_pending_spawns(now),
        }
    }

    /// Consumes one inbound message: a resolution notification is
    /// handled as [`Self::handle_market_resolved`]; an (outbound)
    /// creation request is ignored.
    pub fn execute_message(&mut self, message: Message, now: Timestamp) -> (requests: Vec<Message>)
        requires
            old(self).wf(),
        ensures
            final(self).wf(),
            match message {
                Message::MarketResolved { market_id, question, winning_outcome, total_stake } => resolution_transition(
                    *old(self),
                    *final(self),
                    market_id,
                    question,
                    winning_outcome,
                    total_stake,
                    now,
                    requests@,
                ),
                Message::SpawnMarket { .. } => *final(self) == *old(self) && requests@.len() == 0,
            },
    {
        match message {
            Message::MarketResolved { market_id, question, winning_outcome, total_stake } => {
                self.handle_market_resolved(market_id, question, winning_outcome, total_stake, now)
            },
            Message::SpawnMarket { .. } => Vec::new(),
        }
    }
}

/// A second sweep at the same time as a completed one finds nothing
/// due, emits no creation request, and changes nothing.
pub proof fn lemma_sweep_idempotent(
    s0: SpawnHandlerStateData,
    s1: SpawnHandlerStateData,
    s2: SpawnHandlerStateData,
    now: Timestamp,
    reqs1: Seq<Message>,
    reqs2: Seq<Message>,
)
    requires
        sweep_transition(s0, s1, now, reqs1),
        sweep_transition(s1, s2, now, reqs2),
    ensures
        reqs2.len() == 0,
        s2.pending_spawns@ == s1.pending_spawns@,
        s2.spawn_rules@ == s1.spawn_rules@,
        s2.admin == s1.admin,
{
    assert forall|i: int| 0 <= i < s1.pending_spawns@.len() implies !spawn_due(
        #[trigger] s1.pending_spawns@[i],
        now,
    ) by {
        if spawn_due(s0.pending_spawns@[i], now) {
            assert(s1.pending_spawns@[i] == (PendingSpawn {
                processed: true,
                ..s0.pending_spawns@[i]
            }));
        } else {
            assert(s1.pending_spawns@[i] == s0.pending_spawns@[i]);
        }
    }
    lemma_filter_none(s1.pending_spawns@, |p: PendingSpawn| spawn_due(p, now));
    assert(due_spawns(s1.pending_spawns@, now).len() == 0);
    assert(s2.pending_spawns@ =~= s1.pending_spawns@);
}

} // verus!
