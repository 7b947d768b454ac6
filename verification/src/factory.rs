//! The registry of created markets: it records one [`MarketInfo`]
//! snapshot per market, keeps parent/child links, and answers tree
//! queries.
//!
//! The registry never mutates bet data: it is a read registry over
//! facts reported to it.  Because cross-instance registration order is
//! not guaranteed, a child carrying a parent id that is not (yet)
//! registered is accepted silently, without a back-link.
//! [`FactoryStateData::get_market_tree`] guards against cycles in the
//! reported child lists: a revisited market stops the descent, so the
//! walk terminates and never produces a duplicate node.

use crate::base::{InstanceId, Timestamp};
use crate::text::{
    clone_opt_string, clone_strings, contains_str, distinct_strs, has_str, spec_decimal, str_chars,
    chars_string, push_all, u64_decimal,
};
use vstd::prelude::*;
use vstd::pervasive::VecAdditionalExecFns;
use vstd::seq_lib::*;
use vstd::set_lib::{lemma_int_range, lemma_len_subset, set_int_range};

verus! {

/// The registry's denormalized snapshot of one market's identity
/// fields and links.
#[derive(Debug)]
pub struct MarketInfo {
    pub market_id: String,
    pub chain_id: InstanceId,
    pub question: String,
    pub outcomes: Vec<String>,
    pub parent_market_id: Option<String>,
    pub child_markets: Vec<String>,
    pub created_at: Timestamp,
    pub creator: InstanceId,
    pub resolved: bool,
}

/// Operations the registry accepts.
#[derive(Debug)]
pub enum Operation {
    Initialize { admin: InstanceId },
    CreateMarket {
        question: String,
        outcomes: Vec<String>,
        expiry_time: Timestamp,
        parent_market_id: Option<String>,
    },
    RegisterMarket { market_info: MarketInfo },
}

/// Messages exchanged with the other instances.
#[derive(Clone, Debug)]
pub enum Message {
    SpawnSubMarket {
        parent_market_id: String,
        parent_outcome: String,
        new_question: String,
        new_outcomes: Vec<String>,
        seed_liquidity: u64,
    },
    MarketResolved { market_id: String, winning_outcome: String },
}

/// Registry errors, one per rejected-input condition.
#[derive(Clone, Copy, PartialEq, Eq, Structural, Debug)]
pub enum FactoryError {
    Unauthorized,
    MarketNotFound,
    InvalidParameters,
    MarketAlreadyExists,
    AlreadyInitialized,
}

impl FactoryError {
    /// A human-readable description of the error.
    pub fn message(&self) -> (m: &'static str) {
        match self {
            FactoryError::Unauthorized => "Unauthorized",
            FactoryError::MarketNotFound => "Market not found",
            FactoryError::InvalidParameters => "Invalid parameters",
            FactoryError::MarketAlreadyExists => "Market already exists",
            FactoryError::AlreadyInitialized => "Already initialized",
        }
    }
}

/// Opaque acknowledgement returned by the operation ABI: an empty
/// payload.
#[derive(Clone, Debug)]
pub struct ResponseBytes(pub Vec<u8>);

/// Static configuration of the registry instance (none is needed).
#[derive(Clone, Copy, Debug)]
pub struct Parameters;

/// Marker tying the registry to its operation and response types.
#[derive(Clone, Copy, Debug)]
pub struct FactoryAbi;

/// One node of a market tree: a market snapshot and the subtrees of
/// its (registered, not previously visited) children.
#[derive(Debug)]
pub struct MarketTree {
    pub market: MarketInfo,
    pub children: Vec<MarketTree>,
}

/// Whether some registered market carries the id `id`.
pub open spec fn has_market(ms: Seq<MarketInfo>, id: Seq<char>) -> bool {
    exists|i: int| 0 <= i < ms.len() && #[trigger] ms[i].market_id@ == id
}

/// Whether the registered market ids are pairwise distinct.
pub open spec fn distinct_market_ids(ms: Seq<MarketInfo>) -> bool {
    forall|p: int, q: int|
        #![trigger ms[p], ms[q]]
        0 <= p < q < ms.len() ==> ms[p].market_id@ != ms[q].market_id@
}

/// Whether `a` and `b` record the same market: every field agrees
/// (list fields as sequences).
pub open spec fn same_market_info(a: MarketInfo, b: MarketInfo) -> bool {
    &&& a.market_id == b.market_id
    &&& a.chain_id == b.chain_id
    &&& a.question == b.question
    &&& a.outcomes@ == b.outcomes@
    &&& a.parent_market_id == b.parent_market_id
    &&& a.child_markets@ == b.child_markets@
    &&& a.created_at == b.created_at
    &&& a.creator == b.creator
    &&& a.resolved == b.resolved
}

/// The ids of the nodes of `t`, in visiting (pre-)order.
pub open spec fn tree_ids(t: MarketTree) -> Seq<String>
    decreases t,
{
    seq![t.market.market_id] + forest_ids(t.children@)
}

/// The ids of the nodes of the trees of `ts`, in visiting order.
pub open spec fn forest_ids(ts: Seq<MarketTree>) -> Seq<String>
    decreases ts,
{
    if ts.len() == 0 {
        Seq::empty()
    } else {
        tree_ids(ts[0]) + forest_ids(ts.drop_first())
    }
}

/// Every node of `t` records a market registered in `ms`.
pub open spec fn tree_records_ok(t: MarketTree, ms: Seq<MarketInfo>) -> bool
    decreases t,
{
    &&& exists|i: int| 0 <= i < ms.len() && same_market_info(t.market, #[trigger] ms[i])
    &&& forall|j: int|
        0 <= j < t.children@.len() ==> tree_records_ok(#[trigger] t.children@[j], ms)
}

proof fn lemma_forest_ids_push(ts: Seq<MarketTree>, t: MarketTree)
    ensures
        forest_ids(ts.push(t)) == forest_ids(ts) + tree_ids(t),
    decreases ts.len(),
{
    if ts.len() == 0 {
        assert(ts.push(t)[0] == t);
        assert(ts.push(t).drop_first() =~= Seq::<MarketTree>::empty());
        assert(forest_ids(Seq::<MarketTree>::empty()) == Seq::<String>::empty());
        assert(forest_ids(ts) == Seq::<String>::empty());
        assert(forest_ids(ts.push(t)) == tree_ids(t) + Seq::<String>::empty());
        assert(tree_ids(t) + Seq::<String>::empty() =~= tree_ids(t));
        assert(forest_ids(ts) + tree_ids(t) =~= tree_ids(t));
    } else {
        assert(ts.push(t)[0] == ts[0]);
        assert(ts.push(t).drop_first() =~= ts.drop_first().push(t));
        lemma_forest_ids_push(ts.drop_first(), t);
        assert(forest_ids(ts.push(t)) == tree_ids(ts[0]) + forest_ids(ts.drop_first().push(t)));
        assert(forest_ids(ts) == tree_ids(ts[0]) + forest_ids(ts.drop_first()));
        assert((tree_ids(ts[0]) + forest_ids(ts.drop_first())) + tree_ids(t) =~= tree_ids(ts[0])
            + (forest_ids(ts.drop_first()) + tree_ids(t)));
    }
}

/// Pairwise-distinct ids that all occur among pairwise-distinct
/// registered markets are no more numerous than the markets.
proof fn lemma_distinct_ids_bound(v: Seq<String>, ms: Seq<MarketInfo>)
    requires
        distinct_strs(v),
        forall|i: int| 0 <= i < v.len() ==> has_market(ms, #[trigger] v[i]@),
        distinct_market_ids(ms),
    ensures
        v.len() <= ms.len(),
{
    let f = |s: String| choose|j: int| 0 <= j < ms.len() && ms[j].market_id@ == s@;
    let idx = v.map_values(f);
    assert forall|i: int| 0 <= i < idx.len() implies 0 <= #[trigger] idx[i] < ms.len() by {
        assert(has_market(ms, v[i]@));
    }
    assert forall|i: int, j: int|
        0 <= i < idx.len() && 0 <= j < idx.len() && i != j implies idx[i] != idx[j] by {
        assert(has_market(ms, v[i]@));
        assert(has_market(ms, v[j]@));
        assert(ms[f(v[i])].market_id@ == v[i]@);
        assert(ms[f(v[j])].market_id@ == v[j]@);
        if i < j {
            assert(v[i]@ != v[j]@);
        } else {
            assert(v[j]@ != v[i]@);
        }
    }
    idx.unique_seq_to_set();
    assert(idx.to_set().subset_of(set_int_range(0, ms.len() as int))) by {
        assert forall|x: int| idx.to_set().contains(x) implies set_int_range(
            0,
            ms.len() as int,
        ).contains(x) by {
            let i = choose|i: int| 0 <= i < idx.len() && idx[i] == x;
        }
    }
    lemma_int_range(0, ms.len() as int);
    lemma_len_subset(idx.to_set(), set_int_range(0, ms.len() as int));
}

/// A field-wise copy of `m`.
pub fn clone_market_info(m: &MarketInfo) -> (r: MarketInfo)
    ensures
        same_market_info(r, *m),
{
    MarketInfo {
        market_id: m.market_id.clone(),
        chain_id: m.chain_id,
        question: m.question.clone(),
        outcomes: clone_strings(&m.outcomes),
        parent_market_id: clone_opt_string(&m.parent_market_id),
        child_markets: clone_strings(&m.child_markets),
        created_at: m.created_at,
        creator: m.creator,
        resolved: m.resolved,
    }
}

/// The position of the market with id `id`, if one is registered.
pub fn find_market(ms: &Vec<MarketInfo>, id: &String) -> (r: Option<usize>)
    ensures
        match r {
            Some(i) => i < ms@.len() && ms@[i as int].market_id@ == id@,
            None => !has_market(ms@, id@),
        },
{
    let mut i: usize = 0;
    while i < ms.len()
        invariant
            i <= ms@.len(),
            forall|j: int| 0 <= j < i ==> #[trigger] ms@[j].market_id@ != id@,
        decreases ms@.len() - i,
    {
        if ms[i].market_id == *id {
            return Some(i);
        }
        i += 1;
    }
    None
}

/// The generated id of the `n`-th created market.
pub open spec fn spec_market_id(n: u64) -> Seq<char> {
    "market_"@ + spec_decimal(n as int)
}

/// Builds the generated id of the `n`-th created market.
pub fn make_market_id(n: u64) -> (s: String)
    ensures
        s@ == spec_market_id(n),
{
    let mut v: Vec<char> = str_chars("market_");
    let digits: Vec<char> = u64_decimal(n);
    push_all(&mut v, &digits);
    chars_string(&v)
}

/// The full state of the registry instance.
#[derive(Debug)]
pub struct FactoryStateData {
    pub markets: Vec<MarketInfo>,
    pub market_count: u64,
    pub admin: Option<InstanceId>,
}

/// `post` is `pre` with `info` inserted under its id: appended if the
/// id is new, otherwise replacing the record already carrying it.
pub open spec fn upsert_market(pre: Seq<MarketInfo>, post: Seq<MarketInfo>, info: MarketInfo) -> bool {
    if has_market(pre, info.market_id@) {
        exists|i: int|
            0 <= i < pre.len() && #[trigger] pre[i].market_id@ == info.market_id@ && post
                == pre.update(i, info)
    } else {
        post == pre.push(info)
    }
}

/// `post` is `pre` with `child_id` appended to the child list of the
/// market named by `parent_id`, when that parent is registered; `pre`
/// unchanged otherwise (a dangling parent reference is accepted
/// silently).
pub open spec fn child_link(
    pre: Seq<MarketInfo>,
    post: Seq<MarketInfo>,
    parent_id: Option<String>,
    child_id: String,
) -> bool {
    match parent_id {
        None => post == pre,
        Some(pid) => {
            if has_market(pre, pid@) {
                exists|i: int|
                    {
                        &&& 0 <= i < pre.len()
                        &&& #[trigger] pre[i].market_id@ == pid@
                        &&& post.len() == pre.len()
                        &&& (forall|j: int| 0 <= j < pre.len() && j != i ==> post[j] == pre[j])
                        &&& post[i] == (MarketInfo {
                            child_markets: post[i].child_markets,
                            ..pre[i]
                        })
                        &&& post[i].child_markets@ == pre[i].child_markets@.push(child_id)
                    }
            } else {
                post == pre
            }
        },
    }
}

/// Exactly what initialization does: the admin identity is set once;
/// a second attempt is rejected and leaves the state unchanged.
pub open spec fn initialize_transition(
    pre: FactoryStateData,
    post: FactoryStateData,
    admin: InstanceId,
    r: Result<(), FactoryError>,
) -> bool {
    &&& (r is Ok <==> pre.admin is None)
    &&& r is Err ==> post == pre && (r matches Err(e) && e == FactoryError::AlreadyInitialized)
    &&& r is Ok ==> post == (FactoryStateData { admin: Some(admin), ..pre })
}

/// Exactly when market creation succeeds, and what it does: rejected
/// on fewer than two outcomes; otherwise a fresh record under the
/// generated id `market_<count>` is inserted, the counter grows
/// (saturating), and the named parent, if registered, gains the new
/// id in its child list.  The expiry time is accepted but not
/// recorded: a [`MarketInfo`] carries no expiry field.
pub open spec fn create_market_transition(
    pre: FactoryStateData,
    post: FactoryStateData,
    question: String,
    outcomes: Vec<String>,
    parent_market_id: Option<String>,
    caller: InstanceId,
    now: Timestamp,
    r: Result<String, FactoryError>,
) -> bool {
    &&& (r is Ok <==> outcomes@.len() >= 2)
    &&& r is Err ==> post == pre && (r matches Err(e) && e == FactoryError::InvalidParameters)
    &&& r matches Ok(id) ==> {
        &&& id@ == spec_market_id(pre.market_count)
        &&& post.market_count == pre.market_count.saturating_add(1)
        &&& post.admin == pre.admin
        &&& exists|info: MarketInfo, mid: Seq<MarketInfo>|
            {
                &&& info.market_id == id
                &&& info.chain_id == caller
                &&& info.question == question
                &&& info.outcomes == outcomes
                &&& info.parent_market_id == parent_market_id
                &&& info.child_markets@.len() == 0
                &&& info.created_at == now
                &&& info.creator == caller
                &&& info.resolved == false
                &&& #[trigger] upsert_market(pre.markets@, mid, info)
                &&& child_link(mid, post.markets@, parent_market_id, id)
            }
    }
}

/// Exactly when registration succeeds, and what it does: rejected when
/// the id is already present; otherwise the record is appended and the
/// named parent, if registered, gains the new id in its child list.
pub open spec fn register_transition(
    pre: FactoryStateData,
    post: FactoryStateData,
    info: MarketInfo,
    r: Result<(), FactoryError>,
) -> bool {
    &&& (r is Ok <==> !has_market(pre.markets@, info.market_id@))
    &&& r is Err ==> post == pre && (r matches Err(e) && e == FactoryError::MarketAlreadyExists)
    &&& r is Ok ==> {
        &&& post.market_count == pre.market_count
        &&& post.admin == pre.admin
        &&& child_link(
            pre.markets@.push(info),
            post.markets@,
            info.parent_market_id,
            info.market_id,
        )
    }
}

impl FactoryStateData {
    /// The structural invariant of the registry: registered market ids
    /// are pairwise distinct.
    pub open spec fn wf(self) -> bool {
        distinct_market_ids(self.markets@)
    }

    /// A fresh, empty registry.
    pub fn new() -> (s: FactoryStateData)
        ensures
            s.wf(),
            s.markets@.len() == 0,
            s.market_count == 0,
            s.admin is None,
    {
        FactoryStateData { markets: Vec::new(), market_count: 0, admin: None }
    }

    /// Sets the admin identity, or reports that one is already set.
    pub fn try_initialize(&mut self, admin: InstanceId) -> (r: Result<(), FactoryError>)
        requires
            old(self).wf(),
        ensures
            final(self).wf(),
            initialize_transition(*old(self), *final(self), admin, r),
    {
        if self.admin.is_some() {
            return Err(FactoryError::AlreadyInitialized);
        }
        self.admin = Some(admin);
        Ok(())
    }

    /// Creates a market record under a generated id, or reports why
    /// the input is rejected; on success the generated id is returned.
    pub fn try_create_market(
        &mut self,
        question: String,
        outcomes: Vec<String>,
        expiry_time: Timestamp,
        parent_market_id: Option<String>,
        caller: InstanceId,
        now: Timestamp,
    ) -> (r: Result<String, FactoryError>)
        requires
            old(self).wf(),
        ensures
            final(self).wf(),
            create_market_transition(
                *old(self),
                *final(self),
                question,
                outcomes,
                parent_market_id,
                caller,
                now,
                r,
            ),
    {
        let _ = expiry_time;
        if outcomes.len() < 2 {
            return Err(FactoryError::InvalidParameters);
        }
        let id: String = make_market_id(self.market_count);
        self.market_count = self.market_count.saturating_add(1);
        let info = MarketInfo {
            market_id: id.clone(),
            chain_id: caller,
            question,
            outcomes,
            parent_market_id: clone_opt_string(&parent_market_id),
            child_markets: Vec::new(),
            created_at: now,
            creator: caller,
            resolved: false,
        };
        let ghost info_g = info;
        let ghost pre_markets = self.markets@;
        match find_market(&self.markets, &id) {
            Some(i) => {
                self.markets.set(i, info);
            },
            None => {
                self.markets.push(info);
            },
        }
        let ghost mid = self.markets@;
        proof {
            assert(upsert_market(pre_markets, mid, info_g));
        }
        self.link_child(&parent_market_id, &id);
        proof {
            assert(child_link(mid, self.markets@, parent_market_id, id));
        }
        Ok(id)
    }

    /// Appends `child_id` to the child list of the market named by
    /// `parent_id`, when that parent is registered.
    fn link_child(&mut self, parent_id: &Option<String>, child_id: &String)
        requires
            old(self).wf(),
        ensures
            final(self).wf(),
            child_link(old(self).markets@, final(self).markets@, *parent_id, *child_id),
            final(self).market_count == old(self).market_count,
            final(self).admin == old(self).admin,
    {
        match parent_id {
            None => {},
            Some(pid) => {
                match find_market(&self.markets, pid) {
                    None => {},
                    Some(pi) => {
                        let ghost pre_markets = self.markets@;
                        let mut rec: MarketInfo = self.markets.remove(pi);
                        rec.child_markets.push(child_id.clone());
                        self.markets.insert(pi, rec);
                        proof {
                            assert(self.markets@ =~= pre_markets.update(
                                pi as int,
                                self.markets@[pi as int],
                            ));
                        }
                    },
                }
            },
        }
    }

    /// Registers a reported market record, or reports that its id is
    /// already present.
    pub fn try_register_market(&mut self, market_info: MarketInfo) -> (r: Result<
        (),
        FactoryError,
    >)
        requires
            old(self).wf(),
        ensures
            final(self).wf(),
            register_transition(*old(self), *final(self), market_info, r),
    {
        if find_market(&self.markets, &market_info.market_id).is_some() {
            return Err(FactoryError::MarketAlreadyExists);
        }
        let parent: Option<String> = clone_opt_string(&market_info.parent_market_id);
        let child_id: String = market_info.market_id.clone();
        self.markets.push(market_info);
        self.link_child(&parent, &child_id);
        Ok(())
    }

    /// Runs one operation, silently discarding any rejection, as the
    /// operation ABI does.  The registry emits no messages.
    pub fn execute_operation(&mut self, operation: Operation, caller: InstanceId, now: Timestamp)
        requires
            old(self).wf(),
        ensures
            final(self).wf(),
            match operation {
                Operation::Initialize { admin } => exists|r: Result<(), FactoryError>|
                    initialize_transition(*old(self), *final(self), admin, r),
                Operation::CreateMarket { question, outcomes, expiry_time, parent_market_id } => exists|
                    r: Result<String, FactoryError>,
                |
                    create_market_transition(
                        *old(self),
                        *final(self),
                        question,
                        outcomes,
                        parent_market_id,
                        caller,
                        now,
                        r,
                    ),
                Operation::RegisterMarket { market_info } => exists|r: Result<(), FactoryError>|
                    register_transition(*old(self), *final(self), market_info, r),
            },
    {
        match operation {
            Operation::Initialize { admin } => {
                let r = self.try_initialize(admin);
                proof {
                    assert(initialize_transition(*old(self), *self, admin, r));
                }
            },
            Operation::CreateMarket { question, outcomes, expiry_time, parent_market_id } => {
                let ghost q = question;
                let ghost o = outcomes;
                let ghost p = parent_market_id;
                let r = self.try_create_market(
                    question,
                    outcomes,
                    expiry_time,
                    parent_market_id,
                    caller,
                    now,
                );
                proof {
                    assert(create_market_transition(*old(self), *self, q, o, p, caller, now, r));
                }
            },
            Operation::RegisterMarket { market_info } => {
                let ghost mi = market_info;
                let r = self.try_register_market(market_info);
                proof {
                    assert(register_transition(*old(self), *self, mi, r));
                }
            },
        }
    }

    /// A copy of the record registered under `id`, or "not found".
    pub fn get_market_by_id(&self, id: &String) -> (r: Result<MarketInfo, FactoryError>)
        ensures
            r is Ok <==> has_market(self.markets@, id@),
            r matches Err(e) ==> e == FactoryError::MarketNotFound,
            r matches Ok(m) ==> exists|i: int|
                0 <= i < self.markets@.len() && #[trigger] self.markets@[i].market_id@ == id@
                    && same_market_info(m, self.markets@[i]),
    {
        match find_market(&self.markets, id) {
            None => Err(FactoryError::MarketNotFound),
            Some(i) => Ok(clone_market_info(&self.markets[i])),
        }
    }

    /// A copy of the child list of the market registered under
    /// `parent_id`, or "not found".
    pub fn get_child_markets(&self, parent_id: &String) -> (r: Result<Vec<String>, FactoryError>)
        ensures
            r is Ok <==> has_market(self.markets@, parent_id@),
            r matches Err(e) ==> e == FactoryError::MarketNotFound,
            r matches Ok(c) ==> exists|i: int|
                0 <= i < self.markets@.len() && #[trigger] self.markets@[i].market_id@ == parent_id@
                    && c@ == self.markets@[i].child_markets@,
    {
        match find_market(&self.markets, parent_id) {
            None => Err(FactoryError::MarketNotFound),
            Some(i) => Ok(clone_strings(&self.markets[i].child_markets)),
        }
    }

    /// The ids of all registered markets, in registration order.
    pub fn market_ids(&self) -> (r: Vec<String>)
        ensures
            r@.len() == self.markets@.len(),
            forall|i: int| 0 <= i < r@.len() ==> #[trigger] r@[i] == self.markets@[i].market_id,
    {
        let mut r: Vec<String> = Vec::new();
        let mut i: usize = 0;
        while i < self.markets.len()
            invariant
                i <= self.markets@.len(),
                r@.len() == i,
                forall|j: int| 0 <= j < i ==> #[trigger] r@[j] == self.markets@[j].market_id,
            decreases self.markets@.len() - i,
        {
            r.push(self.markets[i].market_id.clone());
            i += 1;
        }
        r
    }

    /// The tree reachable from the market registered under `root_id`,
    /// or "not found".  The walk stops at any market it has already
    /// visited, so it terminates and produces no duplicate node even
    /// if the reported child lists contain cycles or repetitions.
    pub fn get_market_tree(&self, root_id: &String) -> (r: Result<MarketTree, FactoryError>)
        requires
            self.wf(),
        ensures
            r is Ok <==> has_market(self.markets@, root_id@),
            r matches Err(e) ==> e == FactoryError::MarketNotFound,
            r matches Ok(t) ==> {
                &&& same_market_info(
                    t.market,
                    self.markets@[choose|i: int|
                        0 <= i < self.markets@.len() && #[trigger] self.markets@[i].market_id@
                            == root_id@],
                )
                &&& t.market.market_id@ == root_id@
                &&& distinct_strs(tree_ids(t))
                &&& tree_records_ok(t, self.markets@)
            },
    {
        match find_market(&self.markets, root_id) {
            None => Err(FactoryError::MarketNotFound),
            Some(i) => {
                let mut visited: Vec<String> = Vec::new();
                let t: MarketTree = build_tree(&self.markets, i, &mut visited);
                proof {
                    assert(visited@ =~= tree_ids(t));
                    let j = choose|j: int|
                        0 <= j < self.markets@.len() && #[trigger] self.markets@[j].market_id@
                            == root_id@;
                    assert(self.markets@[j].market_id@ == self.markets@[i as int].market_id@);
                }
                Ok(t)
            },
        }
    }
}

/// Builds the subtree rooted at position `root`, recording every
/// visited market id in `visited` and never descending into one
/// already there.
fn build_tree(markets: &Vec<MarketInfo>, root: usize, visited: &mut Vec<String>) -> (t: MarketTree)
    requires
        distinct_market_ids(markets@),
        root < markets@.len(),
        distinct_strs(old(visited)@),
        forall|i: int|
            0 <= i < old(visited)@.len() ==> has_market(markets@, #[trigger] old(visited)@[i]@),
        !has_str(old(visited)@, markets@[root as int].market_id@),
    ensures
        final(visited)@ == old(visited)@ + tree_ids(t),
        same_market_info(t.market, markets@[root as int]),
        distinct_strs(final(visited)@),
        forall|i: int|
            0 <= i < final(visited)@.len() ==> has_market(markets@, #[trigger] final(visited)@[i]@),
        tree_records_ok(t, markets@),
    decreases markets@.len() - visited@.len(),
{
    let m: MarketInfo = clone_market_info(&markets[root]);
    visited.push(markets[root].market_id.clone());
    let ghost base = visited@;
    proof {
        assert(base =~= old(visited)@ + seq![m.market_id]);
    }
    let mut children: Vec<MarketTree> = Vec::new();
    proof {
        assert(base + forest_ids(children@) =~= base);
    }
    let mut c: usize = 0;
    while c < markets[root].child_markets.len()
        invariant
            distinct_market_ids(markets@),
            root < markets@.len(),
            c <= markets@[root as int].child_markets@.len(),
            same_market_info(m, markets@[root as int]),
            base == old(visited)@ + seq![m.market_id],
            visited@ == base + forest_ids(children@),
            distinct_strs(visited@),
            forall|i: int|
                0 <= i < visited@.len() ==> has_market(markets@, #[trigger] visited@[i]@),
            forall|j: int|
                0 <= j < children@.len() ==> tree_records_ok(#[trigger] children@[j], markets@),
        decreases markets@[root as int].child_markets@.len() - c,
    {
        let child_id: &String = &markets[root].child_markets[c];
        match find_market(markets, child_id) {
            None => {},
            Some(ci) => {
                if !contains_str(visited, child_id) {
                    proof {
                        lemma_distinct_ids_bound(visited@, markets@);
                    }
                    let ghost pre_children = children@;
                    let sub: MarketTree = build_tree(markets, ci, visited);
                    proof {
                        lemma_forest_ids_push(pre_children, sub);
                        assert(visited@ =~= base + forest_ids(pre_children.push(sub)));
                    }
                    children.push(sub);
                }
            },
        }
        c += 1;
    }
    let t = MarketTree { market: m, children };
    proof {
        assert(tree_ids(t) == seq![t.market.market_id] + forest_ids(t.children@));
        assert(visited@ =~= old(visited)@ + tree_ids(t));
    }
    t
}

} // verus!
