use prediction_markets::base::InstanceId;
use prediction_markets::factory::{
    FactoryError, FactoryStateData, MarketInfo, MarketTree, Operation,
};

fn s(x: &str) -> String {
    x.to_string()
}

fn info(id: &str, parent: Option<&str>, children: Vec<&str>) -> MarketInfo {
    MarketInfo {
        market_id: s(id),
        chain_id: InstanceId(1),
        question: s("q"),
        outcomes: vec![s("Yes"), s("No")],
        parent_market_id: parent.map(s),
        child_markets: children.into_iter().map(s).collect(),
        created_at: 0,
        creator: InstanceId(1),
        resolved: false,
    }
}

fn collect_ids(t: &MarketTree, out: &mut Vec<String>) {
    out.push(t.market.market_id.clone());
    for c in &t.children {
        collect_ids(c, out);
    }
}

#[test]
fn initialize_sets_admin_once() {
    let mut f = FactoryStateData::new();
    assert!(f.try_initialize(InstanceId(7)).is_ok());
    assert_eq!(f.admin, Some(InstanceId(7)));
    let r = f.try_initialize(InstanceId(8));
    assert_eq!(r, Err(FactoryError::AlreadyInitialized));
    assert_eq!(f.admin, Some(InstanceId(7)));
}

#[test]
fn create_market_generates_sequential_ids() {
    let mut f = FactoryStateData::new();
    let id0 = f
        .try_create_market(s("q0"), vec![s("a"), s("b")], 0, None, InstanceId(1), 5)
        .unwrap();
    let id1 = f
        .try_create_market(s("q1"), vec![s("a"), s("b")], 0, None, InstanceId(1), 6)
        .unwrap();
    assert_eq!(id0, "market_0");
    assert_eq!(id1, "market_1");
    assert_eq!(f.market_count, 2);
    assert_eq!(f.market_ids(), vec![s("market_0"), s("market_1")]);
}

#[test]
fn create_market_rejects_few_outcomes() {
    let mut f = FactoryStateData::new();
    let r = f.try_create_market(s("q"), vec![s("only")], 0, None, InstanceId(1), 5);
    assert_eq!(r, Err(FactoryError::InvalidParameters));
    assert_eq!(f.market_count, 0);
    assert!(f.markets.is_empty());
}

#[test]
fn create_market_links_child_to_registered_parent() {
    let mut f = FactoryStateData::new();
    let parent = f
        .try_create_market(s("root"), vec![s("a"), s("b")], 0, None, InstanceId(1), 5)
        .unwrap();
    let child = f
        .try_create_market(s("leaf"), vec![s("a"), s("b")], 0, Some(parent.clone()), InstanceId(1), 6)
        .unwrap();
    let children = f.get_child_markets(&parent).unwrap();
    assert_eq!(children, vec![child.clone()]);
    let rec = f.get_market_by_id(&child).unwrap();
    assert_eq!(rec.parent_market_id, Some(parent));
}

#[test]
fn register_market_rejects_duplicate_id() {
    let mut f = FactoryStateData::new();
    assert!(f.try_register_market(info("m_a", None, vec![])).is_ok());
    let r = f.try_register_market(info("m_a", None, vec![]));
    assert_eq!(r, Err(FactoryError::MarketAlreadyExists));
    assert_eq!(f.markets.len(), 1);
}

#[test]
fn register_market_accepts_dangling_parent_silently() {
    let mut f = FactoryStateData::new();
    assert!(f.try_register_market(info("m_child", Some("m_parent"), vec![])).is_ok());
    assert!(f.get_market_by_id(&s("m_child")).is_ok());
    assert!(f.try_register_market(info("m_parent", None, vec![])).is_ok());
    // The back-link is not reconciled after the fact.
    assert_eq!(f.get_child_markets(&s("m_parent")).unwrap(), Vec::<String>::new());
}

#[test]
fn register_market_links_child_to_registered_parent() {
    let mut f = FactoryStateData::new();
    assert!(f.try_register_market(info("m_parent", None, vec![])).is_ok());
    assert!(f.try_register_market(info("m_child", Some("m_parent"), vec![])).is_ok());
    assert_eq!(f.get_child_markets(&s("m_parent")).unwrap(), vec![s("m_child")]);
}

#[test]
fn lookups_fail_with_not_found() {
    let f = FactoryStateData::new();
    assert_eq!(f.get_market_by_id(&s("nope")).unwrap_err(), FactoryError::MarketNotFound);
    assert_eq!(f.get_child_markets(&s("nope")).unwrap_err(), FactoryError::MarketNotFound);
    assert_eq!(f.get_market_tree(&s("nope")).unwrap_err(), FactoryError::MarketNotFound);
}

#[test]
fn tree_follows_children() {
    let mut f = FactoryStateData::new();
    assert!(f.try_register_market(info("m_root", None, vec!["m_a", "m_b"])).is_ok());
    assert!(f.try_register_market(info("m_a", Some("m_root"), vec!["m_a1"])).is_ok());
    assert!(f.try_register_market(info("m_b", Some("m_root"), vec![])).is_ok());
    assert!(f.try_register_market(info("m_a1", Some("m_a"), vec![])).is_ok());
    let t = f.get_market_tree(&s("m_root")).unwrap();
    assert_eq!(t.market.market_id, "m_root");
    assert_eq!(t.children.len(), 2);
    assert_eq!(t.children[0].market.market_id, "m_a");
    assert_eq!(t.children[0].children.len(), 1);
    assert_eq!(t.children[0].children[0].market.market_id, "m_a1");
    assert_eq!(t.children[1].market.market_id, "m_b");
    let mut ids = Vec::new();
    collect_ids(&t, &mut ids);
    assert_eq!(ids, vec![s("m_root"), s("m_a"), s("m_a1"), s("m_b")]);
}

#[test]
fn tree_ignores_unregistered_children() {
    let mut f = FactoryStateData::new();
    assert!(f.try_register_market(info("m_root", None, vec!["m_ghost"])).is_ok());
    let t = f.get_market_tree(&s("m_root")).unwrap();
    assert!(t.children.is_empty());
}

#[test]
fn tree_survives_self_referencing_child_list() {
    let mut f = FactoryStateData::new();
    assert!(f.try_register_market(info("m_loop", None, vec!["m_loop"])).is_ok());
    let t = f.get_market_tree(&s("m_loop")).unwrap();
    assert_eq!(t.market.market_id, "m_loop");
    assert!(t.children.is_empty());
}

#[test]
fn tree_survives_two_node_cycle_without_duplicates() {
    let mut f = FactoryStateData::new();
    assert!(f.try_register_market(info("m_a", None, vec!["m_b"])).is_ok());
    assert!(f.try_register_market(info("m_b", None, vec!["m_a", "m_b"])).is_ok());
    let t = f.get_market_tree(&s("m_a")).unwrap();
    let mut ids = Vec::new();
    collect_ids(&t, &mut ids);
    assert_eq!(ids, vec![s("m_a"), s("m_b")]);
    let mut sorted = ids.clone();
    sorted.sort();
    sorted.dedup();
    assert_eq!(sorted.len(), ids.len(), "no duplicate node");
}

#[test]
fn factory_execute_operation_is_silent_on_rejection() {
    let mut f = FactoryStateData::new();
    f.execute_operation(
        Operation::CreateMarket {
            question: s("q"),
            outcomes: vec![s("only")],
            expiry_time: 0,
            parent_market_id: None,
        },
        InstanceId(1),
        5,
    );
    assert!(f.markets.is_empty());
    f.execute_operation(
        Operation::RegisterMarket { market_info: info("m_x", None, vec![]) },
        InstanceId(1),
        5,
    );
    assert_eq!(f.market_ids(), vec![s("m_x")]);
}

#[test]
fn factory_error_messages() {
    assert_eq!(FactoryError::Unauthorized.message(), "Unauthorized");
    assert_eq!(FactoryError::MarketNotFound.message(), "Market not found");
    assert_eq!(FactoryError::InvalidParameters.message(), "Invalid parameters");
    assert_eq!(FactoryError::MarketAlreadyExists.message(), "Market already exists");
    assert_eq!(FactoryError::AlreadyInitialized.message(), "Already initialized");
}
