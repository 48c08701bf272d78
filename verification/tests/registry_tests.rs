use basket_algos::account_models::{AlgorithmRegistryAccount, DexRegistryAccount, StrategyRegistryAccount};
use basket_algos::metrics::AlgorithmMetrics;
use basket_algos::name_table::NamedTable;
use basket_algos::registry::{AlgorithmEvent, AlgorithmFactory, AlgorithmMeta, AlgorithmRegistry, AlgorithmStatus};

fn meta(name: &str, algo_type: &str, status: AlgorithmStatus) -> AlgorithmMeta {
    AlgorithmMeta {
        name: name.to_string(),
        version: "1.0.0".to_string(),
        algo_type: algo_type.to_string(),
        status,
        last_updated: 0,
    }
}

#[test]
fn test_algorithm_registry_register_and_get() {
    let mut registry: AlgorithmRegistry<&'static str, &'static str> = AlgorithmRegistry::new();
    registry.register_execution("twap", "TwapAlgorithm", meta("twap", "execution", AlgorithmStatus::Active));
    assert!(registry.get_execution("twap").is_some());
    registry.register_routing("smart_routing", "SmartRoutingAlgorithm");
    assert!(registry.get_routing("smart_routing").is_some());
    registry.register_risk("risk_assessment", "RiskAssessmentAlgorithm");
    assert!(registry.get_risk("risk_assessment").is_some());
    registry.register_optimizer("genetic", "GeneticOptimizer");
    assert!(registry.get_optimizer("genetic").is_some());
}

#[test]
fn registry_register_then_get_and_remove() {
    let mut registry: AlgorithmRegistry<u32, u32> = AlgorithmRegistry::new();
    registry.register_execution("twap", 1, meta("twap", "execution", AlgorithmStatus::Active));
    registry.register_execution("vwap", 2, meta("vwap", "execution", AlgorithmStatus::Inactive));
    assert_eq!(registry.get_execution("twap"), Some(&1));
    // Registering again replaces.
    registry.register_execution("twap", 3, meta("twap", "execution", AlgorithmStatus::Active));
    assert_eq!(registry.get_execution("twap"), Some(&3));
    let mut names = registry.list_executions();
    names.sort();
    assert_eq!(names, vec!["twap".to_string(), "vwap".to_string()]);
    registry.remove_execution("twap");
    assert_eq!(registry.get_execution("twap"), None);
    assert!(registry.get_meta("twap").is_none());
    assert_eq!(registry.get_execution("vwap"), Some(&2));
    registry.remove_routing("none");
    registry.remove_risk("none");
    registry.remove_optimizer("none");
    assert!(registry.list_routings().is_empty());
    assert!(registry.list_risks().is_empty());
    assert!(registry.list_optimizers().is_empty());
}

#[test]
fn registry_status_and_type_queries() {
    let mut registry: AlgorithmRegistry<u32, u32> = AlgorithmRegistry::new();
    registry.batch_register(vec![
        ("twap".to_string(), 1, meta("twap", "execution", AlgorithmStatus::Active)),
        ("vwap".to_string(), 2, meta("vwap", "execution", AlgorithmStatus::Active)),
        ("router".to_string(), 3, meta("router", "routing", AlgorithmStatus::Error("down".to_string()))),
    ]);
    assert_eq!(registry.list_by_status(AlgorithmStatus::Active).len(), 2);
    assert_eq!(registry.list_by_status(AlgorithmStatus::Error("down".to_string())).len(), 1);
    assert_eq!(registry.list_by_status(AlgorithmStatus::Error("up".to_string())).len(), 0);
    assert_eq!(registry.list_by_type("routing").len(), 1);
    registry.set_status("twap", AlgorithmStatus::Inactive, 42);
    let m = registry.get_meta("twap").unwrap();
    assert!(matches!(m.status, AlgorithmStatus::Inactive));
    assert_eq!(m.last_updated, 42);
    assert_eq!(m.version, "1.0.0");
    // Unknown names are left alone.
    registry.set_status("missing", AlgorithmStatus::Inactive, 42);
    assert!(registry.get_meta("missing").is_none());
    registry.hot_swap("vwap", 9, meta("vwap", "execution", AlgorithmStatus::Active));
    assert_eq!(registry.get_execution("vwap"), Some(&9));
    registry.batch_remove(vec!["twap".to_string(), "router".to_string()]);
    assert_eq!(registry.list_executions(), vec!["vwap".to_string()]);
}

#[test]
fn factory_default_follows_its_name() {
    let mut factory: AlgorithmFactory<u32> = AlgorithmFactory::new();
    assert_eq!(factory.get_default(), None);
    factory.set_default("twap");
    assert_eq!(factory.get_default(), None);
    factory.register("twap", 7);
    factory.register("vwap", 8);
    assert_eq!(factory.get_default(), Some(&7));
    assert_eq!(factory.get("vwap"), Some(&8));
    let mut names = factory.list();
    names.sort();
    assert_eq!(names, vec!["twap".to_string(), "vwap".to_string()]);
}

#[test]
fn named_table_keeps_names_unique() {
    let mut t: NamedTable<u8> = NamedTable::new();
    t.insert("a", 1);
    t.insert("b", 2);
    t.insert("a", 3);
    assert_eq!(t.len(), 2);
    assert_eq!(t.get("a"), Some(&3));
    assert_eq!(t.names(), vec!["a".to_string(), "b".to_string()]);
    t.remove("a");
    assert!(!t.contains("a"));
    assert_eq!(t.find("b"), Some(0));
}

#[test]
fn account_registries_switch_and_query() {
    let mut algos = AlgorithmRegistryAccount { algorithms: vec![] };
    algos.register_algorithm("twap".to_string(), [1u8; 32], 10);
    algos.register_algorithm("vwap".to_string(), [2u8; 32], 11);
    algos.switch_algorithm("twap", "vwap", 20);
    let twap = algos.query_algorithm("twap").unwrap();
    assert!(!twap.is_active);
    assert_eq!(twap.last_updated, 20);
    assert_eq!(twap.created_at, 10);
    let vwap = algos.query_algorithm("vwap").unwrap();
    assert!(vwap.is_active);
    assert!(algos.query_algorithm("pov").is_none());
    // Switching to the same name leaves it active.
    algos.switch_algorithm("vwap", "vwap", 30);
    assert!(algos.query_algorithm("vwap").unwrap().is_active);

    let mut dexes = DexRegistryAccount { dexes: vec![] };
    dexes.register_dex("orca".to_string(), [3u8; 32], 5);
    dexes.switch_dex("orca", "raydium", 6);
    assert!(!dexes.query_dex("orca").unwrap().is_active);

    let mut strategies: StrategyRegistryAccount<u8> = StrategyRegistryAccount { strategies: vec![] };
    strategies.register_strategy(1, 9, [4u8; 32], 1);
    strategies.register_strategy(2, 8, [4u8; 32], 1);
    strategies.switch_strategy(1, 2, 3);
    assert!(!strategies.query_strategy(1).unwrap().is_active);
    assert!(strategies.query_strategy(2).unwrap().is_active);
    assert_eq!(strategies.query_strategy(2).unwrap().config, 8);
    assert!(strategies.query_strategy(3).is_none());
}

#[test]
fn metrics_count_operations() {
    let mut m = AlgorithmMetrics::new();
    assert_eq!(m.success_rate_bps(), 10_000);
    assert_eq!(m.error_rate_bps(), 0);
    m.update_with_operation(true, 10, 100);
    m.update_with_operation(false, 20, 101);
    m.update_with_operation(true, 30, 102);
    assert_eq!(m.total_operations, 3);
    assert_eq!(m.successful_operations + m.failed_operations, m.total_operations);
    assert_eq!(m.avg_execution_time_ms, 20);
    assert_eq!(m.last_operation_timestamp, 102);
    assert_eq!(m.success_rate_bps(), 6666);
    assert_eq!(m.error_rate_bps(), 3333);
    assert!(m.success_rate_bps() as u32 + m.error_rate_bps() as u32 <= 10_000);
}

#[test]
fn registry_changes_give_their_events() {
    let mut registry: AlgorithmRegistry<u32, u32> = AlgorithmRegistry::new();
    let mut m = meta("twap", "execution", AlgorithmStatus::Active);
    m.version = "2.0.0".to_string();
    let e = registry.register_execution("twap", 1, m);
    assert!(matches!(e, AlgorithmEvent::Registered { ref name, ref version } if name == "twap" && version == "2.0.0"));
    let e = registry.set_status("twap", AlgorithmStatus::Inactive, 7);
    assert!(matches!(e, Some(AlgorithmEvent::StatusChanged { ref name, status: AlgorithmStatus::Inactive }) if name == "twap"));
    assert!(registry.set_status("missing", AlgorithmStatus::Active, 7).is_none());
    let e = registry.hot_swap("twap", 2, meta("twap", "execution", AlgorithmStatus::Active));
    assert!(matches!(e, AlgorithmEvent::HotSwapped { ref name, ref version } if name == "twap" && version == "1.0.0"));
    let e = registry.remove_execution("twap");
    assert!(matches!(e, AlgorithmEvent::Removed { ref name } if name == "twap"));
    let events = registry.batch_register(vec![
        ("a".to_string(), 1, meta("a", "execution", AlgorithmStatus::Active)),
        ("b".to_string(), 2, meta("b", "execution", AlgorithmStatus::Active)),
    ]);
    assert_eq!(events.len(), 2);
    assert!(matches!(&events[1], AlgorithmEvent::Registered { name, .. } if name == "b"));
    let events = registry.batch_remove(vec!["a".to_string(), "zz".to_string()]);
    assert_eq!(events.len(), 2);
    assert!(matches!(&events[0], AlgorithmEvent::Removed { name } if name == "a"));
    assert!(matches!(&events[1], AlgorithmEvent::Removed { name } if name == "zz"));
}
