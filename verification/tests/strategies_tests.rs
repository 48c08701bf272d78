use basket_algos::genetic::{AlgoParams, GeneticImpl};
use basket_algos::market_state::{AssetType, SmartRoutingAlgorithm, VwapAlgorithm};
use basket_algos::strategies::{
    AlgorithmError, ExecutionParams, MockExecutionAlgorithm, RiskManagementImpl, RiskParams, RoutingParams,
    SmartRoutingImpl, TwapImpl, VwapImpl, validate_pov_targets,
};

#[test]
fn test_twap_basic() {
    let algo = TwapImpl;
    let params = ExecutionParams { order_size: 100, slippage_tolerance: 100 };
    let result = algo.execute(&params).unwrap();
    assert_eq!(result.optimized_size, 100);
}

#[test]
fn test_twap_empty() {
    let algo = TwapImpl;
    let params = ExecutionParams { order_size: 0, slippage_tolerance: 100 };
    assert!(algo.execute(&params).is_err());
}

#[test]
fn twap_cost_follows_rising_prices() {
    // Ten slices of 10 at prices 1_000_000 + 10 * i.
    let result = TwapImpl.execute(&ExecutionParams { order_size: 100, slippage_tolerance: 100 }).unwrap();
    assert_eq!(result.expected_cost, 100_004_500);
    // The last slice takes the remainder: 105 = 9 * 10 + 15.
    let result = TwapImpl.execute(&ExecutionParams { order_size: 105, slippage_tolerance: 100 }).unwrap();
    assert_eq!(result.expected_cost, 10 * (9 * 1_000_000 + 360) + 15 * 1_000_090);
    assert!(matches!(
        TwapImpl.execute(&ExecutionParams { order_size: 100, slippage_tolerance: 0 }),
        Err(AlgorithmError::InvalidInput)
    ));
}

#[test]
fn test_vwap_basic() {
    let algo = VwapImpl;
    let params = ExecutionParams { order_size: 100, slippage_tolerance: 100 };
    let result = algo.execute(&params).unwrap();
    assert_eq!(result.optimized_size, 100);
    assert_eq!(result.expected_cost, 100 * 1_000_000);
}

#[test]
fn test_vwap_empty() {
    let algo = VwapImpl;
    let params = ExecutionParams { order_size: 0, slippage_tolerance: 0 };
    assert!(algo.execute(&params).is_err());
}

#[test]
fn vwap_cost_of_uneven_split() {
    let result = VwapImpl.execute(&ExecutionParams { order_size: 7, slippage_tolerance: 5 }).unwrap();
    assert_eq!(result.optimized_size, 7);
    assert_eq!(result.expected_cost, 7_000_000);
}

#[test]
fn test_mock_execution_algorithm() {
    let algo = MockExecutionAlgorithm;
    let params = ExecutionParams { order_size: 100, slippage_tolerance: 100 };
    let result = algo.execute(&params).unwrap();
    assert_eq!(result.optimized_size, 100);
    assert_eq!(result.expected_cost, 100_000_000);
}

#[test]
fn test_risk_invalid() {
    let algo = RiskManagementImpl;
    let params = RiskParams { position_size: 0, volatility: 0, max_drawdown: 0 };
    assert!(algo.assess(&params).is_err());
}

#[test]
fn test_risk_basic() {
    let algo = RiskManagementImpl;
    let params = RiskParams { position_size: 100, volatility: 10, max_drawdown: 5 };
    let result = algo.assess(&params).unwrap();
    assert!(result.is_acceptable);
}

#[test]
fn risk_score_scales_and_caps() {
    // 100 * 10% / 6 = 1.
    let r = RiskManagementImpl.assess(&RiskParams { position_size: 100, volatility: 10, max_drawdown: 5 }).unwrap();
    assert_eq!(r.risk_score, 1);
    // 3000 * 3% / 1 = 90 is acceptable.
    let r = RiskManagementImpl.assess(&RiskParams { position_size: 3000, volatility: 3, max_drawdown: 0 }).unwrap();
    assert_eq!(r.risk_score, 90);
    assert!(r.is_acceptable);
    // 10000 * 1% / 1 = 100 is not.
    let r = RiskManagementImpl.assess(&RiskParams { position_size: 10000, volatility: 1, max_drawdown: 0 }).unwrap();
    assert_eq!(r.risk_score, 100);
    assert!(!r.is_acceptable);
    // 30000 * 1% = 300 is capped at 255.
    let r = RiskManagementImpl.assess(&RiskParams { position_size: 30000, volatility: 1, max_drawdown: 0 }).unwrap();
    assert_eq!(r.risk_score, 255);
    assert!(!r.is_acceptable);
    let r = RiskManagementImpl.assess(&RiskParams { position_size: u64::MAX, volatility: u64::MAX, max_drawdown: 0 }).unwrap();
    assert_eq!(r.risk_score, 255);
    assert!(matches!(
        RiskManagementImpl.assess(&RiskParams { position_size: 5, volatility: 0, max_drawdown: 0 }),
        Err(AlgorithmError::InvalidInput)
    ));
}

#[test]
fn test_route_basic() {
    let algo = SmartRoutingImpl;
    let params = RoutingParams {
        input_mint: [0u8; 32],
        output_mint: [0u8; 32],
        amount_in: 100,
        dex_candidates: vec!["Jupiter".to_string(), "Orca".to_string()],
    };
    let result = algo.route(&params).unwrap();
    assert_eq!(result.best_dex, "Jupiter");
    assert_eq!(result.expected_out, 100);
}

#[test]
fn test_route_empty() {
    let algo = SmartRoutingImpl;
    let params = RoutingParams { input_mint: [0u8; 32], output_mint: [0u8; 32], amount_in: 100, dex_candidates: vec![] };
    assert!(algo.route(&params).is_err());
}

#[test]
fn test_vwap_initialize_and_reset() {
    let mut vwap = VwapAlgorithm::new(10);
    assert_eq!(vwap.sample_count(), 0);
    vwap.update(100, 10, 1);
    vwap.update(200, 20, 2);
    assert_eq!(vwap.sample_count(), 2);
    vwap.reset();
    assert_eq!(vwap.sample_count(), 0);
}

#[test]
fn test_vwap_update_and_window() {
    let mut vwap = VwapAlgorithm::new(5);
    vwap.update(100, 10, 1);
    vwap.update(200, 20, 3);
    vwap.update(300, 30, 10);
    assert_eq!(vwap.sample_count(), 1);
    assert_eq!(vwap.compute_vwap(), 300);
}

#[test]
fn test_vwap_compute_weighted_average() {
    let mut vwap = VwapAlgorithm::new(100);
    vwap.update(100, 10, 1);
    vwap.update(200, 20, 11);
    vwap.update(300, 30, 21);
    let vwap_value = vwap.compute_vwap();
    assert_eq!(vwap_value, 233);
}

#[test]
fn vwap_window_edges() {
    let mut vwap = VwapAlgorithm::new(5);
    assert_eq!(vwap.compute_vwap(), 0);
    vwap.update(100, 0, 1);
    assert_eq!(vwap.compute_vwap(), 0);
    // A sample exactly `window` old is kept.
    vwap.update(300, 10, 6);
    assert_eq!(vwap.sample_count(), 2);
    vwap.initialize(1);
    assert_eq!(vwap.sample_count(), 0);
}

#[test]
fn routing_picks_cheapest_supported_market() {
    let sol = AssetType { code: 1 };
    let usdc = AssetType { code: 2 };
    let mut router = SmartRoutingAlgorithm::new(vec!["Orca".to_string(), "Raydium".to_string()]);
    assert_eq!(router.route(&sol, 10), None);
    router.update_market("Orca".to_string(), sol, 1000, 105);
    router.update_market("Raydium".to_string(), sol, 50, 100);
    router.update_market("Jupiter".to_string(), sol, 1000, 90);
    router.update_market("Raydium".to_string(), usdc, 1000, 1);
    // Jupiter is unsupported, Raydium too thin for 100.
    assert_eq!(router.route(&sol, 100), Some(("Orca".to_string(), 105)));
    assert_eq!(router.route(&sol, 10), Some(("Raydium".to_string(), 100)));
    // Updating keeps one market per DEX and asset.
    router.update_market("Raydium".to_string(), sol, 5000, 101);
    assert_eq!(router.route(&sol, 100), Some(("Raydium".to_string(), 101)));
    // Equal prices: the market seen first wins.
    router.update_market("Orca".to_string(), sol, 5000, 101);
    assert_eq!(router.route(&sol, 100), Some(("Orca".to_string(), 101)));
    router.reset();
    assert_eq!(router.route(&sol, 1), None);
}

fn expected_genetic(order: u64, slippage: u64) -> (u64, u64) {
    let seed = anchor_lang::solana_program::keccak::hashv(&[&order.to_le_bytes()]).0;
    let fitness = |x: u64| x * 1000 / (slippage + 1);
    let pick = (order / 32) * ((seed[0] as u64) % 32 + 1);
    let mutate = (seed[1] as u64) % 10 == 0;
    let mut best = order / 32;
    let mut best_fitness = fitness(best);
    for g in 1..=20u64 {
        let v = if mutate { pick + g } else { pick };
        if fitness(v) > best_fitness {
            best = v;
            best_fitness = fitness(v);
        }
    }
    (best, best_fitness)
}

#[test]
fn genetic_search_is_seeded_by_the_order() {
    for (order, slippage) in [(1000u64, 10u64), (64, 1), (12345, 7), (31, 3)] {
        let params = AlgoParams { params: bincode::serialize(&(order, slippage)).unwrap() };
        let result = GeneticImpl.execute(&params).unwrap();
        let (best, fitness) = expected_genetic(order, slippage);
        assert_eq!(result.optimized_size, best);
        assert_eq!(result.expected_cost, fitness);
    }
}

#[test]
fn genetic_rejects_bad_parameters() {
    let short = AlgoParams { params: vec![1, 2, 3] };
    assert!(matches!(GeneticImpl.execute(&short), Err(AlgorithmError::InvalidInput)));
    let zero = AlgoParams { params: bincode::serialize(&(0u64, 5u64)).unwrap() };
    assert!(matches!(GeneticImpl.execute(&zero), Err(AlgorithmError::InvalidInput)));
    let huge = AlgoParams { params: bincode::serialize(&(u64::MAX, 5u64)).unwrap() };
    assert!(matches!(GeneticImpl.execute(&huge), Err(AlgorithmError::CalculationError)));
    // Trailing bytes are ignored.
    let mut bytes = bincode::serialize(&(1000u64, 10u64)).unwrap();
    bytes.extend_from_slice(&[9, 9, 9]);
    let result = GeneticImpl.execute(&AlgoParams { params: bytes }).unwrap();
    assert_eq!((result.optimized_size, result.expected_cost), expected_genetic(1000, 10));
}

#[test]
fn pov_targets_must_be_positive() {
    assert!(validate_pov_targets(1000, 3600).is_ok());
    assert!(matches!(validate_pov_targets(0, 3600), Err(AlgorithmError::InvalidInput)));
    assert!(matches!(validate_pov_targets(1000, 0), Err(AlgorithmError::InvalidInput)));
}

#[test]
fn vwap_window_beyond_i64_wraps_to_a_negative_offset() {
    // A window of u64::MAX is an offset of -1: only samples from one second
    // after the update on are kept, so the update's own sample goes too.
    let mut vwap = VwapAlgorithm::new(u64::MAX);
    vwap.update(100, 10, 5);
    assert_eq!(vwap.sample_count(), 0);
    // A window of 2^63 + 10 is an offset of 10 - 2^63.
    let mut vwap = VwapAlgorithm::new((1u64 << 63) + 10);
    vwap.update(100, 10, -10);
    assert_eq!(vwap.sample_count(), 0);
}
