use basket_algos::market_impact::{calculate_impact_breakdown, split_impact_components, validate_impact_input, MarketImpactError};
use basket_algos::optimizer_rules::{
    calculate_optimization_score, generate_random_distribution, is_extreme_split_size, optimizer_name,
    validate_optimizer_params, ExecutionOptimizerMonitoringParams, ExecutionOptimizerParams,
    ExecutionOptimizerRiskParams, OptimizationStrategy,
};
use basket_algos::risk_rules::{
    check_extreme_market, check_risk_alert, determine_risk_level, recommendation_for, RecommendationPriority,
    RiskAction, RiskAlertType, RiskLevel, RiskType,
};
use basket_algos::routing_rules::{
    triangular_profit, validate_routing_params, SmartRoutingMonitoringParams, SmartRoutingParams, SmartRoutingRiskParams,
};
use basket_algos::schedules::{execution_stats, AlgoError};
use basket_algos::errors::ErrorCode;
use basket_algos::strategies::{AlgorithmType, AssessmentParams, RiskAssessmentAlgorithm};
use basket_algos::twap::{
    TwapAlgorithm, TwapInterval, TwapIntervalResult, TwapMonitoringParams, TwapParams, TwapProgress, TwapRiskParams,
};
use basket_algos::vwap_schedule::{
    check_vwap_risk_limits, settle_vwap_interval, validate_vwap_params, VwapMonitoringParams, VwapParams, VwapProgress,
    VwapRiskParams,
};

fn twap_params() -> TwapParams {
    TwapParams {
        total_amount: 1000,
        time_window: 3600,
        num_intervals: 10,
        slippage_tolerance_bps: 100,
        min_interval_size: 50,
        max_interval_size: 200,
        price_deviation_bps: 50,
        enable_dynamic_adjustment: true,
        risk_params: TwapRiskParams {
            max_single_execution_bps: 1000,
            max_price_deviation_bps: 200,
            max_execution_time: 60,
            enable_emergency_stop: true,
            emergency_stop_threshold_bps: 500,
        },
        monitoring_params: TwapMonitoringParams {
            enable_monitoring: true,
            metrics_interval: 30,
            enable_detailed_logging: true,
            enable_performance_warnings: true,
        },
    }
}

#[test]
fn test_twap_algorithm_creation() {
    let algo = TwapAlgorithm::new();
    assert_eq!(algo.name(), "twap");
    assert_eq!(algo.version(), "2.0.0");
    assert_eq!(algo.algorithm_type(), AlgorithmType::Execution);
}

#[test]
fn test_twap_params_validation() {
    let algo = TwapAlgorithm::new();
    let valid_params = twap_params();
    assert!(algo.validate_twap_params(&valid_params).is_ok());
    let mut invalid_params = valid_params.clone();
    invalid_params.total_amount = 0;
    assert!(algo.validate_twap_params(&invalid_params).is_err());
    let mut invalid_params = valid_params.clone();
    invalid_params.time_window = 0;
    assert!(algo.validate_twap_params(&invalid_params).is_err());
    let mut invalid_params = valid_params.clone();
    invalid_params.num_intervals = 0;
    assert!(algo.validate_twap_params(&invalid_params).is_err());
}

fn reason(r: Result<(), AlgoError>) -> String {
    match r {
        Err(AlgoError::InvalidParameters { reason }) => reason,
        _ => String::new(),
    }
}

#[test]
fn twap_validation_reasons() {
    let algo = TwapAlgorithm::new();
    let mut p = twap_params();
    p.time_window = 86401;
    assert_eq!(reason(algo.validate_twap_params(&p)), "Time window must be between 1 and 86400");
    let mut p = twap_params();
    p.num_intervals = 101;
    assert_eq!(reason(algo.validate_twap_params(&p)), "Number of intervals must be between 1 and 100");
    let mut p = twap_params();
    p.slippage_tolerance_bps = 1001;
    assert_eq!(reason(algo.validate_twap_params(&p)), "Slippage tolerance must not exceed 1000 bps");
    let mut p = twap_params();
    p.min_interval_size = 300;
    assert_eq!(reason(algo.validate_twap_params(&p)), "Invalid interval size range");
    let mut p = twap_params();
    p.price_deviation_bps = 1001;
    assert_eq!(reason(algo.validate_twap_params(&p)), "Price deviation tolerance must not exceed 1000 bps");
}

#[test]
fn twap_test_execution_plan_calculation() {
    let algo = TwapAlgorithm::new();
    let params = twap_params();
    let plan = algo.calculate_execution_plan(&params, 1_700_000_000);
    assert_eq!(plan.total_amount, 1000);
    assert_eq!(plan.time_window, 3600);
    assert_eq!(plan.intervals.len(), 10);
    let total_planned = plan.intervals.iter().map(|i| i.size).sum::<u64>();
    assert_eq!(total_planned, 1000);
    for (i, interval) in plan.intervals.iter().enumerate() {
        assert_eq!(interval.index, i as u32);
        assert!(interval.size >= params.min_interval_size);
        assert!(interval.size <= params.max_interval_size);
    }
}

#[test]
fn twap_plan_clamps_and_times_slices() {
    let algo = TwapAlgorithm::new();
    let mut params = twap_params();
    params.total_amount = 1005;
    params.num_intervals = 4;
    params.min_interval_size = 10;
    params.max_interval_size = 251;
    let plan = algo.calculate_execution_plan(&params, 100);
    let sizes: Vec<u64> = plan.intervals.iter().map(|i| i.size).collect();
    assert_eq!(sizes, vec![251, 251, 251, 251]);
    assert_eq!(plan.intervals[1].start_time, 100 + 900);
    assert_eq!(plan.intervals[3].end_time, 100 + 3600);
    assert_eq!(plan.start_time, 100);
}

#[test]
fn test_risk_limit_checking() {
    let algo = TwapAlgorithm::new();
    let params = twap_params();
    let result = TwapIntervalResult {
        interval_index: 0,
        executed_amount: 100,
        target_price: 1_000_000,
        execution_price: 1_005_000,
        total_cost: 100_500_000,
        slippage_bps: 50,
        execution_time: 30,
    };
    assert!(algo.check_risk_limits(&params, &result).is_ok());
    let mut bad_result = result.clone();
    bad_result.slippage_bps = 300;
    assert!(algo.check_risk_limits(&params, &bad_result).is_err());
    let mut bad_result = result.clone();
    bad_result.execution_time = 120;
    assert!(algo.check_risk_limits(&params, &bad_result).is_err());
}

#[test]
fn twap_limits_name_the_breach() {
    let algo = TwapAlgorithm::new();
    let params = twap_params();
    let ok = TwapIntervalResult {
        interval_index: 0,
        executed_amount: 100,
        target_price: 0,
        execution_price: 0,
        total_cost: 0,
        slippage_bps: 50,
        execution_time: 30,
    };
    let mut big = ok.clone();
    big.executed_amount = 101;
    assert!(matches!(algo.check_risk_limits(&params, &big), Err(AlgoError::InvalidResult { .. })));
    let mut slow = ok.clone();
    slow.execution_time = 61;
    match algo.check_risk_limits(&params, &slow) {
        Err(AlgoError::ExecutionTimeout { algorithm_name }) => assert_eq!(algorithm_name, "TWAP"),
        _ => panic!("expected a timeout"),
    }
    let mut p = params.clone();
    p.risk_params.max_price_deviation_bps = 1000;
    let mut spiky = ok.clone();
    spiky.slippage_bps = 501;
    match algo.check_risk_limits(&p, &spiky) {
        Err(AlgoError::InvalidResult { reason }) => {
            assert_eq!(reason, "Emergency stop triggered due to excessive slippage")
        }
        _ => panic!("expected an emergency stop"),
    }
}

fn vwap_params() -> VwapParams {
    VwapParams {
        total_amount: 1000,
        time_window: 3600,
        num_intervals: 10,
        slippage_tolerance_bps: 100,
        min_interval_size: 50,
        max_interval_size: 200,
        price_deviation_bps: 50,
        enable_dynamic_weighting: true,
        enable_market_depth_analysis: true,
        risk_params: VwapRiskParams {
            max_single_execution_bps: 1000,
            max_price_deviation_bps: 200,
            max_execution_time: 300,
            enable_emergency_stop: true,
            emergency_stop_threshold_bps: 500,
            max_volume_deviation_bps: 1000,
        },
        monitoring_params: VwapMonitoringParams {
            enable_monitoring: true,
            metrics_interval: 30,
            enable_detailed_logging: true,
            enable_performance_warnings: true,
            enable_depth_monitoring: true,
        },
    }
}

#[test]
fn test_vwap_params_validation() {
    let valid_params = vwap_params();
    assert!(validate_vwap_params(&valid_params).is_ok());
}

#[test]
fn vwap_limits() {
    let p = vwap_params();
    assert!(check_vwap_risk_limits(&p, 100, 50, 300).is_ok());
    match check_vwap_risk_limits(&p, 100, 50, 301) {
        Err(AlgoError::ExecutionTimeout { algorithm_name }) => assert_eq!(algorithm_name, "VWAP"),
        _ => panic!("expected a timeout"),
    }
    let mut zero = vwap_params();
    zero.total_amount = 0;
    assert!(validate_vwap_params(&zero).is_err());
}

#[test]
fn test_performance_metrics_calculation() {
    let stats = execution_stats(&vec![10, 15, 12, 18, 11], &vec![20, 30, 25, 35, 15], 100, false).unwrap();
    assert_eq!(stats.total_execution_time_ms, 100000);
    assert_eq!(stats.avg_execution_latency_ms, 13200);
    assert_eq!(stats.max_execution_latency_ms, 18000);
    assert_eq!(stats.avg_slippage_bps, 25);
    assert_eq!(stats.max_slippage_bps, 35);
    assert_eq!(stats.avg_deviation_bps, 25);
    assert_eq!(stats.max_deviation_bps, 35);
    assert_eq!(stats.threshold_violations, 0);
    let stats = execution_stats(&vec![1], &vec![101, 100, 150], 1, false).unwrap();
    assert_eq!(stats.threshold_violations, 2);
    assert!(execution_stats(&vec![], &vec![1], 1, false).is_err());
    assert!(execution_stats(&vec![], &vec![1], 1, true).is_err());
}

#[test]
fn vwap_latency_mean_is_taken_in_seconds() {
    let stats = execution_stats(&vec![10, 15, 12, 18, 11], &vec![20, 30, 25, 35, 15], 100, true).unwrap();
    assert_eq!(stats.avg_execution_latency_ms, 13000);
    assert_eq!(stats.max_execution_latency_ms, 18000);
    assert_eq!(stats.total_execution_time_ms, 100000);
    let stats = execution_stats(&vec![1, 2], &vec![], 3, true).unwrap();
    assert_eq!(stats.avg_execution_latency_ms, 1000);
    let stats = execution_stats(&vec![1, 2], &vec![], 3, false).unwrap();
    assert_eq!(stats.avg_execution_latency_ms, 1500);
}

fn optimizer_params() -> ExecutionOptimizerParams {
    ExecutionOptimizerParams {
        order_size: 1000,
        target_execution_time: 3600,
        max_slippage_tolerance_bps: 100,
        enable_cost_optimization: true,
        enable_market_impact_optimization: true,
        enable_timing_optimization: true,
        optimization_strategy: OptimizationStrategy::Genetic,
        risk_params: ExecutionOptimizerRiskParams {
            max_market_impact_bps: 200,
            max_execution_cost_bps: 100,
            max_execution_time: 3600,
            enable_emergency_stop: true,
            emergency_stop_threshold_bps: 500,
            max_volatility_tolerance_bps: 8000,
            min_liquidity_requirement: 1000,
        },
        monitoring_params: ExecutionOptimizerMonitoringParams {
            enable_monitoring: true,
            metrics_interval: 30,
            enable_detailed_logging: true,
            enable_performance_warnings: true,
            enable_optimization_analysis: true,
        },
    }
}

#[test]
fn test_optimizer_params_validation() {
    let valid_params = optimizer_params();
    assert!(validate_optimizer_params(&valid_params).is_ok());
    let mut invalid_params = valid_params.clone();
    invalid_params.order_size = 0;
    assert!(validate_optimizer_params(&invalid_params).is_err());
}

#[test]
fn optimizer_choice_and_scores() {
    assert_eq!(optimizer_name(OptimizationStrategy::MachineLearning), "ml");
    assert_eq!(optimizer_name(OptimizationStrategy::Hybrid), "genetic");
    let mut p = optimizer_params();
    p.target_execution_time = 86401;
    assert!(validate_optimizer_params(&p).is_err());
    assert_eq!(calculate_optimization_score(1000, 900, 100, 50), 3000);
    assert_eq!(calculate_optimization_score(1000, 1100, 100, 100), 0);
}

#[test]
fn test_execution_optimizer_extreme_split_size_triggers_abort() {
    assert!(is_extreme_split_size(0, 1000, 100000));
    assert!(is_extreme_split_size(200000, 1000, 100000));
    assert!(!is_extreme_split_size(5000, 1000, 100000));
}

#[test]
fn random_distribution_sums_to_whole() {
    for n in 1..=10u32 {
        let d = generate_random_distribution(n);
        assert_eq!(d.len(), n as usize);
        assert_eq!(d.iter().sum::<u32>(), 10000);
    }
    assert!(generate_random_distribution(0).is_empty());
}

#[test]
fn test_routing_params_validation() {
    let valid_params = SmartRoutingParams {
        from_token: [0u8; 32],
        to_token: [0u8; 32],
        amount_in: 1000,
        min_amount_out: 950,
        slippage_tolerance_bps: 100,
        enable_arbitrage_detection: true,
        enable_multi_hop: true,
        max_hops: 3,
        enable_cost_optimization: true,
        enable_liquidity_priority: true,
        risk_params: SmartRoutingRiskParams {
            max_single_route_bps: 1000,
            max_price_deviation_bps: 200,
            max_execution_time: 60,
            enable_emergency_stop: true,
            emergency_stop_threshold_bps: 500,
            max_route_complexity: 5,
            min_liquidity_requirement: 1000,
        },
        monitoring_params: SmartRoutingMonitoringParams {
            enable_monitoring: true,
            metrics_interval: 30,
            enable_detailed_logging: true,
            enable_performance_warnings: true,
            enable_route_analysis: true,
        },
    };
    assert!(validate_routing_params(&valid_params).is_ok());
    let mut invalid_params = valid_params.clone();
    invalid_params.amount_in = 0;
    assert!(validate_routing_params(&invalid_params).is_err());
    let mut hops = valid_params.clone();
    hops.max_hops = 11;
    assert!(validate_routing_params(&hops).is_err());
}

#[test]
fn risk_levels_and_gates() {
    assert_eq!(determine_risk_level(2500), RiskLevel::Low);
    assert_eq!(determine_risk_level(2501), RiskLevel::Medium);
    assert_eq!(determine_risk_level(7500), RiskLevel::High);
    assert_eq!(determine_risk_level(7501), RiskLevel::Critical);
    assert_eq!(RiskLevel::High.score(), 7500);
    assert!(check_extreme_market(&vec![5000, 3000, 2000], &vec![1000, 1500, 10000]).is_ok());
    assert!(check_extreme_market(&vec![5000, 9000], &vec![1000]).is_err());
    assert!(check_extreme_market(&vec![5000], &vec![1000, 99]).is_err());
    assert!(check_extreme_market(&vec![], &vec![]).is_ok());
    assert_eq!(check_risk_alert(RiskType::MarketRisk, 501, 500, 750), Some(RiskAlertType::VaRExceeded));
    assert_eq!(check_risk_alert(RiskType::LiquidityRisk, 750, 500, 750), None);
    assert_eq!(check_risk_alert(RiskType::ModelRisk, 9999, 500, 750), None);
    assert_eq!(
        recommendation_for(RiskType::LiquidityRisk, RiskLevel::Critical),
        Some((RiskAction::IncreaseLiquidity, RecommendationPriority::High))
    );
    assert_eq!(recommendation_for(RiskType::SystemicRisk, RiskLevel::Medium), None);
}

#[test]
fn market_impact_parts() {
    assert!(matches!(validate_impact_input(0, 10), Err(MarketImpactError::InvalidInput(_))));
    assert!(matches!(validate_impact_input(5, 0), Err(MarketImpactError::InsufficientLiquidity)));
    assert!(matches!(validate_impact_input(11, 10), Err(MarketImpactError::InsufficientLiquidity)));
    assert!(validate_impact_input(10, 10).is_ok());
    assert_eq!(split_impact_components(100), (65, 35));
    assert_eq!(split_impact_components(7), (4, 3));
    let b = calculate_impact_breakdown(100);
    assert_eq!(
        (b.size_impact_bps, b.volatility_impact_bps, b.liquidity_impact_bps, b.timing_impact_bps, b.cross_asset_impact_bps),
        (40, 25, 20, 10, 5)
    );
}

#[test]
fn twap_progress_accumulates_and_summarizes() {
    let algo = TwapAlgorithm::new();
    let params = twap_params();
    let interval = TwapInterval { index: 2, size: 100, start_time: 0, end_time: 360, target_price: 0, executed: false };
    assert!(algo.settle_interval(&interval, 1_010_000, 1_010_500, 60, 1, &params).is_err());
    let result = algo.settle_interval(&interval, 1_010_000, 1_010_500, 4, 1, &params).unwrap();
    assert_eq!(result.total_cost, 101_050_000);
    assert_eq!(result.interval_index, 2);
    let mut progress = TwapProgress::new();
    assert!(progress.record(&params, &result, 3, 99).is_ok());
    assert!(progress.record(&params, &result, 5, 101).is_ok());
    let summary = progress.summary(10);
    assert_eq!(summary.total_executed, 200);
    assert_eq!(summary.total_cost, 202_100_000);
    assert_eq!(summary.average_price, 1_010_500);
    assert_eq!(summary.avg_slippage_bps, 0);
    assert_eq!(progress.execution_times, vec![3, 5]);
    assert_eq!(TwapProgress::new().summary(0).average_price, 0);
}

#[test]
fn amount_risk_assessment() {
    assert!(matches!(RiskAssessmentAlgorithm.assess(&AssessmentParams { amount: 0 }), Err(ErrorCode::InvalidAmount)));
    let r = RiskAssessmentAlgorithm.assess(&AssessmentParams { amount: 5 }).unwrap();
    assert_eq!(r.risk_score, 100);
    assert_eq!(r.reason, "Low risk");
}

#[test]
fn vwap_progress_prices_by_volume() {
    let p = vwap_params();
    assert!(settle_vwap_interval(&p, 10, 1_000, 51).is_err());
    assert_eq!(settle_vwap_interval(&p, 10, 1_000, 50).unwrap(), 10_000);
    let mut progress = VwapProgress::new();
    assert_eq!(progress.vwap_price(), 0);
    assert!(progress.record(&p, 100, 100_000, 1_000, 10, 1, 2, 5).is_ok());
    assert!(progress.record(&p, 50, 100_000, 2_000, 10, 1, 2, 5).is_ok());
    assert_eq!(progress.total_executed, 150);
    assert_eq!(progress.vwap_price(), 1_333);
    assert_eq!(progress.volume_distribution, vec![100, 50]);
    // A slice above 10% of the order is refused after it is counted.
    assert!(progress.record(&p, 101, 0, 1, 0, 0, 0, 0).is_err());
    assert_eq!(progress.total_executed, 251);
}

#[test]
fn impact_breakdown_never_exceeds_total() {
    for total in [0u32, 1, 7, 99, 100, 12345] {
        let b = calculate_impact_breakdown(total);
        let parts = b.size_impact_bps + b.volatility_impact_bps + b.liquidity_impact_bps + b.timing_impact_bps
            + b.cross_asset_impact_bps;
        assert!(parts <= total);
        let (temporary, permanent) = split_impact_components(total);
        assert_eq!(temporary + permanent, total);
    }
}

#[test]
fn triangular_arbitrage_profit() {
    assert_eq!(triangular_profit(2, 1_000_000), None);
    assert_eq!(triangular_profit(3, 1_000_000), Some(5000));
    assert_eq!(triangular_profit(5, 199), None);
    assert_eq!(triangular_profit(5, 200), Some(1));
    assert_eq!(triangular_profit(0, 0), None);
}

#[test]
fn execution_stats_of_long_intervals() {
    let t = 18_446_744_073_709_551u64;
    let stats = execution_stats(&vec![t, t], &vec![], 1, true).unwrap();
    assert_eq!(stats.avg_execution_latency_ms, 18_446_744_073_709_551_000);
    assert_eq!(stats.max_execution_latency_ms, 18_446_744_073_709_551_000);
    let stats = execution_stats(&vec![t, t - 1], &vec![], 1, false).unwrap();
    assert_eq!(stats.avg_execution_latency_ms, 18_446_744_073_709_550_500);
}

#[test]
fn test_arbitrage_detection() {
    let profit = triangular_profit(3, 1000);
    assert_eq!(profit, Some(5));
    assert!(profit.unwrap() > 0);
}
