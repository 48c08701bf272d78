use vstd::prelude::*;
use crate::schedules::{answers_check, AlgoError, MAX_REBALANCE_INTERVAL, MAX_SLIPPAGE_BPS};
use crate::text::owned;

verus! {

/// How an execution is optimized.
#[derive(Debug, Clone, Copy, PartialEq, Eq, Structural)]
pub enum OptimizationStrategy {
    Genetic,
    MachineLearning,
    DynamicProgramming,
    SimulatedAnnealing,
    ParticleSwarm,
    Hybrid,
}

/// Risk limits of an optimized execution.
#[derive(Debug, Clone, Copy, PartialEq, Eq, Structural)]
pub struct ExecutionOptimizerRiskParams {
    pub max_market_impact_bps: u32,
    pub max_execution_cost_bps: u32,
    pub max_execution_time: u64,
    pub enable_emergency_stop: bool,
    pub emergency_stop_threshold_bps: u32,
    pub max_volatility_tolerance_bps: u32,
    pub min_liquidity_requirement: u64,
}

/// Monitoring switches of an optimized execution.
#[derive(Debug, Clone, Copy, PartialEq, Eq, Structural)]
pub struct ExecutionOptimizerMonitoringParams {
    pub enable_monitoring: bool,
    pub metrics_interval: u64,
    pub enable_detailed_logging: bool,
    pub enable_performance_warnings: bool,
    pub enable_optimization_analysis: bool,
}

/// Parameters of an optimized execution.
#[derive(Debug, Clone, Copy, PartialEq, Eq, Structural)]
pub struct ExecutionOptimizerParams {
    pub order_size: u64,
    pub target_execution_time: u64,
    pub max_slippage_tolerance_bps: u32,
    pub enable_cost_optimization: bool,
    pub enable_market_impact_optimization: bool,
    pub enable_timing_optimization: bool,
    pub optimization_strategy: OptimizationStrategy,
    pub risk_params: ExecutionOptimizerRiskParams,
    pub monitoring_params: ExecutionOptimizerMonitoringParams,
}

/// The reason the first failed check of optimizer parameters gives, if any:
/// a positive order, a target time of at most a day, a tolerance of at most 1000 bps.
pub open spec fn optimizer_check(p: ExecutionOptimizerParams) -> Option<Seq<char>> {
    if p.order_size == 0 {
        Some("Order size must be greater than 0"@)
    } else if p.target_execution_time == 0 || p.target_execution_time > MAX_REBALANCE_INTERVAL {
        Some("Target execution time must be between 1 and 86400"@)
    } else if p.max_slippage_tolerance_bps > MAX_SLIPPAGE_BPS {
        Some("Max slippage tolerance must not exceed 1000 bps"@)
    } else {
        None
    }
}

/// Checks the parameters of an optimized execution.
pub fn validate_optimizer_params(params: &ExecutionOptimizerParams) -> (r: Result<(), AlgoError>)
    ensures
        answers_check(r, optimizer_check(*params)),
{
    if params.order_size == 0 {
        return Err(AlgoError::InvalidParameters { reason: owned("Order size must be greater than 0") });
    }
    if params.target_execution_time == 0 || params.target_execution_time > MAX_REBALANCE_INTERVAL {
        return Err(AlgoError::InvalidParameters { reason: owned("Target execution time must be between 1 and 86400") });
    }
    if params.max_slippage_tolerance_bps > MAX_SLIPPAGE_BPS {
        return Err(AlgoError::InvalidParameters { reason: owned("Max slippage tolerance must not exceed 1000 bps") });
    }
    Ok(())
}

/// The registered optimizer a strategy runs on: machine learning on `ml`,
/// every other strategy on `genetic`.
pub fn optimizer_name(strategy: OptimizationStrategy) -> (r: &'static str)
    ensures
        strategy == OptimizationStrategy::MachineLearning ==> r@ == "ml"@,
        strategy != OptimizationStrategy::MachineLearning ==> r@ == "genetic"@,
{
    match strategy {
        OptimizationStrategy::Genetic => "genetic",
        OptimizationStrategy::MachineLearning => "ml",
        OptimizationStrategy::DynamicProgramming => "genetic",
        OptimizationStrategy::SimulatedAnnealing => "genetic",
        OptimizationStrategy::ParticleSwarm => "genetic",
        OptimizationStrategy::Hybrid => "genetic",
    }
}

/// Whether a split size falls outside `[min, max]`.
pub fn is_extreme_split_size(split_size: u64, min: u64, max: u64) -> (r: bool)
    ensures
        r == (split_size < min || split_size > max),
{
    split_size < min || split_size > max
}

/// Total of the first `k` shares of a distribution.
pub open spec fn share_total(s: Seq<u32>) -> int
    decreases s.len(),
{
    if s.len() == 0 { 0 } else { share_total(s.drop_last()) + s.last() }
}

/// Splits 10000 basis points into `num_splits` shares: 1000 for each but the
/// last, which takes the rest.
pub fn generate_random_distribution(num_splits: u32) -> (r: Vec<u32>)
    requires
        num_splits <= 10,
    ensures
        r@.len() == num_splits,
        forall|i: int| 0 <= i < num_splits - 1 ==> r@[i] == 1000,
        num_splits > 0 ==> r@[num_splits - 1] == 10000 - 1000 * (num_splits - 1),
{
    let mut distribution: Vec<u32> = Vec::new();
    let mut remaining: u32 = 10000;
    let mut i: u32 = 0;
    while i < num_splits
        invariant
            num_splits <= 10,
            i <= num_splits,
            distribution@.len() == i,
            i < num_splits ==> remaining == 10000 - 1000 * i,
            forall|k: int| 0 <= k < i && k < num_splits - 1 ==> #[trigger] distribution@[k] == 1000,
            i == num_splits && num_splits > 0 ==> distribution@[num_splits - 1] == 10000 - 1000 * (num_splits - 1),
        decreases num_splits - i,
    {
        if i == num_splits - 1 {
            distribution.push(remaining);
        } else {
            let max_split = remaining / (num_splits - i);
            assert(max_split >= 1000) by (nonlinear_arith)
                requires
                    max_split == remaining / ((num_splits - i) as u32),
                    remaining == 10000 - 1000 * i,
                    i < num_splits,
                    num_splits <= 10;
            let split: u32 = 1000;
            distribution.push(split);
            remaining = remaining - split;
        }
        i = i + 1;
    }
    distribution
}

/// The shares of a distribution always add up to the whole, 10000 basis points.
pub proof fn law_distribution_is_whole(s: Seq<u32>, n: u32)
    requires
        0 < n <= 10,
        s.len() == n,
        forall|i: int| 0 <= i < n - 1 ==> s[i] == 1000,
        s[n - 1] == 10000 - 1000 * (n - 1),
    ensures
        share_total(s) == 10000,
{
    assert forall|k: nat| k <= n - 1 implies #[trigger] share_total(s.take(k as int)) == 1000 * k by {
        lemma_share_prefix(s, n, k);
    }
    assert(s.take(n as int) =~= s);
    assert(s.take(n as int).drop_last() =~= s.take(n - 1));
    assert(share_total(s.take(n - 1)) == 1000 * (n - 1));
}

proof fn lemma_share_prefix(s: Seq<u32>, n: u32, k: nat)
    requires
        s.len() == n,
        k <= n - 1,
        forall|i: int| 0 <= i < n - 1 ==> s[i] == 1000,
    ensures
        share_total(s.take(k as int)) == 1000 * k,
    decreases k,
{
    if k > 0 {
        lemma_share_prefix(s, n, (k - 1) as nat);
        assert(s.take(k as int).drop_last() =~= s.take(k - 1));
    } else {
        assert(s.take(0) =~= Seq::<u32>::empty());
    }
}

/// Improvement of `optimized` over `original` in basis points of `original`;
/// none when nothing improved.
pub open spec fn improvement_bps(original: u64, optimized: u64) -> int {
    if original > optimized { ((original - optimized) * 10000) / (original as int) } else { 0 }
}

/// Scores an optimization by the mean of its cost and time improvements, in
/// basis points.
pub fn calculate_optimization_score(original_cost: u64, optimized_cost: u64, original_time: u64, optimized_time: u64) -> (r: u32)
    requires
        original_cost > optimized_cost ==> (original_cost - optimized_cost) * 10000 <= u64::MAX,
        original_time > optimized_time ==> (original_time - optimized_time) * 10000 <= u64::MAX,
    ensures
        r == (improvement_bps(original_cost, optimized_cost) + improvement_bps(original_time, optimized_time)) / 2,
        r <= 10000,
{
    let cost_improvement: u64 = if original_cost > optimized_cost {
        let v = ((original_cost - optimized_cost) * 10000) / original_cost;
        assert(v <= 10000) by (nonlinear_arith)
            requires
                v == ((original_cost - optimized_cost) * 10000) / (original_cost as int),
                original_cost > optimized_cost;
        v
    } else {
        0
    };
    let time_improvement: u64 = if original_time > optimized_time {
        let v = ((original_time - optimized_time) * 10000) / original_time;
        assert(v <= 10000) by (nonlinear_arith)
            requires
                v == ((original_time - optimized_time) * 10000) / (original_time as int),
                original_time > optimized_time;
        v
    } else {
        0
    };
    ((cost_improvement + time_improvement) / 2) as u32
}

} // verus!
