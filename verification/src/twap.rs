use vstd::prelude::*;
use crate::strategies::AlgorithmType;
use crate::schedules::{
    answers_check, check_interval_limits, tolerance_message, first_breach, reports_breach, schedule_check, validate_schedule,
    AlgoError, IntervalLimits,
};

verus! {

/// Limits each executed interval of a TWAP schedule is held to.
#[derive(Debug, Clone, Copy, PartialEq, Eq, Structural)]
pub struct TwapRiskParams {
    pub max_single_execution_bps: u32,
    pub max_price_deviation_bps: u32,
    pub max_execution_time: u64,
    pub enable_emergency_stop: bool,
    pub emergency_stop_threshold_bps: u32,
}

/// Monitoring switches of a TWAP execution.
#[derive(Debug, Clone, Copy, PartialEq, Eq, Structural)]
pub struct TwapMonitoringParams {
    pub enable_monitoring: bool,
    pub metrics_interval: u64,
    pub enable_detailed_logging: bool,
    pub enable_performance_warnings: bool,
}

/// Parameters of a time-weighted execution.
#[derive(Debug, Clone, Copy, PartialEq, Eq, Structural)]
pub struct TwapParams {
    pub total_amount: u64,
    pub time_window: u64,
    pub num_intervals: u32,
    pub slippage_tolerance_bps: u32,
    pub min_interval_size: u64,
    pub max_interval_size: u64,
    pub price_deviation_bps: u32,
    pub enable_dynamic_adjustment: bool,
    pub risk_params: TwapRiskParams,
    pub monitoring_params: TwapMonitoringParams,
}

/// Stage of a TWAP execution.
#[derive(Debug, Clone, Copy, PartialEq, Eq, Structural)]
pub enum TwapExecutionStatus {
    Initialized,
    Executing,
    Paused,
    Completed,
    Failed,
    Cancelled,
}

/// Defaults of the TWAP algorithm.
#[derive(Debug, Clone, Copy, PartialEq, Eq, Structural)]
pub struct TwapConfig {
    pub default_time_window: u64,
    pub default_num_intervals: u32,
    pub default_slippage_tolerance_bps: u32,
    pub max_supported_assets: u32,
    pub enable_cache: bool,
    pub cache_expiry_time: u64,
}

impl Default for TwapConfig {
    /// One hour in ten intervals at 1% tolerance, up to 100 assets, cached for five minutes.
    fn default() -> (r: Self)
        ensures
            r == (TwapConfig {
                default_time_window: 3600,
                default_num_intervals: 10,
                default_slippage_tolerance_bps: 100,
                max_supported_assets: 100,
                enable_cache: true,
                cache_expiry_time: 300,
            }),
    {
        TwapConfig {
            default_time_window: 3600,
            default_num_intervals: 10,
            default_slippage_tolerance_bps: 100,
            max_supported_assets: 100,
            enable_cache: true,
            cache_expiry_time: 300,
        }
    }
}

/// One slice of a TWAP schedule.
#[derive(Debug, Clone, Copy, PartialEq, Eq, Structural)]
pub struct TwapInterval {
    pub index: u32,
    pub size: u64,
    pub start_time: u64,
    pub end_time: u64,
    pub target_price: u64,
    pub executed: bool,
}

/// A TWAP schedule.
pub struct TwapExecutionPlan {
    pub intervals: Vec<TwapInterval>,
    pub total_amount: u64,
    pub time_window: u64,
    pub start_time: u64,
}

/// The outcome of executing one slice.
#[derive(Debug, Clone, Copy, PartialEq, Eq, Structural)]
pub struct TwapIntervalResult {
    pub interval_index: u32,
    pub executed_amount: u64,
    pub target_price: u64,
    pub execution_price: u64,
    pub total_cost: u64,
    pub slippage_bps: u32,
    pub execution_time: u64,
}

/// `size` kept within `[min, max]`.
pub open spec fn clamped(size: int, min: u64, max: u64) -> int {
    if size < min { min as int } else if size > max { max as int } else { size }
}

/// Size of slice `i` of a schedule of `total` in `n` slices: an equal share,
/// the last slice adding the remainder, kept within the size limits.
pub open spec fn twap_interval_size(total: u64, n: u32, min: u64, max: u64, i: int) -> int {
    let base = (total / (n as u64)) as int;
    let share = if i == n - 1 { base + (total % (n as u64)) as int } else { base };
    clamped(share, min, max)
}

/// Slice `i` of the schedule of `p` starting at `now`.
pub open spec fn twap_interval(p: TwapParams, now: u64, i: int) -> TwapInterval {
    let duration = (p.time_window / (p.num_intervals as u64)) as int;
    TwapInterval {
        index: i as u32,
        size: twap_interval_size(p.total_amount, p.num_intervals, p.min_interval_size, p.max_interval_size, i) as u64,
        start_time: (now + i * duration) as u64,
        end_time: (now + (i + 1) * duration) as u64,
        target_price: 0,
        executed: false,
    }
}

/// Total of the first `k` slice sizes.
pub open spec fn twap_planned_total(total: u64, n: u32, min: u64, max: u64, k: nat) -> int
    decreases k,
{
    if k == 0 { 0 } else { twap_planned_total(total, n, min, max, (k - 1) as nat) + twap_interval_size(total, n, min, max, k - 1) }
}

/// The limits a TWAP interval is held to.
pub open spec fn twap_limits(p: TwapParams) -> IntervalLimits {
    IntervalLimits {
        max_single_execution_bps: p.risk_params.max_single_execution_bps,
        max_price_deviation_bps: p.risk_params.max_price_deviation_bps,
        max_execution_time: p.risk_params.max_execution_time,
        enable_emergency_stop: p.risk_params.enable_emergency_stop,
        emergency_stop_threshold_bps: p.risk_params.emergency_stop_threshold_bps,
    }
}

/// Splits an order into equal slices over a time window.
pub struct TwapAlgorithm {
    config: TwapConfig,
}

/// What a TWAP execution has done so far.
pub struct TwapProgress {
    pub total_executed: u64,
    pub total_cost: u64,
    pub total_slippage: u32,
    pub execution_times: Vec<u64>,
    pub price_deviations: Vec<u32>,
}

/// The totals a TWAP execution reports at its end.
#[derive(Debug, Clone, Copy, PartialEq, Eq, Structural)]
pub struct TwapSummary {
    pub total_executed: u64,
    pub total_cost: u64,
    pub average_price: u64,
    pub avg_slippage_bps: u32,
}

impl TwapAlgorithm {
    /// The configuration in use.
    pub closed spec fn config(&self) -> TwapConfig {
        self.config
    }

    /// An algorithm with the default configuration.
    pub fn new() -> (r: Self)
        ensures
            r.config() == (TwapConfig {
                default_time_window: 3600,
                default_num_intervals: 10,
                default_slippage_tolerance_bps: 100,
                max_supported_assets: 100,
                enable_cache: true,
                cache_expiry_time: 300,
            }),
    {
        TwapAlgorithm { config: TwapConfig::default() }
    }

    /// An algorithm with the configuration `config`.
    pub fn with_config(config: TwapConfig) -> (r: Self)
        ensures
            r.config() == config,
    {
        TwapAlgorithm { config }
    }

    /// Name under which the algorithm is registered.
    pub fn name(&self) -> (r: &'static str)
        ensures
            r@ == "twap"@,
    {
        "twap"
    }

    /// Version of the algorithm.
    pub fn version(&self) -> (r: &'static str)
        ensures
            r@ == "2.0.0"@,
    {
        "2.0.0"
    }

    /// The family the algorithm belongs to.
    pub fn algorithm_type(&self) -> (r: AlgorithmType)
        ensures
            r == AlgorithmType::Execution,
    {
        AlgorithmType::Execution
    }

    /// Checks the parameters of a TWAP execution: a positive amount, a window
    /// of at most a day, 1 to 100 intervals, tolerances of at most 1000 bps and
    /// a nonempty interval size range.
    pub fn validate_twap_params(&self, params: &TwapParams) -> (r: Result<(), AlgoError>)
        ensures
            answers_check(r, schedule_check(params.total_amount, params.time_window, params.num_intervals,
                params.slippage_tolerance_bps, params.min_interval_size, params.max_interval_size,
                params.price_deviation_bps)),
    {
        validate_schedule(
            params.total_amount,
            params.time_window,
            params.num_intervals,
            params.slippage_tolerance_bps,
            params.min_interval_size,
            params.max_interval_size,
            params.price_deviation_bps,
        )
    }

    /// Splits the order into `num_intervals` consecutive slices of equal
    /// duration starting at `now`, each of an equal share (the last adding the
    /// remainder) kept within the size limits.
    pub fn calculate_execution_plan(&self, params: &TwapParams, now: u64) -> (r: TwapExecutionPlan)
        requires
            params.num_intervals > 0,
            params.min_interval_size <= params.max_interval_size,
            now + params.time_window <= u64::MAX,
        ensures
            r.total_amount == params.total_amount,
            r.time_window == params.time_window,
            r.start_time == now,
            r.intervals@.len() == params.num_intervals,
            forall|i: int| 0 <= i < params.num_intervals ==> #[trigger] r.intervals@[i] == twap_interval(*params, now, i),
    {
        let n = params.num_intervals as u64;
        let interval_size = params.total_amount / n;
        let remainder = params.total_amount % n;
        let interval_duration = params.time_window / n;
        assert(interval_size + remainder <= params.total_amount) by (nonlinear_arith)
            requires
                interval_size == params.total_amount / n,
                remainder == params.total_amount % n,
                n >= 1;
        assert(interval_duration * n <= params.time_window) by (nonlinear_arith)
            requires interval_duration == params.time_window / n, n >= 1;
        let mut intervals: Vec<TwapInterval> = Vec::new();
        let mut current_time = now;
        let mut i: u32 = 0;
        while i < params.num_intervals
            invariant
                n == params.num_intervals,
                n >= 1,
                interval_size == params.total_amount / n,
                remainder == params.total_amount % n,
                interval_size + remainder <= params.total_amount,
                interval_duration == params.time_window / n,
                interval_duration * n <= params.time_window,
                now + params.time_window <= u64::MAX,
                params.min_interval_size <= params.max_interval_size,
                i <= params.num_intervals,
                current_time == now + i * interval_duration,
                intervals@.len() == i,
                forall|k: int| 0 <= k < i ==> #[trigger] intervals@[k] == twap_interval(*params, now, k),
            decreases params.num_intervals - i,
        {
            let size = if i == params.num_intervals - 1 { interval_size + remainder } else { interval_size };
            let adjusted_size = if size < params.min_interval_size {
                params.min_interval_size
            } else if size > params.max_interval_size {
                params.max_interval_size
            } else {
                size
            };
            assert((i + 1) * interval_duration <= interval_duration * n) by (nonlinear_arith)
                requires i + 1 <= n;
            assert((i + 1) * interval_duration == i * interval_duration + interval_duration) by (nonlinear_arith);
            let interval = TwapInterval {
                index: i,
                size: adjusted_size,
                start_time: current_time,
                end_time: current_time + interval_duration,
                target_price: 0,
                executed: false,
            };
            assert(interval == twap_interval(*params, now, i as int));
            intervals.push(interval);
            current_time = current_time + interval_duration;
            i = i + 1;
        }
        TwapExecutionPlan {
            intervals,
            total_amount: params.total_amount,
            time_window: params.time_window,
            start_time: now,
        }
    }

    /// Holds an executed slice to the risk limits of `params`.
    pub fn check_risk_limits(&self, params: &TwapParams, result: &TwapIntervalResult) -> (r: Result<(), AlgoError>)
        ensures
            reports_breach(r, first_breach(twap_limits(*params), params.total_amount, result.executed_amount,
                result.slippage_bps, result.execution_time), "TWAP"@),
            r is Ok <==> (result.executed_amount * 10_000 <= params.risk_params.max_single_execution_bps
                * params.total_amount && result.slippage_bps <= params.risk_params.max_price_deviation_bps
                && result.execution_time <= params.risk_params.max_execution_time
                && (params.risk_params.enable_emergency_stop ==> result.slippage_bps
                <= params.risk_params.emergency_stop_threshold_bps)),
    {
        let limits = IntervalLimits {
            max_single_execution_bps: params.risk_params.max_single_execution_bps,
            max_price_deviation_bps: params.risk_params.max_price_deviation_bps,
            max_execution_time: params.risk_params.max_execution_time,
            enable_emergency_stop: params.risk_params.enable_emergency_stop,
            emergency_stop_threshold_bps: params.risk_params.emergency_stop_threshold_bps,
        };
        check_interval_limits(
            &limits,
            params.total_amount,
            result.executed_amount,
            result.slippage_bps,
            result.execution_time,
            "TWAP",
        )
    }
}

/// Parameters that pass validation can always be planned: they have
/// intervals and a nonempty size range, and a plan starting at any time up to
/// a day before the end of time stays within `u64`.
pub proof fn law_validated_twap_is_plannable(p: TwapParams, now: u64)
    requires
        schedule_check(p.total_amount, p.time_window, p.num_intervals, p.slippage_tolerance_bps,
            p.min_interval_size, p.max_interval_size, p.price_deviation_bps) is None,
        now <= u64::MAX - 86400,
    ensures
        p.num_intervals > 0,
        p.min_interval_size <= p.max_interval_size,
        now + p.time_window <= u64::MAX,
{
}

/// When the equal shares fit the size limits, a TWAP schedule plans exactly
/// the whole order: its slice sizes add up to the total amount.
pub proof fn law_twap_plan_covers_order(total: u64, n: u32, min: u64, max: u64)
    requires
        n > 0,
        min <= total / (n as u64),
        total / (n as u64) + total % (n as u64) <= max,
    ensures
        twap_planned_total(total, n, min, max, n as nat) == total,
{
    let q = (total / (n as u64)) as int;
    let r = (total % (n as u64)) as int;
    assert(q <= q + r);
    assert forall|k: nat| k <= n - 1 implies #[trigger] twap_planned_total(total, n, min, max, k) == k * q by {
        lemma_prefix_total(total, n, min, max, k);
    }
    assert(twap_planned_total(total, n, min, max, (n - 1) as nat) == (n - 1) * q);
    assert(total == n * q + r) by (nonlinear_arith)
        requires q == total / (n as u64), r == total % (n as u64), n > 0;
    assert((n - 1) * q + (q + r) == n * q + r) by (nonlinear_arith);
}

proof fn lemma_prefix_total(total: u64, n: u32, min: u64, max: u64, k: nat)
    requires
        n > 0,
        k <= n - 1,
        min <= total / (n as u64),
        total / (n as u64) + total % (n as u64) <= max,
    ensures
        twap_planned_total(total, n, min, max, k) == k * ((total / (n as u64)) as int),
    decreases k,
{
    if k > 0 {
        lemma_prefix_total(total, n, min, max, (k - 1) as nat);
        let q = (total / (n as u64)) as int;
        assert(k - 1 != n - 1);
        assert(q <= max);
        assert(twap_interval_size(total, n, min, max, k - 1) == q);
        assert((k - 1) * q + q == k * q) by (nonlinear_arith);
        assert(twap_planned_total(total, n, min, max, k) == twap_planned_total(total, n, min, max, (k - 1) as nat)
            + twap_interval_size(total, n, min, max, k - 1));
    } else {
        assert(k * ((total / (n as u64)) as int) == 0) by (nonlinear_arith)
            requires k == 0;
    }
}

impl TwapAlgorithm {
    /// Settles one slice executed at `execution_price` with slippage
    /// `slippage_bps` against `target_price`: refused when the slippage exceeds
    /// the price-deviation tolerance, else the slice's result at cost
    /// `size * execution_price`.
    pub fn settle_interval(
        &self,
        interval: &TwapInterval,
        target_price: u64,
        execution_price: u64,
        slippage_bps: u32,
        execution_time: u64,
        params: &TwapParams,
    ) -> (r: Result<TwapIntervalResult, AlgoError>)
        requires
            interval.size * execution_price <= u64::MAX,
        ensures
            slippage_bps > params.price_deviation_bps ==> r matches Err(AlgoError::InvalidResult { reason: _ }),
            slippage_bps <= params.price_deviation_bps ==> r == Ok::<TwapIntervalResult, AlgoError>(TwapIntervalResult {
                interval_index: interval.index,
                executed_amount: interval.size,
                target_price,
                execution_price,
                total_cost: (interval.size * execution_price) as u64,
                slippage_bps,
                execution_time,
            }),
    {
        if slippage_bps > params.price_deviation_bps {
            return Err(AlgoError::InvalidResult { reason: tolerance_message(slippage_bps, params.price_deviation_bps) });
        }
        Ok(TwapIntervalResult {
            interval_index: interval.index,
            executed_amount: interval.size,
            target_price,
            execution_price,
            total_cost: interval.size * execution_price,
            slippage_bps,
            execution_time,
        })
    }
}

impl TwapProgress {
    /// Nothing executed yet.
    pub fn new() -> (r: Self)
        ensures
            r.total_executed == 0,
            r.total_cost == 0,
            r.total_slippage == 0,
            r.execution_times@ == Seq::<u64>::empty(),
            r.price_deviations@ == Seq::<u32>::empty(),
    {
        TwapProgress {
            total_executed: 0,
            total_cost: 0,
            total_slippage: 0,
            execution_times: Vec::new(),
            price_deviations: Vec::new(),
        }
    }

    /// Adds an executed slice that took `elapsed` seconds with price deviation
    /// `deviation_bps`, then holds it to the risk limits of `params`.
    pub fn record(&mut self, params: &TwapParams, result: &TwapIntervalResult, elapsed: u64, deviation_bps: u32) -> (r: Result<(), AlgoError>)
        requires
            old(self).total_executed + result.executed_amount <= u64::MAX,
            old(self).total_cost + result.total_cost <= u64::MAX,
            old(self).total_slippage + result.slippage_bps <= u32::MAX,
        ensures
            final(self).total_executed == old(self).total_executed + result.executed_amount,
            final(self).total_cost == old(self).total_cost + result.total_cost,
            final(self).total_slippage == old(self).total_slippage + result.slippage_bps,
            final(self).execution_times@ == old(self).execution_times@.push(elapsed),
            final(self).price_deviations@ == old(self).price_deviations@.push(deviation_bps),
            reports_breach(r, first_breach(twap_limits(*params), params.total_amount, result.executed_amount,
                result.slippage_bps, result.execution_time), "TWAP"@),
            r is Ok <==> (result.executed_amount * 10_000 <= params.risk_params.max_single_execution_bps
                * params.total_amount && result.slippage_bps <= params.risk_params.max_price_deviation_bps
                && result.execution_time <= params.risk_params.max_execution_time
                && (params.risk_params.enable_emergency_stop ==> result.slippage_bps
                <= params.risk_params.emergency_stop_threshold_bps)),
    {
        self.total_executed = self.total_executed + result.executed_amount;
        self.total_cost = self.total_cost + result.total_cost;
        self.total_slippage = self.total_slippage + result.slippage_bps;
        self.execution_times.push(elapsed);
        self.price_deviations.push(deviation_bps);
        let limits = IntervalLimits {
            max_single_execution_bps: params.risk_params.max_single_execution_bps,
            max_price_deviation_bps: params.risk_params.max_price_deviation_bps,
            max_execution_time: params.risk_params.max_execution_time,
            enable_emergency_stop: params.risk_params.enable_emergency_stop,
            emergency_stop_threshold_bps: params.risk_params.emergency_stop_threshold_bps,
        };
        check_interval_limits(&limits, params.total_amount, result.executed_amount, result.slippage_bps,
            result.execution_time, "TWAP")
    }

    /// The totals after a plan of `num_intervals` slices: the average price
    /// paid per unit (0 when nothing executed) and the average slippage per
    /// planned slice (0 for an empty plan).
    pub fn summary(&self, num_intervals: u32) -> (r: TwapSummary)
        ensures
            r.total_executed == self.total_executed,
            r.total_cost == self.total_cost,
            r.average_price == (if self.total_executed > 0 { self.total_cost / self.total_executed } else { 0 }),
            r.avg_slippage_bps == (if num_intervals > 0 { self.total_slippage / num_intervals } else { 0 }),
    {
        TwapSummary {
            total_executed: self.total_executed,
            total_cost: self.total_cost,
            average_price: if self.total_executed > 0 { self.total_cost / self.total_executed } else { 0 },
            avg_slippage_bps: if num_intervals > 0 { self.total_slippage / num_intervals } else { 0 },
        }
    }
}

} // verus!
