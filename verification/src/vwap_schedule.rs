use vstd::prelude::*;
use crate::schedules::{
    answers_check, check_interval_limits, tolerance_message, first_breach, reports_breach, schedule_check, validate_schedule,
    AlgoError, IntervalLimits,
};

verus! {

/// Limits each executed interval of a VWAP schedule is held to.
#[derive(Debug, Clone, Copy, PartialEq, Eq, Structural)]
pub struct VwapRiskParams {
    pub max_single_execution_bps: u32,
    pub max_price_deviation_bps: u32,
    pub max_execution_time: u64,
    pub enable_emergency_stop: bool,
    pub emergency_stop_threshold_bps: u32,
    pub max_volume_deviation_bps: u32,
}

/// Monitoring switches of a VWAP execution.
#[derive(Debug, Clone, Copy, PartialEq, Eq, Structural)]
pub struct VwapMonitoringParams {
    pub enable_monitoring: bool,
    pub metrics_interval: u64,
    pub enable_detailed_logging: bool,
    pub enable_performance_warnings: bool,
    pub enable_depth_monitoring: bool,
}

/// Parameters of a volume-weighted execution.
#[derive(Debug, Clone, Copy, PartialEq, Eq, Structural)]
pub struct VwapParams {
    pub total_amount: u64,
    pub time_window: u64,
    pub num_intervals: u32,
    pub slippage_tolerance_bps: u32,
    pub min_interval_size: u64,
    pub max_interval_size: u64,
    pub price_deviation_bps: u32,
    pub enable_dynamic_weighting: bool,
    pub enable_market_depth_analysis: bool,
    pub risk_params: VwapRiskParams,
    pub monitoring_params: VwapMonitoringParams,
}

/// Stage of a VWAP execution.
#[derive(Debug, Clone, Copy, PartialEq, Eq, Structural)]
pub enum VwapExecutionStatus {
    Initialized,
    Executing,
    Paused,
    Completed,
    Failed,
    Cancelled,
}

/// A level of an order book: price, size, and size up to this level.
#[derive(Debug, Clone, Copy, PartialEq, Eq, Structural)]
pub struct PriceLevel {
    pub price: u64,
    pub size: u64,
    pub cumulative_size: u64,
}

/// Checks the parameters of a VWAP execution, as a TWAP schedule's are checked.
pub fn validate_vwap_params(params: &VwapParams) -> (r: Result<(), AlgoError>)
    ensures
        answers_check(r, schedule_check(params.total_amount, params.time_window, params.num_intervals,
            params.slippage_tolerance_bps, params.min_interval_size, params.max_interval_size,
            params.price_deviation_bps)),
{
    validate_schedule(
        params.total_amount,
        params.time_window,
        params.num_intervals,
        params.slippage_tolerance_bps,
        params.min_interval_size,
        params.max_interval_size,
        params.price_deviation_bps,
    )
}

/// The limits a VWAP interval is held to.
pub open spec fn vwap_limits(p: VwapParams) -> IntervalLimits {
    IntervalLimits {
        max_single_execution_bps: p.risk_params.max_single_execution_bps,
        max_price_deviation_bps: p.risk_params.max_price_deviation_bps,
        max_execution_time: p.risk_params.max_execution_time,
        enable_emergency_stop: p.risk_params.enable_emergency_stop,
        emergency_stop_threshold_bps: p.risk_params.emergency_stop_threshold_bps,
    }
}

/// Holds a VWAP interval that executed `executed_amount` with slippage
/// `slippage_bps` in `execution_time` seconds to the limits of `params`.
pub fn check_vwap_risk_limits(
    params: &VwapParams,
    executed_amount: u64,
    slippage_bps: u32,
    execution_time: u64,
) -> (r: Result<(), AlgoError>)
    ensures
        reports_breach(r, first_breach(vwap_limits(*params), params.total_amount, executed_amount,
            slippage_bps, execution_time), "VWAP"@),
        r is Ok <==> (executed_amount * 10_000 <= params.risk_params.max_single_execution_bps * params.total_amount
            && slippage_bps <= params.risk_params.max_price_deviation_bps
            && execution_time <= params.risk_params.max_execution_time
            && (params.risk_params.enable_emergency_stop ==> slippage_bps
            <= params.risk_params.emergency_stop_threshold_bps)),
{
    let limits = IntervalLimits {
        max_single_execution_bps: params.risk_params.max_single_execution_bps,
        max_price_deviation_bps: params.risk_params.max_price_deviation_bps,
        max_execution_time: params.risk_params.max_execution_time,
        enable_emergency_stop: params.risk_params.enable_emergency_stop,
        emergency_stop_threshold_bps: params.risk_params.emergency_stop_threshold_bps,
    };
    check_interval_limits(&limits, params.total_amount, executed_amount, slippage_bps, execution_time, "VWAP")
}

/// Settles one slice of `size` executed at `execution_price` with slippage
/// `slippage_bps`: refused when the slippage exceeds the price-deviation
/// tolerance, else its cost `size * execution_price`.
pub fn settle_vwap_interval(params: &VwapParams, size: u64, execution_price: u64, slippage_bps: u32) -> (r: Result<u64, AlgoError>)
    requires
        size * execution_price <= u64::MAX,
    ensures
        slippage_bps > params.price_deviation_bps ==> r matches Err(AlgoError::InvalidResult { reason: _ }),
        slippage_bps <= params.price_deviation_bps ==> r == Ok::<u64, AlgoError>((size * execution_price) as u64),
{
    if slippage_bps > params.price_deviation_bps {
        return Err(AlgoError::InvalidResult { reason: tolerance_message(slippage_bps, params.price_deviation_bps) });
    }
    Ok(size * execution_price)
}

/// What a VWAP execution has done so far.
pub struct VwapProgress {
    pub total_executed: u64,
    pub total_cost: u64,
    pub total_weighted_cost: u64,
    pub total_weight: u64,
    pub execution_times: Vec<u64>,
    pub price_deviations: Vec<u32>,
    pub volume_distribution: Vec<u64>,
}

impl VwapProgress {
    /// Nothing executed yet.
    pub fn new() -> (r: Self)
        ensures
            r.total_executed == 0,
            r.total_cost == 0,
            r.total_weighted_cost == 0,
            r.total_weight == 0,
            r.execution_times@ == Seq::<u64>::empty(),
            r.price_deviations@ == Seq::<u32>::empty(),
            r.volume_distribution@ == Seq::<u64>::empty(),
    {
        VwapProgress {
            total_executed: 0,
            total_cost: 0,
            total_weighted_cost: 0,
            total_weight: 0,
            execution_times: Vec::new(),
            price_deviations: Vec::new(),
            volume_distribution: Vec::new(),
        }
    }

    /// Adds a slice that executed `executed` at `execution_price` for
    /// `cost`, with slippage `slippage_bps`, in `execution_time` seconds,
    /// `elapsed` seconds after it was due and `deviation_bps` from the market;
    /// then holds it to the risk limits of `params`.
    pub fn record(
        &mut self,
        params: &VwapParams,
        executed: u64,
        cost: u64,
        execution_price: u64,
        slippage_bps: u32,
        execution_time: u64,
        elapsed: u64,
        deviation_bps: u32,
    ) -> (r: Result<(), AlgoError>)
        requires
            old(self).total_executed + executed <= u64::MAX,
            old(self).total_cost + cost <= u64::MAX,
            old(self).total_weighted_cost + executed * execution_price <= u64::MAX,
            old(self).total_weight + executed <= u64::MAX,
        ensures
            final(self).total_executed == old(self).total_executed + executed,
            final(self).total_cost == old(self).total_cost + cost,
            final(self).total_weighted_cost == old(self).total_weighted_cost + executed * execution_price,
            final(self).total_weight == old(self).total_weight + executed,
            final(self).execution_times@ == old(self).execution_times@.push(elapsed),
            final(self).price_deviations@ == old(self).price_deviations@.push(deviation_bps),
            final(self).volume_distribution@ == old(self).volume_distribution@.push(executed),
            reports_breach(r, first_breach(vwap_limits(*params), params.total_amount, executed, slippage_bps,
                execution_time), "VWAP"@),
    {
        assert(executed * execution_price >= 0) by (nonlinear_arith);
        self.total_executed = self.total_executed + executed;
        self.total_cost = self.total_cost + cost;
        self.total_weighted_cost = self.total_weighted_cost + executed * execution_price;
        self.total_weight = self.total_weight + executed;
        self.execution_times.push(elapsed);
        self.price_deviations.push(deviation_bps);
        self.volume_distribution.push(executed);
        check_vwap_risk_limits(params, executed, slippage_bps, execution_time)
    }

    /// The volume-weighted price paid: weighted cost over volume, 0 before any volume.
    pub fn vwap_price(&self) -> (r: u64)
        ensures
            r == (if self.total_weight > 0 { self.total_weighted_cost / self.total_weight } else { 0 }),
    {
        if self.total_weight > 0 { self.total_weighted_cost / self.total_weight } else { 0 }
    }
}

} // verus!
