use vstd::prelude::*;
use crate::schedules::{answers_check, AlgoError, MAX_SLIPPAGE_BPS};
use crate::text::owned;

verus! {

/// Limits of a routed trade.
#[derive(Debug, Clone, Copy, PartialEq, Eq, Structural)]
pub struct SmartRoutingRiskParams {
    pub max_single_route_bps: u32,
    pub max_price_deviation_bps: u32,
    pub max_execution_time: u64,
    pub enable_emergency_stop: bool,
    pub emergency_stop_threshold_bps: u32,
    pub max_route_complexity: u32,
    pub min_liquidity_requirement: u64,
}

/// Monitoring switches of a routed trade.
#[derive(Debug, Clone, Copy, PartialEq, Eq, Structural)]
pub struct SmartRoutingMonitoringParams {
    pub enable_monitoring: bool,
    pub metrics_interval: u64,
    pub enable_detailed_logging: bool,
    pub enable_performance_warnings: bool,
    pub enable_route_analysis: bool,
}

/// Parameters of a routed trade from one token to another.
#[derive(Debug, Clone, Copy)]
pub struct SmartRoutingParams {
    pub from_token: [u8; 32],
    pub to_token: [u8; 32],
    pub amount_in: u64,
    pub min_amount_out: u64,
    pub slippage_tolerance_bps: u32,
    pub enable_arbitrage_detection: bool,
    pub enable_multi_hop: bool,
    pub max_hops: u32,
    pub enable_cost_optimization: bool,
    pub enable_liquidity_priority: bool,
    pub risk_params: SmartRoutingRiskParams,
    pub monitoring_params: SmartRoutingMonitoringParams,
}

/// Most hops a route may take.
pub const MAX_ROUTE_HOPS: u32 = 10;

/// The reason the first failed check of routing parameters gives, if any:
/// a positive input, a tolerance of at most 1000 bps, 1 to 10 hops.
pub open spec fn routing_check(p: SmartRoutingParams) -> Option<Seq<char>> {
    if p.amount_in == 0 {
        Some("Amount in must be greater than 0"@)
    } else if p.slippage_tolerance_bps > MAX_SLIPPAGE_BPS {
        Some("Slippage tolerance must not exceed 1000 bps"@)
    } else if p.max_hops == 0 || p.max_hops > MAX_ROUTE_HOPS {
        Some("Max hops must be between 1 and 10"@)
    } else {
        None
    }
}

/// Checks the parameters of a routed trade.
pub fn validate_routing_params(params: &SmartRoutingParams) -> (r: Result<(), AlgoError>)
    ensures
        answers_check(r, routing_check(*params)),
{
    if params.amount_in == 0 {
        return Err(AlgoError::InvalidParameters { reason: owned("Amount in must be greater than 0") });
    }
    if params.slippage_tolerance_bps > MAX_SLIPPAGE_BPS {
        return Err(AlgoError::InvalidParameters { reason: owned("Slippage tolerance must not exceed 1000 bps") });
    }
    if params.max_hops == 0 || params.max_hops > MAX_ROUTE_HOPS {
        return Err(AlgoError::InvalidParameters { reason: owned("Max hops must be between 1 and 10") });
    }
    Ok(())
}

/// The profit a triangular arbitrage through a routing graph of `node_count`
/// tokens is expected to make on `amount_in`: half a percent of it, rounded
/// down; none with fewer than three tokens or where that rounds to zero.
pub fn triangular_profit(node_count: u64, amount_in: u64) -> (r: Option<u64>)
    requires
        amount_in * 5 <= u64::MAX,
    ensures
        node_count < 3 ==> r is None,
        node_count >= 3 ==> r == (if amount_in * 5 / 1000 > 0 {
            Some((amount_in * 5 / 1000) as u64)
        } else {
            None::<u64>
        }),
{
    if node_count < 3 {
        return None;
    }
    let profit = amount_in * 5 / 1000;
    if profit > 0 {
        Some(profit)
    } else {
        None
    }
}

} // verus!
