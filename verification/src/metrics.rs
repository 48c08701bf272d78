use vstd::prelude::*;

verus! {

/// Kinds of trading algorithm tracked by the metrics.
#[derive(Debug, Clone, Copy, PartialEq, Eq, Structural)]
pub enum AlgorithmType {
    TWAP,
    VWAP,
    SmartRouting,
    MarketMaking,
    Arbitrage,
    RiskAssessment,
}

/// Running statistics of an algorithm's operations.
#[derive(Debug, Clone, Copy, PartialEq, Eq, Structural)]
pub struct AlgorithmMetrics {
    pub slippage_bps: u64,
    pub price_improvement_bps: u64,
    pub mev_protection_score: u32,
    pub liquidity_efficiency: u32,
    pub risk_adjusted_return: i64,
    pub total_operations: u64,
    pub successful_operations: u64,
    pub failed_operations: u64,
    pub avg_execution_time_ms: u64,
    pub total_execution_time_ms: u64,
    pub last_operation_timestamp: i64,
}

/// Outcome of one run of a trading algorithm.
#[derive(Debug, Clone, Copy, PartialEq, Eq, Structural)]
pub struct AlgorithmResult {
    pub algorithm_type: AlgorithmType,
    pub volume_processed: u64,
    pub efficiency_score: u32,
    pub gas_used: u64,
    pub execution_time_ms: u64,
    pub success: bool,
    pub metrics: AlgorithmMetrics,
}

/// `part` out of `total`, in basis points (rounded down).
pub open spec fn rate_bps(part: u64, total: u64) -> int {
    (part * 10_000) / (total as int)
}

impl AlgorithmMetrics {
    /// Metrics with every counter at zero.
    pub fn new() -> (r: AlgorithmMetrics)
        ensures
            r.total_operations == 0,
            r.successful_operations == 0,
            r.failed_operations == 0,
            r.total_execution_time_ms == 0,
            r.avg_execution_time_ms == 0,
            r.slippage_bps == 0,
            r.price_improvement_bps == 0,
            r.mev_protection_score == 0,
            r.liquidity_efficiency == 0,
            r.risk_adjusted_return == 0,
            r.last_operation_timestamp == 0,
    {
        AlgorithmMetrics {
            slippage_bps: 0,
            price_improvement_bps: 0,
            mev_protection_score: 0,
            liquidity_efficiency: 0,
            risk_adjusted_return: 0,
            total_operations: 0,
            successful_operations: 0,
            failed_operations: 0,
            avg_execution_time_ms: 0,
            total_execution_time_ms: 0,
            last_operation_timestamp: 0,
        }
    }

    /// Every operation counted is either a success or a failure.
    pub open spec fn consistent(&self) -> bool {
        self.successful_operations + self.failed_operations == self.total_operations
    }

    /// Records one operation that took `execution_time_ms` and finished at `now`.
    pub fn update_with_operation(&mut self, success: bool, execution_time_ms: u64, now: i64)
        requires
            old(self).total_operations < u64::MAX,
            success ==> old(self).successful_operations < u64::MAX,
            !success ==> old(self).failed_operations < u64::MAX,
            old(self).total_execution_time_ms + execution_time_ms <= u64::MAX,
        ensures
            final(self).total_operations == old(self).total_operations + 1,
            final(self).successful_operations == old(self).successful_operations + (if success { 1int } else { 0 }),
            final(self).failed_operations == old(self).failed_operations + (if success { 0int } else { 1 }),
            final(self).total_execution_time_ms == old(self).total_execution_time_ms + execution_time_ms,
            final(self).avg_execution_time_ms == final(self).total_execution_time_ms / final(self).total_operations,
            final(self).last_operation_timestamp == now,
            final(self).slippage_bps == old(self).slippage_bps,
            final(self).price_improvement_bps == old(self).price_improvement_bps,
            final(self).mev_protection_score == old(self).mev_protection_score,
            final(self).liquidity_efficiency == old(self).liquidity_efficiency,
            final(self).risk_adjusted_return == old(self).risk_adjusted_return,
            old(self).consistent() ==> final(self).consistent(),
    {
        self.total_operations = self.total_operations + 1;
        if success {
            self.successful_operations = self.successful_operations + 1;
        } else {
            self.failed_operations = self.failed_operations + 1;
        }
        self.total_execution_time_ms = self.total_execution_time_ms + execution_time_ms;
        self.avg_execution_time_ms = self.total_execution_time_ms / self.total_operations;
        self.last_operation_timestamp = now;
    }

    /// Share of successful operations in basis points; 10000 before any operation.
    pub fn success_rate_bps(&self) -> (r: u16)
        requires
            self.successful_operations <= self.total_operations,
        ensures
            self.total_operations > 0 ==> r == rate_bps(self.successful_operations, self.total_operations),
            self.total_operations == 0 ==> r == 10_000,
    {
        if self.total_operations > 0 {
            let v: u128 = (self.successful_operations as u128) * 10_000 / (self.total_operations as u128);
            proof {
                assert(self.successful_operations * 10_000 <= self.total_operations * 10_000) by (nonlinear_arith)
                    requires self.successful_operations <= self.total_operations;
                assert(v <= 10_000) by (nonlinear_arith)
                    requires
                        v == rate_bps(self.successful_operations, self.total_operations),
                        self.successful_operations * 10_000 <= self.total_operations * 10_000,
                        self.total_operations > 0;
            }
            v as u16
        } else {
            10_000
        }
    }

    /// Share of failed operations in basis points; 0 before any operation.
    pub fn error_rate_bps(&self) -> (r: u16)
        requires
            self.failed_operations <= self.total_operations,
        ensures
            self.total_operations > 0 ==> r == rate_bps(self.failed_operations, self.total_operations),
            self.total_operations == 0 ==> r == 0,
    {
        if self.total_operations > 0 {
            let v: u128 = (self.failed_operations as u128) * 10_000 / (self.total_operations as u128);
            proof {
                assert(self.failed_operations * 10_000 <= self.total_operations * 10_000) by (nonlinear_arith)
                    requires self.failed_operations <= self.total_operations;
                assert(v <= 10_000) by (nonlinear_arith)
                    requires
                        v == rate_bps(self.failed_operations, self.total_operations),
                        self.failed_operations * 10_000 <= self.total_operations * 10_000,
                        self.total_operations > 0;
            }
            v as u16
        } else {
            0
        }
    }
}

/// When every operation is a success or a failure, the success and error rates
/// together never exceed 100%.
pub proof fn law_rates_within_whole(m: AlgorithmMetrics)
    requires
        m.consistent(),
        m.total_operations > 0,
    ensures
        rate_bps(m.successful_operations, m.total_operations) + rate_bps(m.failed_operations, m.total_operations)
            <= 10_000,
{
    let t = m.total_operations as int;
    let s = m.successful_operations as int;
    let f = m.failed_operations as int;
    assert((s * 10_000) / t + (f * 10_000) / t <= (s * 10_000 + f * 10_000) / t) by (nonlinear_arith)
        requires t > 0, s >= 0, f >= 0;
    assert(s * 10_000 + f * 10_000 == t * 10_000) by (nonlinear_arith)
        requires s + f == t;
    assert((t * 10_000) / t == 10_000) by (nonlinear_arith)
        requires t > 0;
}

} // verus!
