use vstd::prelude::*;
use crate::errors::ErrorCode;
use crate::text::owned;

verus! {

/// Simulated price of the first interval, in price units.
pub const BASE_PRICE: u64 = 1_000_000;

/// Number of intervals the time- and volume-weighted schedules use.
pub const SCHEDULE_INTERVALS: u64 = 10;

/// Parameters of a simple execution: the order size and its slippage tolerance.
#[derive(Debug, Clone, Copy, PartialEq, Eq, Structural)]
pub struct ExecutionParams {
    pub order_size: u64,
    pub slippage_tolerance: u64,
}

/// Result of an execution strategy.
#[derive(Debug, Clone, Copy, PartialEq, Eq, Structural)]
pub struct ExecutionResult {
    pub optimized_size: u64,
    pub expected_cost: u64,
}

/// Result of a routing strategy.
pub struct RoutingResult {
    pub best_dex: String,
    pub expected_out: u64,
}

/// Result of a risk strategy.
#[derive(Debug, Clone, Copy, PartialEq, Eq, Structural)]
pub struct RiskResult {
    pub risk_score: u8,
    pub is_acceptable: bool,
}

/// Result of an optimizer strategy.
#[derive(Debug, Clone, Copy, PartialEq, Eq, Structural)]
pub struct OptimizerResult {
    pub optimized_value: u64,
    pub achieved_cost: u64,
}

/// Families of algorithm.
#[derive(Debug, Clone, Copy, PartialEq, Eq, Structural)]
pub enum AlgorithmType {
    Execution,
    Routing,
    Risk,
    Optimizer,
    Other,
}

/// Why an algorithm refused its input.
#[derive(Debug)]
pub enum AlgorithmError {
    InvalidInput,
    CalculationError,
    Other(String),
}

/// Size the time-weighted schedule executes in interval `i`: an equal share,
/// the last interval taking what remains.
pub open spec fn twap_size(order: u64, i: int) -> int {
    if i == SCHEDULE_INTERVALS - 1 {
        order - (SCHEDULE_INTERVALS - 1) * ((order / SCHEDULE_INTERVALS) as int)
    } else {
        (order / SCHEDULE_INTERVALS) as int
    }
}

/// Simulated price of interval `i`, rising linearly with the slippage tolerance.
pub open spec fn interval_price(slippage: u64, i: int) -> int {
    BASE_PRICE + (i * slippage) / (SCHEDULE_INTERVALS as int)
}

/// Cost of the first `k` intervals of the time-weighted schedule.
pub open spec fn twap_partial_cost(order: u64, slippage: u64, k: nat) -> int
    decreases k,
{
    if k == 0 {
        0
    } else {
        twap_partial_cost(order, slippage, (k - 1) as nat)
            + twap_size(order, k - 1) * interval_price(slippage, k - 1)
    }
}

/// Cost of the whole time-weighted schedule.
pub open spec fn twap_cost(order: u64, slippage: u64) -> int {
    twap_partial_cost(order, slippage, SCHEDULE_INTERVALS as nat)
}

proof fn lemma_twap_partial_monotone(order: u64, slippage: u64, k: nat, m: nat)
    requires
        k <= m <= SCHEDULE_INTERVALS,
    ensures
        0 <= twap_partial_cost(order, slippage, k) <= twap_partial_cost(order, slippage, m),
    decreases m,
{
    if k < m {
        lemma_twap_partial_monotone(order, slippage, k, (m - 1) as nat);
        let s = twap_size(order, m - 1);
        let p = interval_price(slippage, m - 1);
        assert(s >= 0);
        assert(p >= 0);
        assert(s * p >= 0) by (nonlinear_arith)
            requires s >= 0, p >= 0;
    } else if k > 0 {
        lemma_twap_partial_monotone(order, slippage, (k - 1) as nat, (k - 1) as nat);
        let s = twap_size(order, k - 1);
        let p = interval_price(slippage, k - 1);
        assert(s * p >= 0) by (nonlinear_arith)
            requires s >= 0, p >= 0;
    }
}

/// Whether a time- or volume-weighted execution of these parameters stays
/// within `u64` arithmetic.
pub open spec fn twap_fits(p: ExecutionParams) -> bool {
    &&& (SCHEDULE_INTERVALS - 1) * p.slippage_tolerance <= u64::MAX
    &&& twap_cost(p.order_size, p.slippage_tolerance) <= u64::MAX
}

/// Executes the order in ten equal slices, the last taking the remainder, at
/// prices rising linearly with the slippage tolerance.
pub struct TwapImpl;

impl TwapImpl {
    /// Fails on an empty order or a zero tolerance; otherwise executes the
    /// whole order at the cost of the schedule.
    pub fn execute(&self, params: &ExecutionParams) -> (r: Result<ExecutionResult, AlgorithmError>)
        requires
            twap_fits(*params),
        ensures
            (params.order_size == 0 || params.slippage_tolerance == 0) ==> r matches Err(AlgorithmError::InvalidInput),
            (params.order_size != 0 && params.slippage_tolerance != 0) ==> r == Ok::<ExecutionResult, AlgorithmError>(
                ExecutionResult {
                    optimized_size: params.order_size,
                    expected_cost: twap_cost(params.order_size, params.slippage_tolerance) as u64,
                }),
    {
        if params.order_size == 0 || params.slippage_tolerance == 0 {
            return Err(AlgorithmError::InvalidInput);
        }
        let order = params.order_size;
        let slippage = params.slippage_tolerance;
        let intervals: u64 = SCHEDULE_INTERVALS;
        let avg_size = order / intervals;
        let mut executed: u64 = 0;
        let mut total_cost: u64 = 0;
        let mut i: u64 = 0;
        while i < intervals
            invariant
                intervals == SCHEDULE_INTERVALS,
                avg_size == order / SCHEDULE_INTERVALS,
                i <= intervals,
                executed == (if i == SCHEDULE_INTERVALS { order as int } else { i * avg_size }),
                total_cost == twap_partial_cost(order, slippage, i as nat),
                (SCHEDULE_INTERVALS - 1) * slippage <= u64::MAX,
                twap_cost(order, slippage) <= u64::MAX,
            decreases intervals - i,
        {
            proof {
                assert(i * avg_size <= order) by (nonlinear_arith)
                    requires i <= 10, avg_size == order / 10;
            }
            let size = if i == intervals - 1 { order - executed } else { avg_size };
            assert(i * slippage <= (SCHEDULE_INTERVALS - 1) * slippage) by (nonlinear_arith)
                requires i <= SCHEDULE_INTERVALS - 1;
            let price = BASE_PRICE + (i * slippage / intervals);
            proof {
                assert(size == twap_size(order, i as int));
                assert(price == interval_price(slippage, i as int));
                lemma_twap_partial_monotone(order, slippage, (i + 1) as nat, SCHEDULE_INTERVALS as nat);
                assert(twap_partial_cost(order, slippage, (i + 1) as nat)
                    == total_cost + size * price);
            }
            total_cost = total_cost + size * price;
            proof {
                assert((i + 1) * avg_size == i * avg_size + avg_size) by (nonlinear_arith);
                assert((i + 1) * avg_size <= order) by (nonlinear_arith)
                    requires i + 1 <= 10, avg_size == order / 10;
            }
            executed = executed + size;
            i = i + 1;
        }
        Ok(ExecutionResult { optimized_size: order, expected_cost: total_cost })
    }

    /// Name under which the strategy is registered.
    pub fn name(&self) -> (r: &'static str)
        ensures
            r@ == "TWAP"@,
    {
        "TWAP"
    }
}

/// Executes the order in ten slices weighted towards the later intervals
/// (weights 10, 20, ..., 100), the remainder of the integer split filled last,
/// every slice at the base price.
pub struct VwapImpl;

impl VwapImpl {
    /// Fails on an empty order or a zero tolerance; otherwise executes the
    /// whole order, at `order_size * BASE_PRICE`.
    pub fn execute(&self, params: &ExecutionParams) -> (r: Result<ExecutionResult, AlgorithmError>)
        requires
            params.order_size * BASE_PRICE <= u64::MAX,
        ensures
            (params.order_size == 0 || params.slippage_tolerance == 0) ==> r matches Err(AlgorithmError::InvalidInput),
            (params.order_size != 0 && params.slippage_tolerance != 0) ==> r == Ok::<ExecutionResult, AlgorithmError>(
                ExecutionResult {
                    optimized_size: params.order_size,
                    expected_cost: (params.order_size * BASE_PRICE) as u64,
                }),
    {
        if params.order_size == 0 || params.slippage_tolerance == 0 {
            return Err(AlgorithmError::InvalidInput);
        }
        let order = params.order_size;
        let intervals: u64 = SCHEDULE_INTERVALS;
        let mut weights: Vec<u64> = Vec::new();
        let mut total_weight: u64 = 0;
        let mut i: u64 = 0;
        while i < intervals
            invariant
                intervals == SCHEDULE_INTERVALS,
                i <= intervals,
                weights@.len() == i,
                forall|j: int| 0 <= j < i ==> weights@[j] == (j + 1) * 10,
                total_weight == 5 * i * (i + 1),
            decreases intervals - i,
        {
            let w = (i + 1) * 10;
            assert(5 * i * (i + 1) <= 450) by (nonlinear_arith)
                requires i < 10;
            weights.push(w);
            total_weight = total_weight + w;
            proof {
                assert(5 * (i + 1) * (i + 2) == 5 * i * (i + 1) + (i + 1) * 10) by (nonlinear_arith);
            }
            i = i + 1;
        }
        assert(total_weight == 550) by (nonlinear_arith)
            requires total_weight == 5 * i * (i + 1), i == 10;
        let mut executed: u64 = 0;
        let mut total_cost: u64 = 0;
        let mut k: usize = 0;
        while k < 10
            invariant
                k <= 10,
                weights@.len() == 10,
                forall|j: int| 0 <= j < 10 ==> weights@[j] == (j + 1) * 10,
                total_weight == 550,
                order * BASE_PRICE <= u64::MAX,
                executed * 550 <= order * (5 * k * (k + 1)),
                total_cost == executed * BASE_PRICE,
            decreases 10 - k,
        {
            let w = weights[k];
            assert(order * w <= order * 100) by (nonlinear_arith)
                requires w <= 100;
            assert(order * 100 <= u64::MAX) by (nonlinear_arith)
                requires order * BASE_PRICE <= u64::MAX;
            let size = order * w / total_weight;
            proof {
                assert(size * 550 <= order * w) by (nonlinear_arith)
                    requires size == order * w / 550;
                assert(order * (5 * k * (k + 1)) + order * w == order * (5 * (k + 1) * (k + 2))) by (nonlinear_arith)
                    requires w == (k + 1) * 10;
                assert(order * (5 * (k + 1) * (k + 2)) <= order * 550) by (nonlinear_arith)
                    requires k + 1 <= 10;
                assert((executed + size) * BASE_PRICE <= order * BASE_PRICE) by (nonlinear_arith)
                    requires (executed + size) * 550 <= order * 550;
            }
            total_cost = total_cost + size * BASE_PRICE;
            executed = executed + size;
            k = k + 1;
        }
        if executed < order {
            let rest = order - executed;
            proof {
                assert(total_cost + rest * BASE_PRICE == order * BASE_PRICE) by (nonlinear_arith)
                    requires total_cost == executed * BASE_PRICE, rest == order - executed;
            }
            total_cost = total_cost + rest * BASE_PRICE;
        } else {
            proof {
                assert(executed * 550 <= order * 550);
                assert(executed == order);
            }
        }
        Ok(ExecutionResult { optimized_size: order, expected_cost: total_cost })
    }

    /// Name under which the strategy is registered.
    pub fn name(&self) -> (r: &'static str)
        ensures
            r@ == "VWAP"@,
    {
        "VWAP"
    }
}

/// Executes exactly the requested order at one unit of cost per `BASE_PRICE`.
pub struct MockExecutionAlgorithm;

impl MockExecutionAlgorithm {
    /// Returns the order size unchanged, at `order_size * BASE_PRICE`.
    pub fn execute(&self, params: &ExecutionParams) -> (r: Result<ExecutionResult, AlgorithmError>)
        requires
            params.order_size * BASE_PRICE <= u64::MAX,
        ensures
            r == Ok::<ExecutionResult, AlgorithmError>(ExecutionResult {
                optimized_size: params.order_size,
                expected_cost: (params.order_size * BASE_PRICE) as u64,
            }),
    {
        Ok(ExecutionResult { optimized_size: params.order_size, expected_cost: params.order_size * BASE_PRICE })
    }

    /// Name under which the strategy is registered.
    pub fn name(&self) -> (r: &'static str)
        ensures
            r@ == "MockExecution"@,
    {
        "MockExecution"
    }
}

/// Parameters of a position risk check.
#[derive(Debug, Clone, Copy, PartialEq, Eq, Structural)]
pub struct RiskParams {
    pub position_size: u64,
    pub volatility: u64,
    pub max_drawdown: u64,
}

/// Scores a position as its size times its volatility (a percentage) over one
/// more than the maximum drawdown, capped at 255, and accepts scores under 100.
pub struct RiskManagementImpl;

/// The risk score of a position: `position * volatility% / (drawdown + 1)`,
/// rounded down and capped at 255 so that it fits a byte.
pub open spec fn position_risk_score(p: RiskParams) -> u8 {
    let raw = (p.position_size * p.volatility) / (100 * (p.max_drawdown + 1));
    if raw > 255 { 255 } else { raw as u8 }
}

impl RiskManagementImpl {
    /// Fails on an empty position or zero volatility; otherwise scores it.
    pub fn assess(&self, params: &RiskParams) -> (r: Result<RiskResult, AlgorithmError>)
        ensures
            (params.position_size == 0 || params.volatility == 0) ==> r matches Err(AlgorithmError::InvalidInput),
            (params.position_size != 0 && params.volatility != 0) ==> r == Ok::<RiskResult, AlgorithmError>(
                RiskResult {
                    risk_score: position_risk_score(*params),
                    is_acceptable: position_risk_score(*params) < 100,
                }),
    {
        if params.position_size == 0 || params.volatility == 0 {
            return Err(AlgorithmError::InvalidInput);
        }
        assert(params.position_size * params.volatility <= 0xffff_ffff_ffff_ffff * 0xffff_ffff_ffff_ffffu128) by (nonlinear_arith)
            requires params.position_size <= 0xffff_ffff_ffff_ffffu64, params.volatility <= 0xffff_ffff_ffff_ffffu64;
        let product: u128 = (params.position_size as u128) * (params.volatility as u128);
        let divisor: u128 = 100 * (params.max_drawdown as u128 + 1);
        let raw: u128 = product / divisor;
        let risk_score: u8 = if raw > 255 { 255 } else { raw as u8 };
        Ok(RiskResult { risk_score, is_acceptable: risk_score < 100 })
    }

    /// Name under which the strategy is registered.
    pub fn name(&self) -> (r: &'static str)
        ensures
            r@ == "RiskManagement"@,
    {
        "RiskManagement"
    }
}

/// Parameters of a routing request.
pub struct RoutingParams {
    pub input_mint: [u8; 32],
    pub output_mint: [u8; 32],
    pub amount_in: u64,
    pub dex_candidates: Vec<String>,
}

/// Routes every order through the first candidate DEX.
pub struct SmartRoutingImpl;

impl SmartRoutingImpl {
    /// Fails without candidates; otherwise picks the first candidate and
    /// expects the whole input amount out.
    pub fn route(&self, params: &RoutingParams) -> (r: Result<RoutingResult, AlgorithmError>)
        ensures
            params.dex_candidates@.len() == 0 ==> r matches Err(AlgorithmError::InvalidInput),
            params.dex_candidates@.len() > 0 ==> (r matches Ok(res)
                && res.best_dex@ == params.dex_candidates@[0]@
                && res.expected_out == params.amount_in),
    {
        if params.dex_candidates.len() == 0 {
            return Err(AlgorithmError::InvalidInput);
        }
        Ok(RoutingResult { best_dex: params.dex_candidates[0].clone(), expected_out: params.amount_in })
    }

    /// Name under which the strategy is registered.
    pub fn name(&self) -> (r: &'static str)
        ensures
            r@ == "SmartRouting"@,
    {
        "SmartRouting"
    }
}

/// A risk request: the amount at stake.
#[derive(Debug, Clone, Copy, PartialEq, Eq, Structural)]
pub struct AssessmentParams {
    pub amount: u64,
}

/// A risk verdict with its reason.
pub struct AssessmentResult {
    pub risk_score: u32,
    pub reason: String,
}

/// Rates every nonzero amount as low risk.
pub struct RiskAssessmentAlgorithm;

impl RiskAssessmentAlgorithm {
    /// Refuses a zero amount; otherwise a score of 100, "Low risk".
    pub fn assess(&self, params: &AssessmentParams) -> (r: Result<AssessmentResult, ErrorCode>)
        ensures
            params.amount == 0 ==> r matches Err(ErrorCode::InvalidAmount),
            params.amount > 0 ==> (r matches Ok(res) && res.risk_score == 100 && res.reason@ == "Low risk"@),
    {
        if params.amount == 0 {
            return Err(ErrorCode::InvalidAmount);
        }
        Ok(AssessmentResult { risk_score: 100, reason: owned("Low risk") })
    }
}

/// Checks the whole-number targets of a percentage-of-volume execution: a
/// positive target volume and a positive time window.
pub fn validate_pov_targets(target_volume: u64, time_window: u64) -> (r: Result<(), AlgorithmError>)
    ensures
        (target_volume == 0 || time_window == 0) ==> r matches Err(AlgorithmError::InvalidInput),
        (target_volume != 0 && time_window != 0) ==> r is Ok,
{
    if target_volume == 0 || time_window == 0 {
        return Err(AlgorithmError::InvalidInput);
    }
    Ok(())
}

} // verus!
