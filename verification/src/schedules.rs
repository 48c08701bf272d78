use vstd::prelude::*;
use crate::text::owned;

verus! {

/// Longest time window a schedule may span, in seconds.
pub const MAX_REBALANCE_INTERVAL: u64 = 86400;

/// Largest slippage or price deviation a schedule may tolerate, in basis points.
pub const MAX_SLIPPAGE_BPS: u32 = 1000;

/// Most intervals a schedule may be split into.
pub const MAX_SCHEDULE_INTERVALS: u32 = 100;

/// Deviation above which an interval counts as a threshold violation, in basis points.
pub const DEVIATION_THRESHOLD_BPS: u32 = 100;

/// Why a scheduled algorithm refused its parameters or a result.
#[derive(Debug)]
pub enum AlgoError {
    InvalidParameters { reason: String },
    InvalidResult { reason: String },
    ExecutionTimeout { algorithm_name: String },
}

/// Formats the refusal of an over-large single execution.
///
/// Trusted: builds the message with std's `format!`; nothing is claimed of its text.
#[verifier::external_body]
fn ratio_message(ratio_bps: u128, limit_bps: u32) -> (r: String) {
    format!("Single execution ratio {} bps exceeds limit {} bps", ratio_bps, limit_bps)
}

/// Formats the refusal of an over-large price deviation.
///
/// Trusted: builds the message with std's `format!`; nothing is claimed of its text.
#[verifier::external_body]
fn deviation_message(deviation_bps: u32, limit_bps: u32) -> (r: String) {
    format!("Price deviation {} bps exceeds limit {} bps", deviation_bps, limit_bps)
}

/// Formats the refusal of a slice whose price strayed beyond the tolerance.
///
/// Trusted: builds the message with std's `format!`; nothing is claimed of its text.
#[verifier::external_body]
pub(crate) fn tolerance_message(deviation_bps: u32, tolerance_bps: u32) -> (r: String) {
    format!("Price deviation {} bps exceeds tolerance {} bps", deviation_bps, tolerance_bps)
}

/// What a schedule's parameters are checked against, in order; `None` when
/// they are acceptable, else the reason given for the first failed check.
pub open spec fn schedule_check(
    total_amount: u64,
    time_window: u64,
    num_intervals: u32,
    slippage_tolerance_bps: u32,
    min_interval_size: u64,
    max_interval_size: u64,
    price_deviation_bps: u32,
) -> Option<Seq<char>> {
    if total_amount == 0 {
        Some("Total amount must be greater than 0"@)
    } else if time_window == 0 || time_window > MAX_REBALANCE_INTERVAL {
        Some("Time window must be between 1 and 86400"@)
    } else if num_intervals == 0 || num_intervals > MAX_SCHEDULE_INTERVALS {
        Some("Number of intervals must be between 1 and 100"@)
    } else if slippage_tolerance_bps > MAX_SLIPPAGE_BPS {
        Some("Slippage tolerance must not exceed 1000 bps"@)
    } else if min_interval_size == 0 || min_interval_size > max_interval_size {
        Some("Invalid interval size range"@)
    } else if price_deviation_bps > MAX_SLIPPAGE_BPS {
        Some("Price deviation tolerance must not exceed 1000 bps"@)
    } else {
        None
    }
}

/// A schedule passes its check exactly when it has a positive amount, a window
/// of 1 to 86400 seconds, 1 to 100 intervals, a nonempty size range with a
/// positive minimum, and tolerances of at most 1000 bps.
pub proof fn law_schedule_accepted_within_bounds(
    total_amount: u64,
    time_window: u64,
    num_intervals: u32,
    slippage_tolerance_bps: u32,
    min_interval_size: u64,
    max_interval_size: u64,
    price_deviation_bps: u32,
)
    ensures
        schedule_check(total_amount, time_window, num_intervals, slippage_tolerance_bps, min_interval_size,
            max_interval_size, price_deviation_bps) is None <==> (total_amount > 0 && 1 <= time_window <= 86400
            && 1 <= num_intervals <= 100 && slippage_tolerance_bps <= 1000 && 0 < min_interval_size
            && min_interval_size <= max_interval_size && price_deviation_bps <= 1000),
{
}

/// `r` answers the check `check`: `Ok` when it passed, else an
/// `InvalidParameters` error with its reason.
pub open spec fn answers_check(r: Result<(), AlgoError>, check: Option<Seq<char>>) -> bool {
    match check {
        None => r is Ok,
        Some(reason) => r matches Err(AlgoError::InvalidParameters { reason: got }) && got@ == reason,
    }
}

fn invalid(reason: &str) -> (r: Result<(), AlgoError>)
    ensures
        r matches Err(AlgoError::InvalidParameters { reason: got }) && got@ == reason@,
{
    Err(AlgoError::InvalidParameters { reason: owned(reason) })
}

/// Checks the parameters of a time- or volume-weighted schedule.
pub fn validate_schedule(
    total_amount: u64,
    time_window: u64,
    num_intervals: u32,
    slippage_tolerance_bps: u32,
    min_interval_size: u64,
    max_interval_size: u64,
    price_deviation_bps: u32,
) -> (r: Result<(), AlgoError>)
    ensures
        answers_check(r, schedule_check(total_amount, time_window, num_intervals, slippage_tolerance_bps,
            min_interval_size, max_interval_size, price_deviation_bps)),
{
    if total_amount == 0 {
        return invalid("Total amount must be greater than 0");
    }
    if time_window == 0 || time_window > MAX_REBALANCE_INTERVAL {
        return invalid("Time window must be between 1 and 86400");
    }
    if num_intervals == 0 || num_intervals > MAX_SCHEDULE_INTERVALS {
        return invalid("Number of intervals must be between 1 and 100");
    }
    if slippage_tolerance_bps > MAX_SLIPPAGE_BPS {
        return invalid("Slippage tolerance must not exceed 1000 bps");
    }
    if min_interval_size == 0 || min_interval_size > max_interval_size {
        return invalid("Invalid interval size range");
    }
    if price_deviation_bps > MAX_SLIPPAGE_BPS {
        return invalid("Price deviation tolerance must not exceed 1000 bps");
    }
    Ok(())
}

/// The risk limits one executed interval is held to.
#[derive(Debug, Clone, Copy, PartialEq, Eq, Structural)]
pub struct IntervalLimits {
    pub max_single_execution_bps: u32,
    pub max_price_deviation_bps: u32,
    pub max_execution_time: u64,
    pub enable_emergency_stop: bool,
    pub emergency_stop_threshold_bps: u32,
}

/// Which limit an executed interval breaks first, if any.
#[derive(Debug, Clone, Copy, PartialEq, Eq, Structural)]
pub enum LimitBreach {
    SingleExecution,
    PriceDeviation,
    ExecutionTime,
    EmergencyStop,
}

/// The first limit broken by an interval that executed `executed` of
/// `total_amount` with slippage `slippage_bps` in `execution_time` seconds:
/// a share of the order above `max_single_execution_bps`, then slippage above
/// the deviation limit, then a time over the limit, then (when enabled)
/// slippage above the emergency threshold.
pub open spec fn first_breach(
    limits: IntervalLimits,
    total_amount: u64,
    executed: u64,
    slippage_bps: u32,
    execution_time: u64,
) -> Option<LimitBreach> {
    if executed * 10_000 > limits.max_single_execution_bps * total_amount {
        Some(LimitBreach::SingleExecution)
    } else if slippage_bps > limits.max_price_deviation_bps {
        Some(LimitBreach::PriceDeviation)
    } else if execution_time > limits.max_execution_time {
        Some(LimitBreach::ExecutionTime)
    } else if limits.enable_emergency_stop && slippage_bps > limits.emergency_stop_threshold_bps {
        Some(LimitBreach::EmergencyStop)
    } else {
        None
    }
}

/// An interval passes exactly when it keeps every limit: its share of the
/// order, its slippage, its time, and (only when the emergency stop is
/// enabled) the emergency threshold. A disabled emergency stop never stops an
/// interval, and an enabled one stops exactly the intervals that keep the
/// other limits but slip beyond its threshold.
pub proof fn law_interval_passes_within_limits(
    limits: IntervalLimits,
    total_amount: u64,
    executed: u64,
    slippage_bps: u32,
    execution_time: u64,
)
    ensures
        first_breach(limits, total_amount, executed, slippage_bps, execution_time) is None <==> (
            executed * 10_000 <= limits.max_single_execution_bps * total_amount
            && slippage_bps <= limits.max_price_deviation_bps && execution_time <= limits.max_execution_time
            && (limits.enable_emergency_stop ==> slippage_bps <= limits.emergency_stop_threshold_bps)),
        !limits.enable_emergency_stop ==> first_breach(limits, total_amount, executed, slippage_bps, execution_time)
            != Some(LimitBreach::EmergencyStop),
        first_breach(limits, total_amount, executed, slippage_bps, execution_time) == Some(LimitBreach::EmergencyStop)
            <==> (limits.enable_emergency_stop && slippage_bps > limits.emergency_stop_threshold_bps
            && executed * 10_000 <= limits.max_single_execution_bps * total_amount
            && slippage_bps <= limits.max_price_deviation_bps && execution_time <= limits.max_execution_time),
{
}

/// `r` reports the breach `b` of algorithm `name`: a timeout names the
/// algorithm, an emergency stop says so, the others are invalid results.
pub open spec fn reports_breach(r: Result<(), AlgoError>, b: Option<LimitBreach>, name: Seq<char>) -> bool {
    match b {
        None => r is Ok,
        Some(LimitBreach::ExecutionTime) => r matches Err(AlgoError::ExecutionTimeout { algorithm_name })
            && algorithm_name@ == name,
        Some(LimitBreach::EmergencyStop) => r matches Err(AlgoError::InvalidResult { reason })
            && reason@ == "Emergency stop triggered due to excessive slippage"@,
        Some(_) => r matches Err(AlgoError::InvalidResult { reason: _ }),
    }
}

/// Holds one executed interval to the risk limits; the share of the order is
/// compared exactly, as `executed / total_amount * 10000` against the limit.
pub fn check_interval_limits(
    limits: &IntervalLimits,
    total_amount: u64,
    executed: u64,
    slippage_bps: u32,
    execution_time: u64,
    algorithm_name: &str,
) -> (r: Result<(), AlgoError>)
    ensures
        reports_breach(r, first_breach(*limits, total_amount, executed, slippage_bps, execution_time),
            algorithm_name@),
        r is Ok <==> (executed * 10_000 <= limits.max_single_execution_bps * total_amount
            && slippage_bps <= limits.max_price_deviation_bps && execution_time <= limits.max_execution_time
            && (limits.enable_emergency_stop ==> slippage_bps <= limits.emergency_stop_threshold_bps)),
{
    let share: u128 = (executed as u128) * 10_000;
    assert((limits.max_single_execution_bps as u128) * (total_amount as u128) <= 0xffff_ffff * 0xffff_ffff_ffff_ffffu128) by (nonlinear_arith)
        requires limits.max_single_execution_bps <= 0xffff_ffffu32, total_amount <= 0xffff_ffff_ffff_ffffu64;
    let allowed: u128 = (limits.max_single_execution_bps as u128) * (total_amount as u128);
    if share > allowed {
        let ratio: u128 = if total_amount == 0 { share } else { share / (total_amount as u128) };
        return Err(AlgoError::InvalidResult { reason: ratio_message(ratio, limits.max_single_execution_bps) });
    }
    if slippage_bps > limits.max_price_deviation_bps {
        return Err(AlgoError::InvalidResult { reason: deviation_message(slippage_bps, limits.max_price_deviation_bps) });
    }
    if execution_time > limits.max_execution_time {
        return Err(AlgoError::ExecutionTimeout { algorithm_name: owned(algorithm_name) });
    }
    if limits.enable_emergency_stop && slippage_bps > limits.emergency_stop_threshold_bps {
        return Err(AlgoError::InvalidResult { reason: owned("Emergency stop triggered due to excessive slippage") });
    }
    Ok(())
}

/// Sum of a sequence of durations.
pub open spec fn sum_u64(s: Seq<u64>) -> int
    decreases s.len(),
{
    if s.len() == 0 { 0 } else { sum_u64(s.drop_last()) + s.last() }
}

/// Sum of a sequence of deviations.
pub open spec fn sum_u32(s: Seq<u32>) -> int
    decreases s.len(),
{
    if s.len() == 0 { 0 } else { sum_u32(s.drop_last()) + s.last() }
}

/// Largest duration, 0 for none.
pub open spec fn max_u64(s: Seq<u64>) -> u64
    decreases s.len(),
{
    if s.len() == 0 { 0 } else if max_u64(s.drop_last()) >= s.last() { max_u64(s.drop_last()) } else { s.last() }
}

/// Largest deviation, 0 for none.
pub open spec fn max_u32(s: Seq<u32>) -> u32
    decreases s.len(),
{
    if s.len() == 0 { 0 } else if max_u32(s.drop_last()) >= s.last() { max_u32(s.drop_last()) } else { s.last() }
}

/// Number of deviations above the violation threshold.
pub open spec fn violations(s: Seq<u32>) -> int
    decreases s.len(),
{
    if s.len() == 0 { 0 } else { violations(s.drop_last()) + if s.last() > DEVIATION_THRESHOLD_BPS { 1int } else { 0 } }
}

proof fn lemma_sum_u64_prefix(s: Seq<u64>, i: int)
    requires
        0 <= i <= s.len(),
    ensures
        0 <= sum_u64(s.take(i)) <= sum_u64(s),
        max_u64(s) <= sum_u64(s),
    decreases s.len(),
{
    if s.len() > 0 {
        lemma_sum_u64_prefix(s.drop_last(), if i == s.len() { i - 1 } else { i });
        if i == s.len() {
            assert(s.take(i) =~= s);
            assert(s.drop_last().take(i - 1) =~= s.drop_last());
        } else {
            assert(s.drop_last().take(i) =~= s.take(i));
        }
    } else {
        assert(s.take(i) =~= s);
    }
}

proof fn lemma_sum_u32_prefix(s: Seq<u32>, i: int)
    requires
        0 <= i <= s.len(),
    ensures
        0 <= sum_u32(s.take(i)) <= sum_u32(s),
        0 <= violations(s.take(i)) <= violations(s) <= s.len(),
    decreases s.len(),
{
    if s.len() > 0 {
        lemma_sum_u32_prefix(s.drop_last(), if i == s.len() { i - 1 } else { i });
        if i == s.len() {
            assert(s.take(i) =~= s);
            assert(s.drop_last().take(i - 1) =~= s.drop_last());
        } else {
            assert(s.drop_last().take(i) =~= s.take(i));
        }
    } else {
        assert(s.take(i) =~= s);
    }
}

/// The integer statistics of a scheduled execution, times in milliseconds.
#[derive(Debug, Clone, Copy, PartialEq, Eq, Structural)]
pub struct ExecutionStats {
    pub total_execution_time_ms: u64,
    pub avg_execution_latency_ms: u64,
    pub max_execution_latency_ms: u64,
    pub avg_slippage_bps: u32,
    pub max_slippage_bps: u32,
    pub avg_deviation_bps: u32,
    pub max_deviation_bps: u32,
    pub threshold_violations: u32,
}

/// Whether the statistics of these inputs stay within the integer widths used.
pub open spec fn stats_fit(execution_times: Seq<u64>, price_deviations: Seq<u32>, total_execution_time: u64) -> bool {
    &&& sum_u64(execution_times) <= u64::MAX
    &&& sum_u32(price_deviations) <= u32::MAX
    &&& price_deviations.len() <= u32::MAX
    &&& total_execution_time * 1000 <= u64::MAX
    &&& max_u64(execution_times) * 1000 <= u64::MAX
}

proof fn lemma_sum_within_len_max(s: Seq<u64>)
    ensures
        sum_u64(s) <= s.len() * max_u64(s),
    decreases s.len(),
{
    if s.len() > 0 {
        let t = s.drop_last();
        lemma_sum_within_len_max(t);
        assert(max_u64(t) <= max_u64(s));
        assert(t.len() * max_u64(t) <= t.len() * max_u64(s)) by (nonlinear_arith)
            requires max_u64(t) <= max_u64(s), t.len() >= 0;
        assert(s.len() * max_u64(s) == t.len() * max_u64(s) + max_u64(s)) by (nonlinear_arith)
            requires s.len() == t.len() + 1;
    }
}

/// The mean latency, in milliseconds, of intervals that took `execution_times`
/// seconds: the mean in whole seconds, scaled, when `mean_in_seconds`; else the
/// mean of the scaled times.
pub open spec fn mean_latency_ms(execution_times: Seq<u64>, mean_in_seconds: bool) -> int {
    if mean_in_seconds {
        (sum_u64(execution_times) / (execution_times.len() as int)) * 1000
    } else {
        (sum_u64(execution_times) * 1000) / (execution_times.len() as int)
    }
}

/// The statistics of an execution whose intervals took `execution_times`
/// seconds and deviated by `price_deviations` basis points, the mean latency
/// taken as `mean_latency_ms` says.
pub open spec fn execution_stats_of(
    execution_times: Seq<u64>,
    price_deviations: Seq<u32>,
    total_execution_time: u64,
    mean_in_seconds: bool,
) -> ExecutionStats {
    let n = price_deviations.len() as int;
    let avg_dev: u32 = if n == 0 { 0 } else { (sum_u32(price_deviations) / n) as u32 };
    ExecutionStats {
        total_execution_time_ms: (total_execution_time * 1000) as u64,
        avg_execution_latency_ms: mean_latency_ms(execution_times, mean_in_seconds) as u64,
        max_execution_latency_ms: (max_u64(execution_times) * 1000) as u64,
        avg_slippage_bps: avg_dev,
        max_slippage_bps: max_u32(price_deviations),
        avg_deviation_bps: avg_dev,
        max_deviation_bps: max_u32(price_deviations),
        threshold_violations: violations(price_deviations) as u32,
    }
}

/// Computes the integer statistics of an execution; fails when no interval
/// was timed. With `mean_in_seconds` the mean latency is taken in whole
/// seconds before it is scaled to milliseconds (as VWAP reports it); without,
/// the scaled times are averaged (as TWAP reports it).
pub fn execution_stats(
    execution_times: &Vec<u64>,
    price_deviations: &Vec<u32>,
    total_execution_time: u64,
    mean_in_seconds: bool,
) -> (r: Result<ExecutionStats, AlgoError>)
    requires
        stats_fit(execution_times@, price_deviations@, total_execution_time),
    ensures
        execution_times@.len() == 0 ==> (r matches Err(AlgoError::InvalidResult { reason })
            && reason@ == "No execution times available for metrics calculation"@),
        execution_times@.len() > 0 ==> r == Ok::<ExecutionStats, AlgoError>(
            execution_stats_of(execution_times@, price_deviations@, total_execution_time, mean_in_seconds)),
{
    if execution_times.len() == 0 {
        return Err(AlgoError::InvalidResult { reason: owned("No execution times available for metrics calculation") });
    }
    let mut time_sum: u64 = 0;
    let mut time_max: u64 = 0;
    let mut i: usize = 0;
    while i < execution_times.len()
        invariant
            i <= execution_times@.len(),
            time_sum == sum_u64(execution_times@.take(i as int)),
            time_max == max_u64(execution_times@.take(i as int)),
            sum_u64(execution_times@) <= u64::MAX,
        decreases execution_times@.len() - i,
    {
        proof {
            assert(execution_times@.take(i + 1).drop_last() =~= execution_times@.take(i as int));
            lemma_sum_u64_prefix(execution_times@, i + 1);
        }
        let t = execution_times[i];
        time_sum = time_sum + t;
        if t > time_max {
            time_max = t;
        }
        i = i + 1;
    }
    proof {
        assert(execution_times@.take(i as int) =~= execution_times@);
    }
    let mut dev_sum: u32 = 0;
    let mut dev_max: u32 = 0;
    let mut over: u32 = 0;
    let mut j: usize = 0;
    while j < price_deviations.len()
        invariant
            j <= price_deviations@.len(),
            dev_sum == sum_u32(price_deviations@.take(j as int)),
            dev_max == max_u32(price_deviations@.take(j as int)),
            over == violations(price_deviations@.take(j as int)),
            sum_u32(price_deviations@) <= u32::MAX,
            price_deviations@.len() <= u32::MAX,
        decreases price_deviations@.len() - j,
    {
        proof {
            assert(price_deviations@.take(j + 1).drop_last() =~= price_deviations@.take(j as int));
            lemma_sum_u32_prefix(price_deviations@, j + 1);
        }
        let d = price_deviations[j];
        dev_sum = dev_sum + d;
        if d > dev_max {
            dev_max = d;
        }
        if d > DEVIATION_THRESHOLD_BPS {
            over = over + 1;
        }
        j = j + 1;
    }
    proof {
        assert(price_deviations@.take(j as int) =~= price_deviations@);
    }
    proof {
        lemma_sum_u64_prefix(execution_times@, 0);
    }
    let n: u64 = execution_times.len() as u64;
    proof {
        lemma_sum_within_len_max(execution_times@);
    }
    let avg_latency_ms: u64 = if mean_in_seconds {
        proof {
            assert(time_sum / n <= time_max) by (nonlinear_arith)
                requires n >= 1, time_sum <= n * time_max;
            assert((time_sum / n) * 1000 <= time_max * 1000) by (nonlinear_arith)
                requires time_sum / n <= time_max;
        }
        (time_sum / n) * 1000
    } else {
        let wide: u128 = (time_sum as u128) * 1000 / (n as u128);
        proof {
            assert(time_sum * 1000 / (n as int) <= time_max * 1000) by (nonlinear_arith)
                requires n >= 1, time_sum <= n * time_max;
        }
        wide as u64
    };
    let avg_dev: u32 = if price_deviations.len() == 0 { 0 } else { dev_sum / (price_deviations.len() as u32) };
    Ok(ExecutionStats {
        total_execution_time_ms: total_execution_time * 1000,
        avg_execution_latency_ms: avg_latency_ms,
        max_execution_latency_ms: time_max * 1000,
        avg_slippage_bps: avg_dev,
        max_slippage_bps: dev_max,
        avg_deviation_bps: avg_dev,
        max_deviation_bps: dev_max,
        threshold_violations: over,
    })
}

} // verus!
