use vstd::prelude::*;

verus! {

/// Volatility above which markets are too wild to assess, in basis points.
pub const EXTREME_VOLATILITY_BPS: u32 = 8000;

/// Liquidity below which a market is too thin to assess, in units.
pub const EXTREME_LOW_LIQUIDITY: u64 = 100;

/// Kinds of risk.
#[derive(Debug, Clone, Copy, PartialEq, Eq, Structural)]
pub enum RiskType {
    MarketRisk,
    LiquidityRisk,
    VolatilityRisk,
    ConcentrationRisk,
    CounterpartyRisk,
    OperationalRisk,
    RegulatoryRisk,
    ModelRisk,
    SystemicRisk,
}

/// Severity bands of a risk score.
#[derive(Debug, Clone, Copy, PartialEq, Eq, Structural)]
pub enum RiskLevel {
    Low,
    Medium,
    High,
    Critical,
}

impl RiskLevel {
    /// The score at the top of the band, in basis points.
    pub fn score(&self) -> (r: u32)
        ensures
            r == (match *self {
                RiskLevel::Low => 2500u32,
                RiskLevel::Medium => 5000,
                RiskLevel::High => 7500,
                RiskLevel::Critical => 10000,
            }),
    {
        match self {
            RiskLevel::Low => 2500,
            RiskLevel::Medium => 5000,
            RiskLevel::High => 7500,
            RiskLevel::Critical => 10000,
        }
    }
}

/// The band of a risk score: up to 2500 low, up to 5000 medium, up to 7500
/// high, above that critical.
pub open spec fn level_of(score: u32) -> RiskLevel {
    if score <= 2500 {
        RiskLevel::Low
    } else if score <= 5000 {
        RiskLevel::Medium
    } else if score <= 7500 {
        RiskLevel::High
    } else {
        RiskLevel::Critical
    }
}

/// The band of a risk score.
pub fn determine_risk_level(risk_score: u32) -> (r: RiskLevel)
    ensures
        r == level_of(risk_score),
{
    if risk_score <= 2500 {
        RiskLevel::Low
    } else if risk_score <= 5000 {
        RiskLevel::Medium
    } else if risk_score <= 7500 {
        RiskLevel::High
    } else {
        RiskLevel::Critical
    }
}

/// A score's band never claims less than the score: the score is at most the
/// band's top score.
pub proof fn law_level_bounds_score(score: u32)
    requires
        score <= 10000,
    ensures
        score <= (match level_of(score) {
            RiskLevel::Low => 2500u32,
            RiskLevel::Medium => 5000,
            RiskLevel::High => 7500,
            RiskLevel::Critical => 10000,
        }),
{
}

/// Kinds of risk alert.
#[derive(Debug, Clone, Copy, PartialEq, Eq, Structural)]
pub enum RiskAlertType {
    VaRExceeded,
    VolatilitySpike,
    LiquidityCrisis,
    ConcentrationRisk,
    LeverageExceeded,
    DrawdownLimit,
    CircuitBreaker,
}

/// Severity of a risk alert.
#[derive(Debug, Clone, Copy, PartialEq, Eq, Structural)]
pub enum AlertSeverity {
    Info,
    Warning,
    Critical,
    Emergency,
}

/// Mitigations a recommendation can suggest.
#[derive(Debug, Clone, Copy, PartialEq, Eq, Structural)]
pub enum RiskAction {
    ReducePosition,
    IncreaseLiquidity,
    Diversify,
    Hedge,
    Monitor,
    StopTrading,
}

/// Urgency of a recommendation.
#[derive(Debug, Clone, Copy, PartialEq, Eq, Structural)]
pub enum RecommendationPriority {
    Low,
    Medium,
    High,
    Critical,
}

/// Why a risk assessment was refused.
#[derive(Debug, Clone, Copy, PartialEq, Eq, Structural)]
pub enum StrategyError {
    RiskLimitsExceeded,
}

/// Whether a volatility is above the extreme threshold.
pub fn is_extreme_volatility(volatility: u32, threshold: u32) -> (r: bool)
    ensures
        r == (volatility > threshold),
{
    volatility > threshold
}

/// Whether a liquidity is below the extreme threshold.
pub fn is_extreme_liquidity(liquidity: u64, threshold: u64) -> (r: bool)
    ensures
        r == (liquidity < threshold),
{
    liquidity < threshold
}

/// Whether some market of `volatilities` is too volatile to assess.
pub open spec fn has_extreme_volatility(volatilities: Seq<u32>) -> bool {
    exists|i: int| 0 <= i < volatilities.len() && volatilities[i] > EXTREME_VOLATILITY_BPS
}

/// Whether some market of `liquidity` is too thin to assess.
pub open spec fn has_extreme_low_liquidity(liquidity: Seq<u64>) -> bool {
    exists|i: int| 0 <= i < liquidity.len() && liquidity[i] < EXTREME_LOW_LIQUIDITY
}

/// The market gate of a risk assessment: refused when the most volatile
/// market exceeds 8000 bps or the thinnest holds under 100 units.
pub fn check_extreme_market(volatilities: &Vec<u32>, liquidity: &Vec<u64>) -> (r: Result<(), StrategyError>)
    ensures
        r is Ok <==> !has_extreme_volatility(volatilities@) && !has_extreme_low_liquidity(liquidity@),
        r matches Err(e) ==> e == StrategyError::RiskLimitsExceeded,
{
    let mut max_volatility: u32 = 0;
    let mut i: usize = 0;
    while i < volatilities.len()
        invariant
            i <= volatilities@.len(),
            forall|j: int| 0 <= j < i ==> volatilities@[j] <= max_volatility,
            i == 0 ==> max_volatility == 0,
            i > 0 ==> exists|j: int| 0 <= j < i && volatilities@[j] == max_volatility,
        decreases volatilities@.len() - i,
    {
        if volatilities[i] > max_volatility {
            max_volatility = volatilities[i];
        }
        i = i + 1;
    }
    if is_extreme_volatility(max_volatility, EXTREME_VOLATILITY_BPS) {
        return Err(StrategyError::RiskLimitsExceeded);
    }
    let mut min_liquidity: u64 = u64::MAX;
    let mut k: usize = 0;
    while k < liquidity.len()
        invariant
            k <= liquidity@.len(),
            forall|j: int| 0 <= j < k ==> liquidity@[j] >= min_liquidity,
            k == 0 ==> min_liquidity == u64::MAX,
            k > 0 ==> exists|j: int| 0 <= j < k && liquidity@[j] == min_liquidity,
        decreases liquidity@.len() - k,
    {
        if liquidity[k] < min_liquidity {
            min_liquidity = liquidity[k];
        }
        k = k + 1;
    }
    if is_extreme_liquidity(min_liquidity, EXTREME_LOW_LIQUIDITY) {
        return Err(StrategyError::RiskLimitsExceeded);
    }
    Ok(())
}

/// The alert a metric of `risk_type` scoring `risk_score` raises: market
/// risk above the VaR limit, liquidity risk above the expected-shortfall limit.
pub open spec fn alert_for(risk_type: RiskType, risk_score: u32, max_var_bps: u32, max_expected_shortfall_bps: u32) -> Option<RiskAlertType> {
    match risk_type {
        RiskType::MarketRisk => if risk_score > max_var_bps { Some(RiskAlertType::VaRExceeded) } else { None },
        RiskType::LiquidityRisk => if risk_score > max_expected_shortfall_bps {
            Some(RiskAlertType::LiquidityCrisis)
        } else {
            None
        },
        _ => None,
    }
}

/// Market risk raises a VaR alert exactly when its score exceeds the VaR
/// limit, liquidity risk raises a liquidity-crisis alert exactly when its score
/// exceeds the expected-shortfall limit, and no other kind of risk raises one.
pub proof fn law_alerts_follow_their_limits(risk_type: RiskType, risk_score: u32, max_var_bps: u32, max_expected_shortfall_bps: u32)
    ensures
        risk_type == RiskType::MarketRisk ==> alert_for(risk_type, risk_score, max_var_bps, max_expected_shortfall_bps)
            == (if risk_score > max_var_bps { Some(RiskAlertType::VaRExceeded) } else { None::<RiskAlertType> }),
        risk_type == RiskType::LiquidityRisk ==> alert_for(risk_type, risk_score, max_var_bps, max_expected_shortfall_bps)
            == (if risk_score > max_expected_shortfall_bps {
            Some(RiskAlertType::LiquidityCrisis)
        } else {
            None::<RiskAlertType>
        }),
        risk_type != RiskType::MarketRisk && risk_type != RiskType::LiquidityRisk ==> alert_for(
            risk_type,
            risk_score,
            max_var_bps,
            max_expected_shortfall_bps,
        ) is None,
{
}

/// Which alert, if any, a risk metric raises.
pub fn check_risk_alert(risk_type: RiskType, risk_score: u32, max_var_bps: u32, max_expected_shortfall_bps: u32) -> (r: Option<RiskAlertType>)
    ensures
        r == alert_for(risk_type, risk_score, max_var_bps, max_expected_shortfall_bps),
        risk_type == RiskType::MarketRisk ==> (r is Some <==> risk_score > max_var_bps),
        risk_type == RiskType::MarketRisk && r is Some ==> r == Some(RiskAlertType::VaRExceeded),
        risk_type == RiskType::LiquidityRisk ==> (r is Some <==> risk_score > max_expected_shortfall_bps),
        risk_type == RiskType::LiquidityRisk && r is Some ==> r == Some(RiskAlertType::LiquidityCrisis),
        risk_type != RiskType::MarketRisk && risk_type != RiskType::LiquidityRisk ==> r is None,
{
    match risk_type {
        RiskType::MarketRisk => if risk_score > max_var_bps { Some(RiskAlertType::VaRExceeded) } else { None },
        RiskType::LiquidityRisk => if risk_score > max_expected_shortfall_bps {
            Some(RiskAlertType::LiquidityCrisis)
        } else {
            None
        },
        _ => None,
    }
}

/// The mitigation for a kind of risk.
pub open spec fn action_for(risk_type: RiskType) -> RiskAction {
    match risk_type {
        RiskType::MarketRisk => RiskAction::ReducePosition,
        RiskType::LiquidityRisk => RiskAction::IncreaseLiquidity,
        RiskType::ConcentrationRisk => RiskAction::Diversify,
        _ => RiskAction::Monitor,
    }
}

/// The mitigation for a kind of risk.
pub fn get_recommended_action(risk_type: RiskType) -> (r: RiskAction)
    ensures
        r == action_for(risk_type),
{
    match risk_type {
        RiskType::MarketRisk => RiskAction::ReducePosition,
        RiskType::LiquidityRisk => RiskAction::IncreaseLiquidity,
        RiskType::ConcentrationRisk => RiskAction::Diversify,
        _ => RiskAction::Monitor,
    }
}

/// The recommendation for a metric: only high and critical risks get one, its
/// action by kind, high priority for critical risks and medium otherwise.
pub fn recommendation_for(risk_type: RiskType, level: RiskLevel) -> (r: Option<(RiskAction, RecommendationPriority)>)
    ensures
        (level == RiskLevel::Low || level == RiskLevel::Medium) ==> r is None,
        level == RiskLevel::High ==> r == Some((action_for(risk_type), RecommendationPriority::Medium)),
        level == RiskLevel::Critical ==> r == Some((action_for(risk_type), RecommendationPriority::High)),
{
    match level {
        RiskLevel::High => Some((get_recommended_action(risk_type), RecommendationPriority::Medium)),
        RiskLevel::Critical => Some((get_recommended_action(risk_type), RecommendationPriority::High)),
        _ => None,
    }
}

} // verus!
