use vstd::prelude::*;
use crate::decimal::{
    dec_add, dec_div, dec_from_u64, dec_int, dec_ln, dec_mul, dec_natural_log, dec_power, dec_powd, dec_product,
    dec_quotient, dec_sqrt, dec_square_root, dec_sum, dec_to_u32, dec_valid, dec_whole_u32, Dec,
};
use crate::text::owned;

verus! {

/// Why an impact estimate failed.
#[derive(Debug)]
pub enum MarketImpactError {
    InvalidInput(String),
    InsufficientLiquidity,
    CalculationError(String),
}

/// Kinds of impact model.
#[derive(Debug, Clone, Copy, PartialEq, Eq, Structural)]
pub enum ImpactModelType {
    Linear,
    SquareRoot,
    Logarithmic,
    PowerLaw,
    Hybrid,
}

/// How an impact divides among its causes, in basis points.
#[derive(Debug, Clone, Copy, PartialEq, Eq, Structural)]
pub struct ImpactBreakdown {
    pub size_impact_bps: u32,
    pub volatility_impact_bps: u32,
    pub liquidity_impact_bps: u32,
    pub timing_impact_bps: u32,
    pub cross_asset_impact_bps: u32,
}

/// Checks a trade before its impact is estimated: it must be positive and
/// no larger than the liquidity available (which must exist).
pub fn validate_impact_input(trade_size: u64, available_liquidity: u64) -> (r: Result<(), MarketImpactError>)
    ensures
        trade_size == 0 ==> (r matches Err(MarketImpactError::InvalidInput(reason)) && reason@ == "trade_size==0"@),
        trade_size != 0 && (available_liquidity == 0 || trade_size > available_liquidity)
            ==> r matches Err(MarketImpactError::InsufficientLiquidity),
        trade_size != 0 && available_liquidity != 0 && trade_size <= available_liquidity ==> r is Ok,
{
    if trade_size == 0 {
        return Err(MarketImpactError::InvalidInput(owned("trade_size==0")));
    }
    if available_liquidity == 0 {
        return Err(MarketImpactError::InsufficientLiquidity);
    }
    if trade_size > available_liquidity {
        return Err(MarketImpactError::InsufficientLiquidity);
    }
    Ok(())
}

/// Splits an impact into its temporary part (65%, rounded down) and the
/// permanent rest.
pub fn split_impact_components(total_impact_bps: u32) -> (r: (u32, u32))
    ensures
        r.0 == total_impact_bps * 65 / 100,
        r.0 + r.1 == total_impact_bps,
{
    let temporary: u32 = ((total_impact_bps as u64) * 65 / 100) as u32;
    (temporary, total_impact_bps - temporary)
}

/// An impact attributed to its causes: 40% size, 25% volatility, 20%
/// liquidity, 10% timing and 5% cross-asset, each rounded down.
pub open spec fn breakdown_of(total: u32) -> ImpactBreakdown {
    ImpactBreakdown {
        size_impact_bps: (total * 40 / 100) as u32,
        volatility_impact_bps: (total * 25 / 100) as u32,
        liquidity_impact_bps: (total * 20 / 100) as u32,
        timing_impact_bps: (total * 10 / 100) as u32,
        cross_asset_impact_bps: (total * 5 / 100) as u32,
    }
}

/// Attributes an impact to its causes: 40% size, 25% volatility, 20%
/// liquidity, 10% timing and 5% cross-asset, each rounded down.
pub fn calculate_impact_breakdown(total_impact_bps: u32) -> (r: ImpactBreakdown)
    requires
        total_impact_bps * 40 <= u32::MAX,
    ensures
        r == breakdown_of(total_impact_bps),
{
    ImpactBreakdown {
        size_impact_bps: (total_impact_bps * 40) / 100,
        volatility_impact_bps: (total_impact_bps * 25) / 100,
        liquidity_impact_bps: (total_impact_bps * 20) / 100,
        timing_impact_bps: (total_impact_bps * 10) / 100,
        cross_asset_impact_bps: (total_impact_bps * 5) / 100,
    }
}

/// The estimate of one model: the total impact, its temporary and permanent
/// parts, the confidence in it, the model, and the attribution to causes.
#[derive(Debug, Clone, Copy, PartialEq, Eq, Structural)]
pub struct ImpactResult {
    pub total_impact_bps: u32,
    pub temporary_impact_bps: u32,
    pub permanent_impact_bps: u32,
    pub confidence_level: u32,
    pub model_used: ImpactModelType,
    pub impact_breakdown: ImpactBreakdown,
}

/// The estimate built from a model's total impact: split into its temporary
/// part (65%, rounded down) and the permanent rest, attributed to causes, at a
/// confidence of 9000 bps.
pub fn impact_result(model: ImpactModelType, total_impact_bps: u32) -> (r: ImpactResult)
    requires
        total_impact_bps * 40 <= u32::MAX,
    ensures
        r.total_impact_bps == total_impact_bps,
        r.temporary_impact_bps == total_impact_bps * 65 / 100,
        r.permanent_impact_bps == total_impact_bps - total_impact_bps * 65 / 100,
        r.confidence_level == 9000,
        r.model_used == model,
        r.impact_breakdown == breakdown_of(total_impact_bps),
{
    let (temporary, permanent) = split_impact_components(total_impact_bps);
    ImpactResult {
        total_impact_bps,
        temporary_impact_bps: temporary,
        permanent_impact_bps: permanent,
        confidence_level: 9000,
        model_used: model,
        impact_breakdown: calculate_impact_breakdown(total_impact_bps),
    }
}

/// The parts of an impact's breakdown never add up to more than the impact.
pub proof fn law_breakdown_within_total(total: u32)
    ensures
        total * 40 / 100 + total * 25 / 100 + total * 20 / 100 + total * 10 / 100 + total * 5 / 100 <= total,
{
    assert(total * 40 / 100 + total * 25 / 100 + total * 20 / 100 + total * 10 / 100 + total * 5 / 100
        <= (total * 40 + total * 25 + total * 20 + total * 10 + total * 5) / 100) by (nonlinear_arith);
}

/// What an impact estimate is computed from.
#[derive(Debug, Clone, Copy, PartialEq, Eq, Structural)]
pub struct ImpactInput {
    pub trade_size: u64,
    pub available_liquidity: u64,
    /// Volatility in basis points.
    pub volatility: u32,
    pub historical_volume: u64,
}

/// Coefficients of the decimal impact models.
#[derive(Debug, Clone, Copy, PartialEq, Eq, Structural)]
pub struct ImpactCoefficients {
    pub linear_coefficient: Dec,
    pub sqrt_coefficient: Dec,
    pub log_coefficient: Dec,
    pub power_law_alpha: Dec,
    pub volatility_factor: Dec,
    pub liquidity_factor: Dec,
}

/// Whether every coefficient is within the bounds of a decimal.
pub open spec fn coefficients_valid(c: ImpactCoefficients) -> bool {
    &&& dec_valid(c.linear_coefficient)
    &&& dec_valid(c.sqrt_coefficient)
    &&& dec_valid(c.log_coefficient)
    &&& dec_valid(c.power_law_alpha)
    &&& dec_valid(c.volatility_factor)
    &&& dec_valid(c.liquidity_factor)
}

/// The decimal 1.
pub open spec fn dec_one() -> Dec {
    Dec { negative: false, magnitude: 1, scale: 0 }
}

/// The decimal 0.0001 that keeps the logarithm's argument positive.
pub open spec fn log_offset() -> Dec {
    Dec { negative: false, magnitude: 1, scale: 4 }
}

/// The product of `x` and `c` when `x` is there, else nothing.
pub open spec fn product_after(x: Option<Dec>, c: Dec) -> Option<Dec> {
    match x {
        Some(v) => dec_product(v, c),
        None => None,
    }
}

/// The impact of a trade before adjustment: the trade's share of the
/// liquidity, shaped by the model and weighted by its coefficient.
pub open spec fn base_impact_of(model: ImpactModelType, input: ImpactInput, c: ImpactCoefficients) -> Option<Dec> {
    match dec_quotient(dec_int(input.trade_size), dec_int(input.available_liquidity)) {
        None => None,
        Some(ratio) => match model {
            ImpactModelType::Linear => dec_product(ratio, c.linear_coefficient),
            ImpactModelType::SquareRoot => dec_product(
                match dec_square_root(ratio) {
                    Some(root) => root,
                    None => dec_int(0),
                },
                c.sqrt_coefficient,
            ),
            ImpactModelType::Logarithmic => match dec_sum(ratio, log_offset()) {
                Some(shifted) => product_after(dec_natural_log(shifted), c.log_coefficient),
                None => None,
            },
            ImpactModelType::PowerLaw => product_after(dec_power(ratio, c.power_law_alpha), c.sqrt_coefficient),
            ImpactModelType::Hybrid => None,
        },
    }
}

/// The volatility adjustment: one plus the volatility (in basis points, as a
/// fraction) times the volatility factor.
pub open spec fn volatility_adjustment_of(input: ImpactInput, c: ImpactCoefficients) -> Option<Dec> {
    match product_after(dec_quotient(dec_int(input.volatility as u64), dec_int(10000)), c.volatility_factor) {
        Some(v) => dec_sum(dec_one(), v),
        None => None,
    }
}

/// The impact in basis points that a total impact (a fraction) comes to: its
/// whole part after scaling by 10000, or 0 where that is negative or too
/// large; nothing where the scaling overflows.
pub open spec fn bps_of_total(total: Option<Dec>) -> Option<u32> {
    match product_after(total, dec_int(10000)) {
        Some(scaled) => Some(
            match dec_whole_u32(scaled) {
                Some(v) => v,
                None => 0,
            },
        ),
        None => None,
    }
}

/// The impact, in basis points, that a decimal model estimates: the base
/// impact times the volatility adjustment times one plus the liquidity factor,
/// scaled to basis points; nothing where a decimal step overflows.
pub open spec fn impact_bps_spec(model: ImpactModelType, input: ImpactInput, c: ImpactCoefficients) -> Option<u32> {
    match (base_impact_of(model, input, c), volatility_adjustment_of(input, c), dec_sum(dec_one(), c.liquidity_factor)) {
        (Some(base), Some(vol), Some(liq)) => bps_of_total(product_after(dec_product(base, vol), liq)),
        _ => None,
    }
}

/// Basis points of a scaled total impact: its whole part, or 0 where that is
/// negative or does not fit.
pub fn bps_of_scaled(scaled: Dec) -> (r: u32)
    requires
        dec_valid(scaled),
    ensures
        r == (match dec_whole_u32(scaled) {
            Some(v) => v,
            None => 0,
        }),
{
    match dec_to_u32(scaled) {
        Some(v) => v,
        None => 0,
    }
}

fn base_impact(model: ImpactModelType, input: &ImpactInput, c: &ImpactCoefficients) -> (r: Option<Dec>)
    requires
        model != ImpactModelType::Hybrid,
        coefficients_valid(*c),
    ensures
        r == base_impact_of(model, *input, *c),
        r matches Some(d) ==> dec_valid(d),
        input.available_liquidity == 0 ==> r is None,
{
    let ratio = match dec_div(dec_from_u64(input.trade_size), dec_from_u64(input.available_liquidity)) {
        Some(q) => q,
        None => return None,
    };
    match model {
        ImpactModelType::Linear => dec_mul(ratio, c.linear_coefficient),
        ImpactModelType::SquareRoot => {
            let root = match dec_sqrt(ratio) {
                Some(s) => s,
                None => dec_from_u64(0),
            };
            dec_mul(root, c.sqrt_coefficient)
        },
        ImpactModelType::Logarithmic => {
            let offset = Dec { negative: false, magnitude: 1, scale: 4 };
            let shifted = match dec_add(ratio, offset) {
                Some(s) => s,
                None => return None,
            };
            match dec_ln(shifted) {
                Some(l) => dec_mul(l, c.log_coefficient),
                None => None,
            }
        },
        ImpactModelType::PowerLaw => match dec_powd(ratio, c.power_law_alpha) {
            Some(p) => dec_mul(p, c.sqrt_coefficient),
            None => None,
        },
        ImpactModelType::Hybrid => None,
    }
}

/// The impact, in basis points, that the linear, square-root, logarithmic or
/// power-law model estimates for `input`: the trade's share of the liquidity,
/// shaped by the model and weighted by its coefficient, adjusted for
/// volatility and liquidity, and scaled to basis points (0 where that is
/// negative or does not fit a `u32`). `None` where a decimal step overflows
/// or divides by zero, as for an input without liquidity.
pub fn model_impact_bps(model: ImpactModelType, input: &ImpactInput, coeffs: &ImpactCoefficients) -> (r: Option<u32>)
    requires
        model != ImpactModelType::Hybrid,
        coefficients_valid(*coeffs),
    ensures
        r == impact_bps_spec(model, *input, *coeffs),
        input.available_liquidity == 0 ==> r is None,
{
    let base = match base_impact(model, input, coeffs) {
        Some(b) => b,
        None => return None,
    };
    let vol_share = match dec_div(dec_from_u64(input.volatility as u64), dec_from_u64(10000)) {
        Some(v) => v,
        None => return None,
    };
    let vol_term = match dec_mul(vol_share, coeffs.volatility_factor) {
        Some(v) => v,
        None => return None,
    };
    let one = dec_from_u64(1);
    let vol_adjustment = match dec_add(one, vol_term) {
        Some(v) => v,
        None => return None,
    };
    let liq_adjustment = match dec_add(one, coeffs.liquidity_factor) {
        Some(v) => v,
        None => return None,
    };
    let adjusted = match dec_mul(base, vol_adjustment) {
        Some(v) => v,
        None => return None,
    };
    let total = match dec_mul(adjusted, liq_adjustment) {
        Some(v) => v,
        None => return None,
    };
    match dec_mul(total, dec_from_u64(10000)) {
        Some(scaled) => Some(bps_of_scaled(scaled)),
        None => None,
    }
}

} // verus!
