use basket_algos::decimal::{dec_from_u64, Dec};
use basket_algos::impact_history::{ImpactDataPoint, ImpactHistory, MAX_IMPACT_HISTORY};
use basket_algos::market_impact::{
    bps_of_scaled, impact_result, model_impact_bps, ImpactCoefficients, ImpactInput, ImpactModelType,
};

fn dec(magnitude: u128, scale: u32) -> Dec {
    Dec { negative: false, magnitude, scale }
}

fn default_coefficients() -> ImpactCoefficients {
    ImpactCoefficients {
        linear_coefficient: dec(1, 3),
        sqrt_coefficient: dec(1, 2),
        log_coefficient: dec(5, 3),
        power_law_alpha: dec(6, 1),
        volatility_factor: dec(3, 1),
        liquidity_factor: dec(2, 1),
    }
}

fn half_of_liquidity() -> ImpactInput {
    ImpactInput { trade_size: 50_000, available_liquidity: 100_000, volatility: 2000, historical_volume: 1_000_000 }
}

#[test]
fn linear_model_impact() {
    // 0.5 * 0.001 * (1 + 0.2 * 0.3) * 1.2 * 10000 = 6.36
    assert_eq!(model_impact_bps(ImpactModelType::Linear, &half_of_liquidity(), &default_coefficients()), Some(6));
}

#[test]
fn square_root_model_impact() {
    // sqrt(0.5) * 0.01 * 1.272 * 10000 = 89.94
    assert_eq!(model_impact_bps(ImpactModelType::SquareRoot, &half_of_liquidity(), &default_coefficients()), Some(89));
}

#[test]
fn power_law_model_impact() {
    // 0.5^0.6 * 0.01 * 1.272 * 10000 = 83.92
    assert_eq!(model_impact_bps(ImpactModelType::PowerLaw, &half_of_liquidity(), &default_coefficients()), Some(83));
}

#[test]
fn logarithmic_model_impact() {
    // ln(0.5001) is negative, so the impact comes to 0 basis points.
    assert_eq!(model_impact_bps(ImpactModelType::Logarithmic, &half_of_liquidity(), &default_coefficients()), Some(0));
    // ln(1.0001) * 5 * 1.272 * 10000 = 6.36
    let mut c = default_coefficients();
    c.log_coefficient = dec(5, 0);
    let whole = ImpactInput { trade_size: 1000, available_liquidity: 1000, volatility: 2000, historical_volume: 0 };
    assert_eq!(model_impact_bps(ImpactModelType::Logarithmic, &whole, &c), Some(6));
}

#[test]
fn impact_without_liquidity_is_refused() {
    let dry = ImpactInput { trade_size: 10, available_liquidity: 0, volatility: 0, historical_volume: 0 };
    assert_eq!(model_impact_bps(ImpactModelType::Linear, &dry, &default_coefficients()), None);
}

#[test]
fn impact_that_overflows_is_refused() {
    let mut c = default_coefficients();
    c.linear_coefficient = dec(70_000_000_000_000_000_000_000_000_000, 0);
    let input = ImpactInput { trade_size: 1000, available_liquidity: 1, volatility: 0, historical_volume: 0 };
    assert_eq!(model_impact_bps(ImpactModelType::Linear, &input, &c), None);
}

#[test]
fn basis_points_of_a_scaled_impact() {
    assert_eq!(bps_of_scaled(dec(12345, 2)), 123);
    assert_eq!(bps_of_scaled(Dec { negative: true, magnitude: 12345, scale: 2 }), 0);
    assert_eq!(bps_of_scaled(dec(5_000_000_000, 0)), 0);
    assert_eq!(bps_of_scaled(dec_from_u64(42)), 42);
}

#[test]
fn impact_result_splits_and_attributes() {
    let r = impact_result(ImpactModelType::SquareRoot, 89);
    assert_eq!(r.total_impact_bps, 89);
    assert_eq!(r.temporary_impact_bps, 57);
    assert_eq!(r.permanent_impact_bps, 32);
    assert_eq!(r.confidence_level, 9000);
    assert_eq!(r.model_used, ImpactModelType::SquareRoot);
    assert_eq!(r.impact_breakdown.size_impact_bps, 35);
    assert_eq!(r.impact_breakdown.volatility_impact_bps, 22);
    assert_eq!(r.impact_breakdown.liquidity_impact_bps, 17);
    assert_eq!(r.impact_breakdown.timing_impact_bps, 8);
    assert_eq!(r.impact_breakdown.cross_asset_impact_bps, 4);
}

#[test]
fn impact_history_keeps_the_newest() {
    let mut h = ImpactHistory::new();
    assert_eq!(h.len(), 0);
    for i in 0..(MAX_IMPACT_HISTORY as u64 + 5) {
        h.record(ImpactDataPoint { trade_size: i, impact_bps: 1, timestamp: i as i64 });
    }
    assert_eq!(h.len(), MAX_IMPACT_HISTORY);
    let points = h.to_vec();
    assert_eq!(points[0].trade_size, 5);
    assert_eq!(points[MAX_IMPACT_HISTORY - 1].trade_size, MAX_IMPACT_HISTORY as u64 + 4);
}
