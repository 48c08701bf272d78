use basket_algos::basket::{
    create_trading_engine_manager, creation_outcome, risk_components, risk_recommendations, BasketCreationParams, BasketEngine, BasketError, BasketInfo, BasketManager,
    BasketRebalanceParams, BasketRedemptionParams, LimitOrderEngine, LiquidityAggregationParams,
    LiquidityAggregator, LiquidityError, LiquidityInfo, RiskAssessment, RiskCheckParams, RiskError, RiskManager,
    TradeError, TradeExecutionParams, TradingEngine, TradingEngineManager,
};

#[test]
fn test_market_order_execute() {
    let mut manager = create_trading_engine_manager();
    let params = TradeExecutionParams { amount: 1000, token_mint: [7u8; 32] };
    let result = manager.execute_trade(params);
    assert!(result.is_ok());
}

#[test]
fn test_market_order_invalid() {
    let mut manager = create_trading_engine_manager();
    let params = TradeExecutionParams { amount: 0, token_mint: [7u8; 32] };
    let result = manager.execute_trade(params);
    assert!(result.is_err());
}

#[test]
fn order_engines_price_trades() {
    let mut market = create_trading_engine_manager();
    let info = market.execute_trade(TradeExecutionParams { amount: 2_000_000, token_mint: [7u8; 32] }).unwrap();
    assert_eq!(info.execution_cost, 2000);
    assert_eq!(info.slippage, 250);
    assert!(matches!(
        market.execute_trade(TradeExecutionParams { amount: 5, token_mint: [0u8; 32] }),
        Err(TradeError::InvalidParameters)
    ));
    assert!(matches!(market.get_trade_info(0), Err(TradeError::NotFound)));
    assert_eq!(market.get_trade_info(9).unwrap().execution_cost, 1000);
    let mut limit = TradingEngineManager::new(LimitOrderEngine);
    let info = limit.execute_trade(TradeExecutionParams { amount: 2_000_000, token_mint: [7u8; 32] }).unwrap();
    assert_eq!(info.execution_cost, 1998);
    assert_eq!(info.slippage, 20);
    assert_eq!(LimitOrderEngine.get_trade_info(3).unwrap().slippage, 20);
}

struct Engine;
impl BasketEngine for Engine {
    fn create_basket(&mut self, _p: BasketCreationParams) -> Result<BasketInfo, BasketError> {
        Err(BasketError::InternalError)
    }
    fn redeem_basket(&mut self, _p: BasketRedemptionParams) -> Result<BasketInfo, BasketError> {
        Err(BasketError::InternalError)
    }
    fn rebalance_basket(&mut self, _p: BasketRebalanceParams) -> Result<BasketInfo, BasketError> {
        Err(BasketError::InternalError)
    }
    fn get_basket_info(&self, basket_id: u64) -> Result<BasketInfo, BasketError> {
        Ok(BasketInfo { basket_id, total_supply: 5, constituents: vec![] })
    }
}

struct Liquidity(u64);
impl LiquidityAggregator for Liquidity {
    fn aggregate_liquidity(&mut self, p: LiquidityAggregationParams) -> Result<LiquidityInfo, LiquidityError> {
        Ok(LiquidityInfo { token_mint: p.token_mint, total_liquidity: self.0, price_impact: 0 })
    }
    fn get_liquidity_info(&self, token_mint: [u8; 32]) -> Result<LiquidityInfo, LiquidityError> {
        Ok(LiquidityInfo { token_mint, total_liquidity: self.0, price_impact: 0 })
    }
}

struct Risk(bool);
impl RiskManager for Risk {
    fn check_risk(&mut self, _p: RiskCheckParams) -> Result<RiskAssessment, RiskError> {
        if self.0 {
            Ok(RiskAssessment {
                overall_risk_score: 0,
                liquidity_risk: 0,
                concentration_risk: 0,
                execution_risk: 0,
                market_risk: 0,
                recommendations: vec![],
            })
        } else {
            Err(RiskError::RiskLimitExceeded)
        }
    }
    fn get_risk_info(&self, _basket_id: u64) -> Result<RiskAssessment, RiskError> {
        Err(RiskError::NotFound)
    }
}

#[test]
fn basket_manager_checks_before_creating() {
    let mut manager = BasketManager::new(Engine, Liquidity(10_000), Risk(true));
    let info = manager
        .create_basket(BasketCreationParams { token_mints: vec![[1u8; 32], [2u8; 32]], token_weights: vec![6000, 4000] })
        .unwrap();
    assert_eq!(info.constituents, vec![[1u8; 32], [2u8; 32]]);
    assert_eq!(info.total_supply, 0);
    let bad = manager.create_basket(BasketCreationParams { token_mints: vec![], token_weights: vec![] });
    assert!(matches!(bad, Err(BasketError::InvalidParameters)));
    let bad = manager.create_basket(BasketCreationParams { token_mints: vec![[1u8; 32]], token_weights: vec![0] });
    assert!(matches!(bad, Err(BasketError::InvalidParameters)));
    let bad = manager.create_basket(BasketCreationParams { token_mints: vec![[1u8; 32]], token_weights: vec![1, 2] });
    assert!(matches!(bad, Err(BasketError::InvalidParameters)));
    let mut dry = BasketManager::new(Engine, Liquidity(0), Risk(true));
    let r = dry.create_basket(BasketCreationParams { token_mints: vec![[1u8; 32]], token_weights: vec![1] });
    assert!(matches!(r, Err(BasketError::InternalError)));
    let mut refused = BasketManager::new(Engine, Liquidity(5), Risk(false));
    let r = refused.create_basket(BasketCreationParams { token_mints: vec![[1u8; 32]], token_weights: vec![1] });
    assert!(matches!(r, Err(BasketError::RiskLimit)));
    assert!(matches!(refused.redeem_basket(BasketRedemptionParams { basket_id: 3, amount: 1 }), Err(BasketError::RiskLimit)));
}

#[test]
fn basket_manager_redeem_and_rebalance() {
    let mut manager = BasketManager::new(Engine, Liquidity(10_000), Risk(true));
    assert!(matches!(manager.redeem_basket(BasketRedemptionParams { basket_id: 0, amount: 1 }), Err(BasketError::InvalidParameters)));
    assert_eq!(manager.redeem_basket(BasketRedemptionParams { basket_id: 3, amount: 1 }).unwrap().basket_id, 3);
    assert!(matches!(
        manager.rebalance_basket(BasketRebalanceParams { basket_id: 3, new_weights: vec![0, 0] }),
        Err(BasketError::InvalidParameters)
    ));
    assert_eq!(manager.rebalance_basket(BasketRebalanceParams { basket_id: 3, new_weights: vec![1] }).unwrap().basket_id, 3);
    assert!(matches!(manager.get_basket_info(0), Err(BasketError::NotFound)));
    assert_eq!(manager.get_basket_info(4).unwrap().total_supply, 5);
}

fn assessment() -> RiskAssessment {
    RiskAssessment {
        overall_risk_score: 0,
        liquidity_risk: 0,
        concentration_risk: 0,
        execution_risk: 0,
        market_risk: 0,
        recommendations: vec![],
    }
}

fn liquid(mint: u8, total: u64) -> Result<LiquidityInfo, LiquidityError> {
    Ok(LiquidityInfo { token_mint: [mint; 32], total_liquidity: total, price_impact: 0 })
}

#[test]
fn creation_outcome_follows_the_answers() {
    let params = BasketCreationParams { token_mints: vec![[1u8; 32], [2u8; 32]], token_weights: vec![1, 1] };
    let refused: Result<RiskAssessment, RiskError> = Err(RiskError::RiskLimitExceeded);
    let r = creation_outcome(&params, &refused, &vec![liquid(1, 5), liquid(2, 5)], 77);
    assert!(matches!(r, Err(BasketError::RiskLimit)));
    let r = creation_outcome(&params, &Ok(assessment()), &vec![liquid(1, 5), Err(LiquidityError::NotFound)], 77);
    assert!(matches!(r, Err(BasketError::InternalError)));
    let r = creation_outcome(&params, &Ok(assessment()), &vec![liquid(1, 0)], 77);
    assert!(matches!(r, Err(BasketError::InternalError)));
    let info = creation_outcome(&params, &Ok(assessment()), &vec![liquid(1, 5), liquid(2, 9)], 77).unwrap();
    assert_eq!(info.basket_id, 77);
    assert_eq!(info.total_supply, 0);
    assert_eq!(info.constituents, vec![[1u8; 32], [2u8; 32]]);
}

struct AskedRisk(std::rc::Rc<std::cell::RefCell<Vec<u64>>>);
impl RiskManager for AskedRisk {
    fn check_risk(&mut self, p: RiskCheckParams) -> Result<RiskAssessment, RiskError> {
        self.0.borrow_mut().push(p.basket_id);
        assert!(p.token_weights.is_empty() && p.token_liquidity.is_empty());
        assert_eq!((p.volatility, p.total_value), (0, 0));
        Ok(assessment())
    }
    fn get_risk_info(&self, _basket_id: u64) -> Result<RiskAssessment, RiskError> {
        Err(RiskError::NotFound)
    }
}

struct AskedLiquidity(std::rc::Rc<std::cell::RefCell<Vec<u8>>>);
impl LiquidityAggregator for AskedLiquidity {
    fn aggregate_liquidity(&mut self, _p: LiquidityAggregationParams) -> Result<LiquidityInfo, LiquidityError> {
        Err(LiquidityError::NotFound)
    }
    fn get_liquidity_info(&self, token_mint: [u8; 32]) -> Result<LiquidityInfo, LiquidityError> {
        self.0.borrow_mut().push(token_mint[0]);
        if token_mint[0] == 3 {
            Err(LiquidityError::NotFound)
        } else {
            Ok(LiquidityInfo { token_mint, total_liquidity: 1, price_impact: 0 })
        }
    }
}

#[test]
fn basket_manager_hands_on_ids_and_mints() {
    let asked_risk = std::rc::Rc::new(std::cell::RefCell::new(vec![]));
    let asked_mints = std::rc::Rc::new(std::cell::RefCell::new(vec![]));
    let mut manager =
        BasketManager::new(Engine, AskedLiquidity(asked_mints.clone()), AskedRisk(asked_risk.clone()));
    let r = manager.create_basket(BasketCreationParams {
        token_mints: vec![[1u8; 32], [2u8; 32], [3u8; 32], [4u8; 32]],
        token_weights: vec![1, 1, 1, 1],
    });
    assert!(matches!(r, Err(BasketError::InternalError)));
    assert!(manager.redeem_basket(BasketRedemptionParams { basket_id: 8, amount: 1 }).is_ok());
    assert!(manager.redeem_basket(BasketRedemptionParams { basket_id: 0, amount: 1 }).is_err());
    assert!(manager.rebalance_basket(BasketRebalanceParams { basket_id: 9, new_weights: vec![2] }).is_ok());
    let ok = manager.create_basket(BasketCreationParams { token_mints: vec![[5u8; 32]], token_weights: vec![1] });
    assert!(ok.is_ok());
    assert_eq!(*asked_risk.borrow(), vec![0, 8, 9, 0]);
    assert_eq!(*asked_mints.borrow(), vec![1, 2, 3, 5]);
}

#[test]
fn test_basket_manager_create() {
    let mut manager = BasketManager::new(Engine, Liquidity(10_000), Risk(true));
    let params = BasketCreationParams { token_mints: vec![[0u8; 32]], token_weights: vec![10000] };
    let result = manager.create_basket(params);
    assert!(result.is_ok());
}

#[test]
fn test_basket_manager_invalid() {
    let mut manager = BasketManager::new(Engine, Liquidity(10_000), Risk(true));
    let params = BasketCreationParams { token_mints: vec![], token_weights: vec![] };
    let result = manager.create_basket(params);
    assert!(result.is_err());
}

#[test]
fn component_risks_of_baskets() {
    let calm = RiskCheckParams {
        basket_id: 1,
        token_weights: vec![5000, 3000, 2000],
        token_liquidity: vec![20_000, 15_000, 30_000],
        volatility: 200,
        total_value: 500_000_000,
    };
    let c = risk_components(&calm, 6000);
    assert_eq!((c.liquidity_risk, c.concentration_risk, c.execution_risk, c.market_risk), (2000, 2000, 2000, 2000));
    let c = risk_components(&calm, 4000);
    assert_eq!(c.concentration_risk, 7000);
    let stormy = RiskCheckParams {
        basket_id: 1,
        token_weights: vec![9000, 1000],
        token_liquidity: vec![1000, 2000],
        volatility: 800,
        total_value: 2_000_000_000,
    };
    let c = risk_components(&stormy, 6000);
    assert_eq!((c.liquidity_risk, c.concentration_risk, c.execution_risk, c.market_risk), (8000, 7000, 6000, 9000));
    let advice = risk_recommendations(&c);
    assert_eq!(advice, vec!["提升流动性", "降低集中度", "分批执行", "规避高波动"]);
    let empty = RiskCheckParams { basket_id: 0, token_weights: vec![], token_liquidity: vec![], volatility: 500, total_value: 1_000_000_000 };
    let c = risk_components(&empty, 0);
    assert_eq!((c.liquidity_risk, c.concentration_risk, c.execution_risk, c.market_risk), (8000, 2000, 2000, 2000));
    assert_eq!(risk_recommendations(&c), vec!["提升流动性", "集中度合理", "执行风险可控", "市场风险可控"]);
}
