use vstd::prelude::*;
use crate::bytes::keys_equal;
use crate::text::owned;

verus! {

/// Accounts of the basket-creation instruction (none beyond the defaults).
pub struct CreateBasket {}

/// Accounts of the trade-execution instruction (none beyond the defaults).
pub struct ExecuteTrade {}

/// Accounts of the risk-check instruction (none beyond the defaults).
pub struct CheckRisk {}

/// Accounts of the liquidity-aggregation instruction (none beyond the defaults).
pub struct AggregateLiquidity {}

/// Risk of a basket, overall and by source, in basis points, with advice.
#[derive(Debug, Clone)]
pub struct RiskAssessment {
    pub overall_risk_score: u32,
    pub liquidity_risk: u32,
    pub concentration_risk: u32,
    pub execution_risk: u32,
    pub market_risk: u32,
    pub recommendations: Vec<String>,
}

/// Running totals of basket activity.
#[derive(Debug, Clone, Copy, PartialEq, Eq, Structural)]
pub struct PerformanceMetrics {
    pub total_creations: u64,
    pub total_redemptions: u64,
    pub total_rebalances: u64,
    pub total_arbitrages: u64,
    pub total_volume: u64,
    pub total_profit: u64,
    pub average_execution_time: u64,
    pub success_rate: u16,
}

/// The metrics at one moment, with a note on what was happening.
pub struct PerformanceSnapshot {
    pub timestamp: i64,
    pub metrics: PerformanceMetrics,
    pub context: String,
}

/// Savings an optimized execution achieved, in basis points.
#[derive(Debug, Clone, Copy, PartialEq, Eq, Structural)]
pub struct OptimizationMetrics {
    pub gas_savings_bps: u32,
    pub slippage_reduction_bps: u32,
    pub execution_improvement_bps: u32,
    pub mev_protection_score: u32,
}

/// A random 64-bit value.
///
/// Trusted: calls `rand::random::<u64>()` (thread-local generator); nothing is
/// claimed of the value.
#[verifier::external_body]
fn random_u64() -> (r: u64) {
    rand::random::<u64>()
}

/// Sum of a sequence of amounts.
pub open spec fn amount_sum(s: Seq<u64>) -> int
    decreases s.len(),
{
    if s.len() == 0 { 0 } else { amount_sum(s.drop_last()) + s.last() }
}

proof fn lemma_amount_sum_prefix(s: Seq<u64>, i: int)
    requires
        0 <= i <= s.len(),
    ensures
        0 <= amount_sum(s.take(i)) <= amount_sum(s),
    decreases s.len(),
{
    if s.len() > 0 {
        if i == s.len() {
            assert(s.take(i) =~= s);
            lemma_amount_sum_prefix(s.drop_last(), i - 1);
            assert(s.drop_last().take(i - 1) =~= s.drop_last());
        } else {
            lemma_amount_sum_prefix(s.drop_last(), i);
            assert(s.drop_last().take(i) =~= s.take(i));
        }
    }
}

/// Sums `amounts`.
pub fn sum_amounts(amounts: &Vec<u64>) -> (r: u64)
    requires
        amount_sum(amounts@) <= u64::MAX,
    ensures
        r == amount_sum(amounts@),
{
    let mut total: u64 = 0;
    let mut i: usize = 0;
    while i < amounts.len()
        invariant
            i <= amounts@.len(),
            total == amount_sum(amounts@.take(i as int)),
            amount_sum(amounts@) <= u64::MAX,
        decreases amounts@.len() - i,
    {
        proof {
            assert(amounts@.take(i + 1).drop_last() =~= amounts@.take(i as int));
            lemma_amount_sum_prefix(amounts@, i + 1);
        }
        total = total + amounts[i];
        i = i + 1;
    }
    proof {
        assert(amounts@.take(i as int) =~= amounts@);
    }
    total
}

/// Why a basket operation failed.
#[derive(Debug, Clone, Copy, PartialEq, Eq, Structural)]
pub enum BasketError {
    InvalidParameters,
    NotFound,
    Unauthorized,
    RiskLimit,
    InternalError,
}

/// A new basket: its constituent mints and their weights.
pub struct BasketCreationParams {
    pub token_mints: Vec<[u8; 32]>,
    pub token_weights: Vec<u64>,
}

/// A redemption of `amount` units of basket `basket_id`.
#[derive(Debug, Clone, Copy, PartialEq, Eq, Structural)]
pub struct BasketRedemptionParams {
    pub basket_id: u64,
    pub amount: u64,
}

/// New weights for basket `basket_id`.
pub struct BasketRebalanceParams {
    pub basket_id: u64,
    pub new_weights: Vec<u64>,
}

/// What is known of a basket.
pub struct BasketInfo {
    pub basket_id: u64,
    pub total_supply: u64,
    pub constituents: Vec<[u8; 32]>,
}

/// Parameters of a risk check of a basket.
pub struct RiskCheckParams {
    pub basket_id: u64,
    pub token_weights: Vec<u64>,
    pub token_liquidity: Vec<u64>,
    pub volatility: u32,
    pub total_value: u64,
}

/// Why a risk check failed.
#[derive(Debug, Clone, Copy, PartialEq, Eq, Structural)]
pub enum RiskError {
    RiskLimitExceeded,
    NotFound,
    Unauthorized,
    InternalError,
}

/// A request to aggregate liquidity for `amount` of a token.
#[derive(Debug, Clone, Copy)]
pub struct LiquidityAggregationParams {
    pub token_mint: [u8; 32],
    pub amount: u64,
}

/// Liquidity available for a token.
#[derive(Debug, Clone, Copy)]
pub struct LiquidityInfo {
    pub token_mint: [u8; 32],
    pub total_liquidity: u64,
    pub price_impact: u64,
}

/// Why a liquidity query failed.
#[derive(Debug, Clone, Copy, PartialEq, Eq, Structural)]
pub enum LiquidityError {
    InvalidParameters,
    NotFound,
    InternalError,
}

/// A store of baskets.
pub trait BasketEngine {
    fn create_basket(&mut self, params: BasketCreationParams) -> Result<BasketInfo, BasketError>;
    fn redeem_basket(&mut self, params: BasketRedemptionParams) -> Result<BasketInfo, BasketError>;
    fn rebalance_basket(&mut self, params: BasketRebalanceParams) -> Result<BasketInfo, BasketError>;
    fn get_basket_info(&self, basket_id: u64) -> Result<BasketInfo, BasketError>;
}

/// A source of liquidity information.
pub trait LiquidityAggregator {
    fn aggregate_liquidity(&mut self, params: LiquidityAggregationParams) -> Result<LiquidityInfo, LiquidityError>;
    fn get_liquidity_info(&self, token_mint: [u8; 32]) -> Result<LiquidityInfo, LiquidityError>;
}

/// A judge of basket risk.
pub trait RiskManager {
    fn check_risk(&mut self, params: RiskCheckParams) -> Result<RiskAssessment, RiskError>;
    fn get_risk_info(&self, basket_id: u64) -> Result<RiskAssessment, RiskError>;
}

/// Smallest liquidity in `s`, 0 for none.
pub open spec fn min_liquidity(s: Seq<u64>) -> u64
    decreases s.len(),
{
    if s.len() == 0 {
        0
    } else if s.len() == 1 {
        s[0]
    } else if min_liquidity(s.drop_last()) <= s.last() {
        min_liquidity(s.drop_last())
    } else {
        s.last()
    }
}

/// Largest weight in `s`, 0 for none.
pub open spec fn max_weight(s: Seq<u64>) -> u64
    decreases s.len(),
{
    if s.len() == 0 {
        0
    } else if max_weight(s.drop_last()) >= s.last() {
        max_weight(s.drop_last())
    } else {
        s.last()
    }
}

/// The smallest liquidity is no larger than any token's, and is some token's
/// own liquidity when there are tokens.
pub proof fn law_min_liquidity_is_least(s: Seq<u64>)
    ensures
        forall|i: int| 0 <= i < s.len() ==> min_liquidity(s) <= #[trigger] s[i],
        s.len() > 0 ==> exists|i: int| 0 <= i < s.len() && min_liquidity(s) == s[i],
    decreases s.len(),
{
    if s.len() > 1 {
        let t = s.drop_last();
        law_min_liquidity_is_least(t);
        assert forall|i: int| 0 <= i < s.len() implies min_liquidity(s) <= #[trigger] s[i] by {
            if i < t.len() {
                assert(s[i] == t[i]);
            }
        }
        if min_liquidity(t) <= s.last() {
            let j = choose|j: int| 0 <= j < t.len() && min_liquidity(t) == t[j];
            assert(s[j] == t[j]);
        } else {
            assert(min_liquidity(s) == s[s.len() - 1]);
        }
    } else if s.len() == 1 {
        assert(min_liquidity(s) == s[0]);
    }
}

/// The largest weight is no smaller than any token's, and is some token's own
/// weight when there are tokens.
pub proof fn law_max_weight_is_greatest(s: Seq<u64>)
    ensures
        forall|i: int| 0 <= i < s.len() ==> #[trigger] s[i] <= max_weight(s),
        s.len() > 0 ==> exists|i: int| 0 <= i < s.len() && max_weight(s) == s[i],
        s.len() == 0 ==> max_weight(s) == 0,
    decreases s.len(),
{
    if s.len() > 0 {
        let t = s.drop_last();
        law_max_weight_is_greatest(t);
        assert forall|i: int| 0 <= i < s.len() implies #[trigger] s[i] <= max_weight(s) by {
            if i < t.len() {
                assert(s[i] == t[i]);
            }
        }
        if max_weight(t) >= s.last() && t.len() > 0 {
            let j = choose|j: int| 0 <= j < t.len() && max_weight(t) == t[j];
            assert(s[j] == t[j]);
        } else if max_weight(t) >= s.last() {
            assert(s.last() == 0);
            assert(max_weight(s) == s[s.len() - 1]);
        } else {
            assert(max_weight(s) == s[s.len() - 1]);
        }
    }
}

/// The four component risks of a basket, in basis points.
#[derive(Debug, Clone, Copy, PartialEq, Eq, Structural)]
pub struct RiskComponents {
    pub liquidity_risk: u32,
    pub concentration_risk: u32,
    pub execution_risk: u32,
    pub market_risk: u32,
}

/// Scores the component risks of a basket: thin liquidity (some token under
/// 10000) is 8000, a weight above `max_concentration_bps` is 7000, a value
/// above 1e9 is 6000, a volatility above 500 is 9000, and each is 2000
/// otherwise.
pub fn risk_components(params: &RiskCheckParams, max_concentration_bps: u64) -> (r: RiskComponents)
    ensures
        r.liquidity_risk == (if min_liquidity(params.token_liquidity@) < 10_000 { 8000u32 } else { 2000u32 }),
        r.concentration_risk == (if max_weight(params.token_weights@) > max_concentration_bps { 7000u32 } else { 2000u32 }),
        r.execution_risk == (if params.total_value > 1_000_000_000 { 6000u32 } else { 2000u32 }),
        r.market_risk == (if params.volatility > 500 { 9000u32 } else { 2000u32 }),
        r.liquidity_risk == 8000 <==> (params.token_liquidity@.len() == 0 || exists|i: int|
            0 <= i < params.token_liquidity@.len() && #[trigger] params.token_liquidity@[i] < 10_000),
        r.liquidity_risk == 2000 || r.liquidity_risk == 8000,
        r.concentration_risk == 7000 <==> exists|i: int|
            0 <= i < params.token_weights@.len() && #[trigger] params.token_weights@[i] > max_concentration_bps,
        r.concentration_risk == 2000 || r.concentration_risk == 7000,
{
    proof {
        law_min_liquidity_is_least(params.token_liquidity@);
        law_max_weight_is_greatest(params.token_weights@);
    }
    let mut least: u64 = 0;
    let mut i: usize = 0;
    while i < params.token_liquidity.len()
        invariant
            i <= params.token_liquidity@.len(),
            least == min_liquidity(params.token_liquidity@.take(i as int)),
        decreases params.token_liquidity@.len() - i,
    {
        proof {
            assert(params.token_liquidity@.take(i + 1).drop_last() =~= params.token_liquidity@.take(i as int));
        }
        let v = params.token_liquidity[i];
        if i == 0 || v < least {
            least = v;
        }
        i = i + 1;
    }
    proof {
        assert(params.token_liquidity@.take(i as int) =~= params.token_liquidity@);
    }
    let mut largest: u64 = 0;
    let mut j: usize = 0;
    while j < params.token_weights.len()
        invariant
            j <= params.token_weights@.len(),
            largest == max_weight(params.token_weights@.take(j as int)),
        decreases params.token_weights@.len() - j,
    {
        proof {
            assert(params.token_weights@.take(j + 1).drop_last() =~= params.token_weights@.take(j as int));
        }
        let w = params.token_weights[j];
        if w > largest {
            largest = w;
        }
        j = j + 1;
    }
    proof {
        assert(params.token_weights@.take(j as int) =~= params.token_weights@);
    }
    RiskComponents {
        liquidity_risk: if least < 10_000 { 8000 } else { 2000 },
        concentration_risk: if largest > max_concentration_bps { 7000 } else { 2000 },
        execution_risk: if params.total_value > 1_000_000_000 { 6000 } else { 2000 },
        market_risk: if params.volatility > 500 { 9000 } else { 2000 },
    }
}

/// Advice on each component risk, in the order liquidity, concentration,
/// execution, market: a warning for a risk above 5000, a reassurance otherwise.
pub fn risk_recommendations(c: &RiskComponents) -> (r: Vec<String>)
    ensures
        r@.len() == 4,
        r@[0]@ == (if c.liquidity_risk > 5000 { "提升流动性"@ } else { "流动性充足"@ }),
        r@[1]@ == (if c.concentration_risk > 5000 { "降低集中度"@ } else { "集中度合理"@ }),
        r@[2]@ == (if c.execution_risk > 5000 { "分批执行"@ } else { "执行风险可控"@ }),
        r@[3]@ == (if c.market_risk > 5000 { "规避高波动"@ } else { "市场风险可控"@ }),
{
    let mut r: Vec<String> = Vec::new();
    r.push(if c.liquidity_risk > 5000 { owned("提升流动性") } else { owned("流动性充足") });
    r.push(if c.concentration_risk > 5000 { owned("降低集中度") } else { owned("集中度合理") });
    r.push(if c.execution_risk > 5000 { owned("分批执行") } else { owned("执行风险可控") });
    r.push(if c.market_risk > 5000 { owned("规避高波动") } else { owned("市场风险可控") });
    r
}

/// Whether basket-creation parameters are acceptable: at least one mint, one
/// nonzero weight per mint, and a nonzero total weight.
pub open spec fn valid_creation(mints: Seq<[u8; 32]>, weights: Seq<u64>) -> bool {
    &&& mints.len() > 0
    &&& weights.len() > 0
    &&& mints.len() == weights.len()
    &&& forall|i: int| 0 <= i < weights.len() ==> weights[i] != 0
    &&& amount_sum(weights) != 0
}

/// Whether rebalancing parameters are acceptable: a real basket and weights
/// with a nonzero total.
pub open spec fn valid_rebalance(basket_id: u64, weights: Seq<u64>) -> bool {
    basket_id != 0 && weights.len() > 0 && amount_sum(weights) != 0
}

/// The parameters of the risk check that guards an operation on basket
/// `basket_id`: the id alone, with no weights, no liquidity, no volatility and
/// no value.
pub open spec fn is_guard_check(p: RiskCheckParams, basket_id: u64) -> bool {
    &&& p.basket_id == basket_id
    &&& p.token_weights@.len() == 0
    &&& p.token_liquidity@.len() == 0
    &&& p.volatility == 0
    &&& p.total_value == 0
}

/// Whether a liquidity answer lets a basket hold the mint: known, and nonzero.
pub open spec fn liquidity_usable(a: Result<LiquidityInfo, LiquidityError>) -> bool {
    a matches Ok(info) && info.total_liquidity != 0
}

/// Whether every answer in `answers` is usable.
pub open spec fn all_usable(answers: Seq<Result<LiquidityInfo, LiquidityError>>) -> bool {
    forall|i: int| 0 <= i < answers.len() ==> liquidity_usable(#[trigger] answers[i])
}

/// `answers` are what the source `liq` may answer when asked about `mints` one
/// by one in order, stopping after the first unusable answer.
pub open spec fn liquidity_answers<L: LiquidityAggregator>(
    liq: L,
    mints: Seq<[u8; 32]>,
    answers: Seq<Result<LiquidityInfo, LiquidityError>>,
) -> bool {
    &&& answers.len() <= mints.len()
    &&& forall|i: int| 0 <= i < answers.len() ==> call_ensures(
        L::get_liquidity_info,
        (&liq, mints[i]),
        #[trigger] answers[i],
    )
    &&& forall|i: int| 0 <= i < answers.len() - 1 ==> liquidity_usable(#[trigger] answers[i])
    &&& answers.len() < mints.len() ==> answers.len() > 0 && !liquidity_usable(answers.last())
}

/// How a creation of a basket of `mints` ends, once the risk manager answered
/// `risk` and the liquidity source answered `answers`: refused for risk, failed
/// for a mint without usable liquidity, or created with no supply and the mints
/// as constituents.
pub open spec fn creation_decided(
    mints: Seq<[u8; 32]>,
    risk: Result<RiskAssessment, RiskError>,
    answers: Seq<Result<LiquidityInfo, LiquidityError>>,
    r: Result<BasketInfo, BasketError>,
) -> bool {
    if risk is Err {
        r == Err::<BasketInfo, BasketError>(BasketError::RiskLimit)
    } else if !all_usable(answers) {
        r == Err::<BasketInfo, BasketError>(BasketError::InternalError)
    } else {
        r matches Ok(info) && info.total_supply == 0 && info.constituents@ == mints
    }
}

/// The outcome of creating a basket from `params` with id `basket_id`, given
/// the risk manager's answer and the liquidity answers for its mints.
pub fn creation_outcome(
    params: &BasketCreationParams,
    risk: &Result<RiskAssessment, RiskError>,
    liquidity: &Vec<Result<LiquidityInfo, LiquidityError>>,
    basket_id: u64,
) -> (r: Result<BasketInfo, BasketError>)
    ensures
        creation_decided(params.token_mints@, *risk, liquidity@, r),
        r matches Ok(info) ==> info.basket_id == basket_id,
{
    if risk.is_err() {
        return Err(BasketError::RiskLimit);
    }
    let mut i: usize = 0;
    while i < liquidity.len()
        invariant
            i <= liquidity@.len(),
            risk is Ok,
            forall|j: int| 0 <= j < i ==> liquidity_usable(#[trigger] liquidity@[j]),
        decreases liquidity@.len() - i,
    {
        let usable = match &liquidity[i] {
            Ok(info) => info.total_liquidity != 0,
            Err(_) => false,
        };
        if !usable {
            assert(!liquidity_usable(liquidity@[i as int]));
            return Err(BasketError::InternalError);
        }
        i = i + 1;
    }
    let mut constituents: Vec<[u8; 32]> = Vec::new();
    let mut k: usize = 0;
    while k < params.token_mints.len()
        invariant
            k <= params.token_mints@.len(),
            constituents@ == params.token_mints@.take(k as int),
        decreases params.token_mints@.len() - k,
    {
        constituents.push(params.token_mints[k]);
        proof {
            assert(constituents@ =~= params.token_mints@.take(k + 1));
        }
        k = k + 1;
    }
    proof {
        assert(params.token_mints@.take(k as int) =~= params.token_mints@);
    }
    Ok(BasketInfo { basket_id, total_supply: 0, constituents })
}

fn creation_params_valid(params: &BasketCreationParams) -> (r: bool)
    requires
        amount_sum(params.token_weights@) <= u64::MAX,
    ensures
        r == valid_creation(params.token_mints@, params.token_weights@),
{
    if params.token_mints.len() == 0 || params.token_weights.len() == 0 {
        return false;
    }
    if params.token_mints.len() != params.token_weights.len() {
        return false;
    }
    let mut i: usize = 0;
    while i < params.token_weights.len()
        invariant
            i <= params.token_weights@.len(),
            forall|j: int| 0 <= j < i ==> params.token_weights@[j] != 0,
        decreases params.token_weights@.len() - i,
    {
        if params.token_weights[i] == 0 {
            return false;
        }
        i = i + 1;
    }
    sum_amounts(&params.token_weights) != 0
}

/// Creates, redeems and rebalances baskets after checking parameters, risk and
/// liquidity.
pub struct BasketManager<E: BasketEngine, L: LiquidityAggregator, R: RiskManager> {
    engine: E,
    liquidity: L,
    risk: R,
}

impl<E: BasketEngine, L: LiquidityAggregator, R: RiskManager> BasketManager<E, L, R> {
    /// The basket store in use.
    pub closed spec fn engine(&self) -> E {
        self.engine
    }

    /// The liquidity source in use.
    pub closed spec fn liquidity(&self) -> L {
        self.liquidity
    }

    /// The risk manager in use.
    pub closed spec fn risk(&self) -> R {
        self.risk
    }

    /// A manager over the given engine, liquidity source and risk manager.
    pub fn new(engine: E, liquidity: L, risk: R) -> (r: Self)
        ensures
            r.engine() == engine,
            r.liquidity() == liquidity,
            r.risk() == risk,
    {
        BasketManager { engine, liquidity, risk }
    }

    fn guard_check(&mut self, basket_id: u64) -> (r: Result<RiskAssessment, RiskError>)
        ensures
            final(self).engine() == old(self).engine(),
            final(self).liquidity() == old(self).liquidity(),
            exists|p: RiskCheckParams, m: &mut R| #![trigger call_ensures(R::check_risk, (m, p), r)]
                is_guard_check(p, basket_id) && mut_ref_current(m) == old(self).risk()
                && mut_ref_future(m) == final(self).risk() && call_ensures(R::check_risk, (m, p), r),
    {
        let params = RiskCheckParams {
            basket_id,
            token_weights: Vec::new(),
            token_liquidity: Vec::new(),
            volatility: 0,
            total_value: 0,
        };
        self.risk.check_risk(params)
    }

    /// Creates a basket of the given mints and weights.
    ///
    /// Fails with `InvalidParameters`, asking nobody, on unacceptable
    /// parameters. Otherwise asks the risk manager about basket 0 and fails
    /// with `RiskLimit` if it refuses; then asks the liquidity source about
    /// each mint in order and fails with `InternalError` at the first one it
    /// does not know or that has no liquidity. A created basket has a fresh
    /// random id, no supply, and the given mints as constituents.
    pub fn create_basket(&mut self, params: BasketCreationParams) -> (r: Result<BasketInfo, BasketError>)
        requires
            amount_sum(params.token_weights@) <= u64::MAX,
        ensures
            final(self).engine() == old(self).engine(),
            final(self).liquidity() == old(self).liquidity(),
            !valid_creation(params.token_mints@, params.token_weights@) ==> r == Err::<BasketInfo, BasketError>(
                BasketError::InvalidParameters) && final(self).risk() == old(self).risk(),
            valid_creation(params.token_mints@, params.token_weights@) ==> exists|
                risk: Result<RiskAssessment, RiskError>,
                answers: Seq<Result<LiquidityInfo, LiquidityError>>,
                p: RiskCheckParams,
                m: &mut R,
            |
                #![trigger call_ensures(R::check_risk, (m, p), risk), creation_decided(params.token_mints@, risk, answers, r)]
                is_guard_check(p, 0) && mut_ref_current(m) == old(self).risk()
                && mut_ref_future(m) == final(self).risk() && call_ensures(R::check_risk, (m, p), risk)
                && (risk is Ok ==> liquidity_answers(old(self).liquidity(), params.token_mints@, answers))
                && (risk is Err ==> answers.len() == 0)
                && creation_decided(params.token_mints@, risk, answers, r),
    {
        if !creation_params_valid(&params) {
            return Err(BasketError::InvalidParameters);
        }
        let risk = self.guard_check(0);
        let mut answers: Vec<Result<LiquidityInfo, LiquidityError>> = Vec::new();
        let mut usable: bool = true;
        if risk.is_ok() {
            let mut k: usize = 0;
            while k < params.token_mints.len() && usable
                invariant
                    k <= params.token_mints@.len(),
                    answers@.len() == k,
                    self.liquidity() == old(self).liquidity(),
                    forall|i: int| 0 <= i < k ==> call_ensures(
                        L::get_liquidity_info,
                        (&self.liquidity(), params.token_mints@[i]),
                        #[trigger] answers@[i],
                    ),
                    forall|i: int| 0 <= i < k - 1 ==> liquidity_usable(#[trigger] answers@[i]),
                    usable == (k == 0 || liquidity_usable(answers@[k - 1])),
                decreases params.token_mints@.len() - k,
            {
                let a = self.liquidity.get_liquidity_info(params.token_mints[k]);
                usable = match &a {
                    Ok(info) => info.total_liquidity != 0,
                    Err(_) => false,
                };
                answers.push(a);
                k = k + 1;
            }
            assert(liquidity_answers(old(self).liquidity(), params.token_mints@, answers@));
        }
        let basket_id: u64 = if risk.is_ok() && usable { random_u64() } else { 0 };
        creation_outcome(&params, &risk, &answers, basket_id)
    }

    /// Redeems `amount` units of a basket.
    ///
    /// Fails with `InvalidParameters`, asking nobody, for basket id 0 or
    /// amount 0. Otherwise asks the risk manager about the basket and fails
    /// with `RiskLimit` exactly when it refuses; else answers with the basket's
    /// id, no supply and no constituents.
    pub fn redeem_basket(&mut self, params: BasketRedemptionParams) -> (r: Result<BasketInfo, BasketError>)
        ensures
            final(self).engine() == old(self).engine(),
            final(self).liquidity() == old(self).liquidity(),
            (params.basket_id == 0 || params.amount == 0) ==> r == Err::<BasketInfo, BasketError>(
                BasketError::InvalidParameters) && final(self).risk() == old(self).risk(),
            !(params.basket_id == 0 || params.amount == 0) ==> exists|risk: Result<RiskAssessment, RiskError>, p: RiskCheckParams, m: &mut R|
                #![trigger call_ensures(R::check_risk, (m, p), risk)]
                is_guard_check(p, params.basket_id) && mut_ref_current(m) == old(self).risk()
                && mut_ref_future(m) == final(self).risk() && call_ensures(R::check_risk, (m, p), risk)
                && guard_decided(params.basket_id, risk, r),
    {
        if params.basket_id == 0 || params.amount == 0 {
            return Err(BasketError::InvalidParameters);
        }
        let risk = self.guard_check(params.basket_id);
        if risk.is_err() {
            return Err(BasketError::RiskLimit);
        }
        Ok(BasketInfo { basket_id: params.basket_id, total_supply: 0, constituents: Vec::new() })
    }

    /// Rebalances a basket to new weights.
    ///
    /// Fails with `InvalidParameters`, asking nobody, for basket id 0, no
    /// weights or a zero total weight. Otherwise asks the risk manager about
    /// the basket and fails with `RiskLimit` exactly when it refuses; else
    /// answers with the basket's id, no supply and no constituents.
    pub fn rebalance_basket(&mut self, params: BasketRebalanceParams) -> (r: Result<BasketInfo, BasketError>)
        requires
            amount_sum(params.new_weights@) <= u64::MAX,
        ensures
            final(self).engine() == old(self).engine(),
            final(self).liquidity() == old(self).liquidity(),
            !valid_rebalance(params.basket_id, params.new_weights@) ==> r == Err::<BasketInfo, BasketError>(
                BasketError::InvalidParameters) && final(self).risk() == old(self).risk(),
            valid_rebalance(params.basket_id, params.new_weights@) ==> exists|risk: Result<RiskAssessment, RiskError>, p: RiskCheckParams, m: &mut R|
                #![trigger call_ensures(R::check_risk, (m, p), risk)]
                is_guard_check(p, params.basket_id) && mut_ref_current(m) == old(self).risk()
                && mut_ref_future(m) == final(self).risk() && call_ensures(R::check_risk, (m, p), risk)
                && guard_decided(params.basket_id, risk, r),
    {
        if params.basket_id == 0 || params.new_weights.len() == 0 {
            return Err(BasketError::InvalidParameters);
        }
        let total_weight = sum_amounts(&params.new_weights);
        if total_weight == 0 {
            return Err(BasketError::InvalidParameters);
        }
        let risk = self.guard_check(params.basket_id);
        if risk.is_err() {
            return Err(BasketError::RiskLimit);
        }
        Ok(BasketInfo { basket_id: params.basket_id, total_supply: 0, constituents: Vec::new() })
    }

    /// What the engine knows of basket `basket_id`: id 0 is never a basket;
    /// for any other id, an answer the engine's own `get_basket_info` gives.
    pub fn get_basket_info(&self, basket_id: u64) -> (r: Result<BasketInfo, BasketError>)
        ensures
            basket_id == 0 ==> r == Err::<BasketInfo, BasketError>(BasketError::NotFound),
            basket_id != 0 ==> call_ensures(E::get_basket_info, (&self.engine(), basket_id), r),
    {
        if basket_id == 0 {
            return Err(BasketError::NotFound);
        }
        self.engine.get_basket_info(basket_id)
    }
}

/// How a redemption or rebalance of basket `basket_id` ends once the risk
/// manager answered `risk`: refused for risk, or answered with the basket's id,
/// no supply and no constituents.
pub open spec fn guard_decided(
    basket_id: u64,
    risk: Result<RiskAssessment, RiskError>,
    r: Result<BasketInfo, BasketError>,
) -> bool {
    if risk is Err {
        r == Err::<BasketInfo, BasketError>(BasketError::RiskLimit)
    } else {
        r matches Ok(info) && info.basket_id == basket_id && info.total_supply == 0
            && info.constituents@.len() == 0
    }
}

/// Delegates liquidity queries to an aggregator.
pub struct LiquidityAggregatorEngine<E: LiquidityAggregator> {
    engine: E,
}

impl<E: LiquidityAggregator> LiquidityAggregatorEngine<E> {
    /// The underlying engine.
    pub closed spec fn engine(&self) -> E {
        self.engine
    }

    /// An engine over `engine`.
    pub fn new(engine: E) -> (r: Self)
        ensures
            r.engine() == engine,
    {
        LiquidityAggregatorEngine { engine }
    }

    /// Aggregates liquidity through the underlying aggregator.
    ///
    /// The answer, and the aggregator after the call, are what the
    /// aggregator's own `aggregate_liquidity` may give for `params`.
    pub fn aggregate_liquidity(&mut self, params: LiquidityAggregationParams) -> (r: Result<LiquidityInfo, LiquidityError>)
        ensures
            exists|m: &mut E| #![trigger call_ensures(E::aggregate_liquidity, (m, params), r)]
                mut_ref_current(m) == old(self).engine() && mut_ref_future(m) == final(self).engine()
                && call_ensures(E::aggregate_liquidity, (m, params), r),
    {
        self.engine.aggregate_liquidity(params)
    }

    /// Liquidity of `token_mint` from the underlying aggregator: an answer the
    /// aggregator's own `get_liquidity_info` gives for that mint.
    pub fn get_liquidity_info(&self, token_mint: [u8; 32]) -> (r: Result<LiquidityInfo, LiquidityError>)
        ensures
            call_ensures(E::get_liquidity_info, (&self.engine(), token_mint), r),
    {
        self.engine.get_liquidity_info(token_mint)
    }
}

/// Delegates risk checks to a risk manager.
pub struct RiskManagerEngine<E: RiskManager> {
    engine: E,
}

impl<E: RiskManager> RiskManagerEngine<E> {
    /// The underlying engine.
    pub closed spec fn engine(&self) -> E {
        self.engine
    }

    /// An engine over `engine`.
    pub fn new(engine: E) -> (r: Self)
        ensures
            r.engine() == engine,
    {
        RiskManagerEngine { engine }
    }

    /// Checks risk through the underlying manager.
    ///
    /// The answer, and the manager after the call, are what the manager's own
    /// `check_risk` may give for `params`.
    pub fn check_risk(&mut self, params: RiskCheckParams) -> (r: Result<RiskAssessment, RiskError>)
        ensures
            exists|m: &mut E| #![trigger call_ensures(E::check_risk, (m, params), r)]
                mut_ref_current(m) == old(self).engine() && mut_ref_future(m) == final(self).engine()
                && call_ensures(E::check_risk, (m, params), r),
    {
        self.engine.check_risk(params)
    }

    /// A past assessment from the underlying manager: an answer its own
    /// `get_risk_info` gives for that basket.
    pub fn get_risk_info(&self, basket_id: u64) -> (r: Result<RiskAssessment, RiskError>)
        ensures
            call_ensures(E::get_risk_info, (&self.engine(), basket_id), r),
    {
        self.engine.get_risk_info(basket_id)
    }
}

/// A trade of `amount` of `token_mint`.
#[derive(Debug, Clone, Copy)]
pub struct TradeExecutionParams {
    pub amount: u64,
    pub token_mint: [u8; 32],
}

/// An executed trade.
#[derive(Debug, Clone, Copy)]
pub struct TradeExecutionInfo {
    pub trade_id: u64,
    pub amount: u64,
    pub token_mint: [u8; 32],
    pub execution_cost: u64,
    pub slippage: u64,
    pub success: bool,
}

/// Why a trade failed.
#[derive(Debug, Clone, Copy, PartialEq, Eq, Structural)]
pub enum TradeError {
    InvalidParameters,
    NotFound,
    Unauthorized,
    RiskLimit,
    InternalError,
}

/// Executes trades.
pub trait TradingEngine {
    /// Whether the engine can price a trade of `amount` without overflow.
    spec fn accepts_amount(&self, amount: u64) -> bool;

    fn execute_trade(&mut self, params: TradeExecutionParams) -> Result<TradeExecutionInfo, TradeError>
        requires
            old(self).accepts_amount(params.amount),
    ;

    fn get_trade_info(&self, trade_id: u64) -> Result<TradeExecutionInfo, TradeError>;
}

/// The all-zero key, which names no token.
pub open spec fn is_default_key(k: [u8; 32]) -> bool {
    forall|i: int| 0 <= i < 32 ==> k@[i] == 0
}

fn is_zero_key(k: &[u8; 32]) -> (r: bool)
    ensures
        r == is_default_key(*k),
{
    let zero: [u8; 32] = [0u8, 0, 0, 0, 0, 0, 0, 0, 0, 0, 0, 0, 0, 0, 0, 0, 0, 0, 0, 0, 0, 0, 0, 0, 0, 0, 0, 0, 0, 0, 0, 0];
    let r = keys_equal(k, &zero);
    proof {
        if is_default_key(*k) {
            assert(k@ =~= zero@);
        }
    }
    r
}

/// Fills the whole amount at market: cost 1/1000 of the amount, slippage
/// 50 plus one per 10000 units.
pub struct MarketOrderEngine;

/// Fills the whole amount at a limit: cost 999/1000000 of the amount, slippage 20.
pub struct LimitOrderEngine;

impl MarketOrderEngine {
    /// Executes a market order.
    pub fn execute_market_order(&mut self, params: TradeExecutionParams) -> (r: Result<TradeExecutionInfo, TradeError>)
        requires
            params.amount * 1000 <= u64::MAX,
        ensures
            (params.amount == 0 || is_default_key(params.token_mint)) ==> r == Err::<TradeExecutionInfo, TradeError>(
                TradeError::InvalidParameters),
            !(params.amount == 0 || is_default_key(params.token_mint)) ==> (r matches Ok(info) && {
                &&& info.amount == params.amount
                &&& info.token_mint == params.token_mint
                &&& info.execution_cost == params.amount * 1000 / 1_000_000
                &&& info.slippage == 50 + params.amount / 10_000
                &&& info.success
            }),
    {
        if params.amount == 0 || is_zero_key(&params.token_mint) {
            return Err(TradeError::InvalidParameters);
        }
        let execution_cost = params.amount * 1000 / 1_000_000;
        let slippage = 50 + params.amount / 10_000;
        Ok(TradeExecutionInfo {
            trade_id: random_u64(),
            amount: params.amount,
            token_mint: params.token_mint,
            execution_cost,
            slippage,
            success: true,
        })
    }
}

impl LimitOrderEngine {
    /// Executes a limit order.
    pub fn execute_limit_order(&mut self, params: TradeExecutionParams) -> (r: Result<TradeExecutionInfo, TradeError>)
        requires
            params.amount * 999 <= u64::MAX,
        ensures
            (params.amount == 0 || is_default_key(params.token_mint)) ==> r == Err::<TradeExecutionInfo, TradeError>(
                TradeError::InvalidParameters),
            !(params.amount == 0 || is_default_key(params.token_mint)) ==> (r matches Ok(info) && {
                &&& info.amount == params.amount
                &&& info.token_mint == params.token_mint
                &&& info.execution_cost == params.amount * 999 / 1_000_000
                &&& info.slippage == 20
                &&& info.success
            }),
    {
        if params.amount == 0 || is_zero_key(&params.token_mint) {
            return Err(TradeError::InvalidParameters);
        }
        let execution_cost = params.amount * 999 / 1_000_000;
        Ok(TradeExecutionInfo {
            trade_id: random_u64(),
            amount: params.amount,
            token_mint: params.token_mint,
            execution_cost,
            slippage: 20,
            success: true,
        })
    }
}

/// A record of trade `trade_id` as the engines report it: a standard 1000-unit
/// trade of the default mint with the given cost and slippage.
pub open spec fn reported_trade(trade_id: u64, cost: u64, slippage: u64, info: TradeExecutionInfo) -> bool {
    &&& info.trade_id == trade_id
    &&& info.amount == 1000
    &&& is_default_key(info.token_mint)
    &&& info.execution_cost == cost
    &&& info.slippage == slippage
    &&& info.success
}

fn report_trade(trade_id: u64, cost: u64, slippage: u64) -> (r: Result<TradeExecutionInfo, TradeError>)
    ensures
        trade_id == 0 ==> r == Err::<TradeExecutionInfo, TradeError>(TradeError::NotFound),
        trade_id != 0 ==> (r matches Ok(info) && reported_trade(trade_id, cost, slippage, info)),
{
    if trade_id == 0 {
        return Err(TradeError::NotFound);
    }
    let zero: [u8; 32] = [0u8, 0, 0, 0, 0, 0, 0, 0, 0, 0, 0, 0, 0, 0, 0, 0, 0, 0, 0, 0, 0, 0, 0, 0, 0, 0, 0, 0, 0, 0, 0, 0];
    Ok(TradeExecutionInfo { trade_id, amount: 1000, token_mint: zero, execution_cost: cost, slippage, success: true })
}

impl TradingEngine for MarketOrderEngine {
    open spec fn accepts_amount(&self, amount: u64) -> bool {
        amount * 1000 <= u64::MAX
    }

    fn execute_trade(&mut self, params: TradeExecutionParams) -> (r: Result<TradeExecutionInfo, TradeError>)
        ensures
            (params.amount == 0 || is_default_key(params.token_mint)) ==> r == Err::<TradeExecutionInfo, TradeError>(
                TradeError::InvalidParameters),
            !(params.amount == 0 || is_default_key(params.token_mint)) ==> (r matches Ok(info)
                && info.amount == params.amount && info.token_mint == params.token_mint
                && info.execution_cost == params.amount * 1000 / 1_000_000
                && info.slippage == 50 + params.amount / 10_000 && info.success),
    {
        self.execute_market_order(params)
    }

    /// A standard 1000-unit record at cost 1000 and slippage 50; id 0 is no trade.
    fn get_trade_info(&self, trade_id: u64) -> (r: Result<TradeExecutionInfo, TradeError>)
        ensures
            trade_id == 0 ==> r == Err::<TradeExecutionInfo, TradeError>(TradeError::NotFound),
            trade_id != 0 ==> (r matches Ok(info) && reported_trade(trade_id, 1000, 50, info)),
    {
        report_trade(trade_id, 1000, 50)
    }
}

impl TradingEngine for LimitOrderEngine {
    open spec fn accepts_amount(&self, amount: u64) -> bool {
        amount * 999 <= u64::MAX
    }

    fn execute_trade(&mut self, params: TradeExecutionParams) -> (r: Result<TradeExecutionInfo, TradeError>)
        ensures
            (params.amount == 0 || is_default_key(params.token_mint)) ==> r == Err::<TradeExecutionInfo, TradeError>(
                TradeError::InvalidParameters),
            !(params.amount == 0 || is_default_key(params.token_mint)) ==> (r matches Ok(info)
                && info.amount == params.amount && info.token_mint == params.token_mint
                && info.execution_cost == params.amount * 999 / 1_000_000
                && info.slippage == 20 && info.success),
    {
        self.execute_limit_order(params)
    }

    /// A standard 1000-unit record at cost 999 and slippage 20; id 0 is no trade.
    fn get_trade_info(&self, trade_id: u64) -> (r: Result<TradeExecutionInfo, TradeError>)
        ensures
            trade_id == 0 ==> r == Err::<TradeExecutionInfo, TradeError>(TradeError::NotFound),
            trade_id != 0 ==> (r matches Ok(info) && reported_trade(trade_id, 999, 20, info)),
    {
        report_trade(trade_id, 999, 20)
    }
}

/// Runs trades through one trading engine.
pub struct TradingEngineManager<E: TradingEngine> {
    engine: E,
}

impl<E: TradingEngine> TradingEngineManager<E> {
    /// The underlying engine.
    pub closed spec fn engine(&self) -> E {
        self.engine
    }

    /// A manager over `engine`.
    pub fn new(engine: E) -> (r: Self)
        ensures
            r.engine() == engine,
    {
        TradingEngineManager { engine }
    }

    /// Executes a trade on the engine.
    ///
    /// The answer, and the engine after the call, are what the engine's own
    /// `execute_trade` may give for `params`.
    pub fn execute_trade(&mut self, params: TradeExecutionParams) -> (r: Result<TradeExecutionInfo, TradeError>)
        requires
            old(self).engine().accepts_amount(params.amount),
        ensures
            exists|m: &mut E| #![trigger call_ensures(E::execute_trade, (m, params), r)]
                mut_ref_current(m) == old(self).engine() && mut_ref_future(m) == final(self).engine()
                && call_ensures(E::execute_trade, (m, params), r),
    {
        self.engine.execute_trade(params)
    }

    /// Looks a trade up on the engine: an answer the engine's own
    /// `get_trade_info` gives for that id.
    pub fn get_trade_info(&self, trade_id: u64) -> (r: Result<TradeExecutionInfo, TradeError>)
        ensures
            call_ensures(E::get_trade_info, (&self.engine(), trade_id), r),
    {
        self.engine.get_trade_info(trade_id)
    }
}

/// A trading manager over a market-order engine.
pub fn create_trading_engine_manager() -> (r: TradingEngineManager<MarketOrderEngine>)
    ensures
        r.engine() == MarketOrderEngine,
{
    TradingEngineManager::new(MarketOrderEngine)
}

} // verus!
