use vstd::prelude::*;
use crate::bytes::{le_bytes_u64, le_u64_at, to_le_bytes_u64};
use crate::strategies::{AlgorithmError, ExecutionResult};

verus! {

#[verifier::external_type_specification]
#[verifier::external_body]
pub struct ExBincodeErrorKind(bincode::ErrorKind);

/// Two unsigned 64-bit values, as the bincode parameters encode them.
pub type U64Pair = (u64, u64);

/// Decodes a pair of `u64` from bincode bytes.
///
/// Trusted: calls `bincode::deserialize::<(u64, u64)>`, whose default options
/// (bincode 1.3: fixed-width little-endian integers, trailing bytes allowed) read the
/// pair from the first sixteen bytes; the contract claims exactly that, and an error
/// when fewer than sixteen bytes are given.
#[verifier::external_body]
fn decode_u64_pair(bytes: &[u8]) -> (r: bincode::Result<U64Pair>)
    ensures
        r is Ok <==> bytes@.len() >= 16,
        r matches Ok(pair) ==> pair.0 == le_u64_at(bytes@, 0) && pair.1 == le_u64_at(bytes@, 8),
{
    bincode::deserialize::<U64Pair>(bytes)
}

/// The Keccak-256 digest of a byte string.
pub uninterp spec fn keccak256_digest(data: Seq<u8>) -> Seq<u8>;

/// Keccak-256 of `data`.
///
/// Trusted: calls `solana_program::keccak::hashv` (from `solana-keccak-hasher`) on the
/// single slice `data` and returns the 32 bytes of the hash; the contract names that
/// result `keccak256_digest(data)`, a function of the bytes alone.
#[verifier::external_body]
#[allow(deprecated)]
fn keccak256(data: &[u8]) -> (r: [u8; 32])
    ensures
        r@ == keccak256_digest(data@),
{
    anchor_lang::solana_program::keccak::hashv(&[data]).0
}

/// Raw parameters of an algorithm, encoded with bincode.
pub struct AlgoParams {
    pub params: Vec<u8>,
}

/// Size of the candidate population.
pub const POPULATION_SIZE: usize = 32;

/// Number of generations evolved.
pub const GENERATIONS: u64 = 20;

/// Fitness of a candidate size: larger sizes and smaller tolerances score higher.
pub open spec fn genetic_fitness(candidate: int, slippage: u64) -> int {
    (candidate * 1000) / (slippage + 1)
}

/// The candidate the population settles on after selection: the
/// `seed0 % 32`-th member of the initial, evenly spaced population.
pub open spec fn genetic_pick(order: u64, seed0: u8) -> int {
    (order / 32) as int * (seed0 % 32 + 1)
}

/// Whether every generation mutates (adds one to each candidate).
pub open spec fn genetic_mutates(seed1: u8) -> bool {
    seed1 % 10 == 0
}

/// The value every candidate holds after `g` generations (with `g = 0` the
/// picked candidate): the pick, plus one per generation when mutating,
/// saturating at `u64::MAX`.
pub open spec fn genetic_value(order: u64, seed0: u8, seed1: u8, g: nat) -> int {
    if genetic_mutates(seed1) {
        if genetic_pick(order, seed0) + g <= u64::MAX { genetic_pick(order, seed0) + g } else { u64::MAX as int }
    } else {
        genetic_pick(order, seed0)
    }
}

/// The best candidate and its fitness after `g` generations: starting from the
/// first initial candidate, a generation's value replaces the best only when its
/// fitness is strictly higher.
pub open spec fn genetic_best(order: u64, slippage: u64, seed0: u8, seed1: u8, g: nat) -> (int, int)
    decreases g,
{
    if g == 0 {
        ((order / 32) as int, genetic_fitness((order / 32) as int, slippage))
    } else {
        let prev = genetic_best(order, slippage, seed0, seed1, (g - 1) as nat);
        let v = genetic_value(order, seed0, seed1, g);
        if genetic_fitness(v, slippage) > prev.1 { (v, genetic_fitness(v, slippage)) } else { prev }
    }
}

/// Whether the search stays within `u64` arithmetic: the tolerance leaves room
/// for one more, and every candidate it scores has a fitness numerator below `u64::MAX`.
pub open spec fn genetic_fits(order: u64, slippage: u64, seed0: u8, seed1: u8) -> bool {
    &&& slippage < u64::MAX
    &&& (order / 32) as int * 32 * 1000 <= u64::MAX
    &&& genetic_value(order, seed0, seed1, GENERATIONS as nat) * 1000 <= u64::MAX
}

/// The outcome of the search: the best size found and its fitness as cost.
pub open spec fn genetic_result(order: u64, slippage: u64, seed0: u8, seed1: u8) -> ExecutionResult {
    let b = genetic_best(order, slippage, seed0, seed1, GENERATIONS as nat);
    ExecutionResult { optimized_size: b.0 as u64, expected_cost: b.1 as u64 }
}

fn fitness(candidate: u64, slippage: u64) -> (r: u64)
    requires
        candidate * 1000 <= u64::MAX,
        slippage < u64::MAX,
    ensures
        r == genetic_fitness(candidate as int, slippage),
{
    candidate * 1000 / (slippage + 1)
}

proof fn lemma_genetic_value_monotone(order: u64, seed0: u8, seed1: u8, g: nat, h: nat)
    requires
        g <= h,
    ensures
        genetic_pick(order, seed0) <= genetic_value(order, seed0, seed1, g) <= genetic_value(order, seed0, seed1, h),
{
    assert(genetic_pick(order, seed0) <= u64::MAX) by (nonlinear_arith)
        requires genetic_pick(order, seed0) == (order / 32) as int * (seed0 % 32 + 1), order <= u64::MAX;
}

/// Whether `genetic_search` can run on these values without overflow.
pub fn genetic_fits_check(order: u64, slippage: u64, seed0: u8, seed1: u8) -> (r: bool)
    ensures
        r == genetic_fits(order, slippage, seed0, seed1),
{
    if slippage == u64::MAX {
        return false;
    }
    let unit = order / 32;
    if unit > u64::MAX / 32000 {
        return false;
    }
    assert(unit * ((seed0 % 32) as u64 + 1) <= unit * 32) by (nonlinear_arith)
        requires seed0 % 32 < 32;
    assert(unit * 32 <= u64::MAX) by (nonlinear_arith)
        requires unit <= u64::MAX / 32000;
    let pick = unit * ((seed0 % 32) as u64 + 1);
    assert(pick == genetic_pick(order, seed0));
    assert(pick <= unit * 32) by (nonlinear_arith)
        requires pick == unit * ((seed0 % 32) as u64 + 1), seed0 % 32 < 32;
    let last = if seed1 % 10 == 0 { pick + GENERATIONS } else { pick };
    last <= u64::MAX / 1000
}

/// Evolves a population of 32 candidate sizes for an order of `order` over
/// 20 generations, selecting by `seed0`, mutating when `seed1` says so, and
/// returns the fittest size and its fitness.
pub fn genetic_search(order: u64, slippage: u64, seed0: u8, seed1: u8) -> (r: ExecutionResult)
    requires
        genetic_fits(order, slippage, seed0, seed1),
    ensures
        r == genetic_result(order, slippage, seed0, seed1),
{
    let population_size: usize = POPULATION_SIZE;
    let unit = order / 32;
    let ghost pick = genetic_pick(order, seed0);
    proof {
        assert(unit * 32 <= order) by (nonlinear_arith)
            requires unit == order / 32;
        lemma_genetic_value_monotone(order, seed0, seed1, 0, GENERATIONS as nat);
    }
    let mut population: Vec<u64> = Vec::new();
    let mut i: usize = 0;
    while i < population_size
        invariant
            population_size == 32,
            i <= 32,
            unit == order / 32,
            unit * 32 <= order,
            population@.len() == i,
            forall|j: int| 0 <= j < i ==> population@[j] == unit * (j + 1),
        decreases 32 - i,
    {
        assert(unit * (i + 1) <= unit * 32) by (nonlinear_arith)
            requires i + 1 <= 32;
        population.push(unit * (i as u64 + 1));
        i = i + 1;
    }
    let mut best = population[0];
    let mut best_fitness = fitness(best, slippage);
    let idx = (seed0 as usize) % population_size;
    let mutate = (seed1 as usize) % 10 == 0;
    assert(mutate == genetic_mutates(seed1));
    assert(population@[idx as int] == pick);
    let mut gen: u64 = 0;
    while gen < GENERATIONS
        invariant
            population_size == 32,
            idx == seed0 % 32,
            mutate == genetic_mutates(seed1),
            unit == order / 32,
            unit * 32 <= order,
            pick == genetic_pick(order, seed0),
            genetic_fits(order, slippage, seed0, seed1),
            gen <= GENERATIONS,
            population@.len() == 32,
            gen == 0 ==> forall|j: int| 0 <= j < 32 ==> population@[j] == unit * (j + 1),
            gen > 0 ==> forall|j: int| 0 <= j < 32 ==> population@[j] == genetic_value(order, seed0, seed1, gen as nat),
            population@[idx as int] == genetic_value(order, seed0, seed1, gen as nat),
            (best as int, best_fitness as int) == genetic_best(order, slippage, seed0, seed1, gen as nat),
        decreases GENERATIONS - gen,
    {
        proof {
            lemma_genetic_value_monotone(order, seed0, seed1, gen as nat, GENERATIONS as nat);
            lemma_genetic_value_monotone(order, seed0, seed1, (gen + 1) as nat, GENERATIONS as nat);
        }
        let ghost cur = genetic_value(order, seed0, seed1, gen as nat);
        let mut fitness_values: Vec<u64> = Vec::new();
        let mut j: usize = 0;
        while j < population.len()
            invariant
                population@.len() == 32,
                unit * 32 <= order,
                genetic_fits(order, slippage, seed0, seed1),
                genetic_value(order, seed0, seed1, GENERATIONS as nat) * 1000 <= u64::MAX,
                cur <= genetic_value(order, seed0, seed1, GENERATIONS as nat),
                gen == 0 ==> forall|k: int| 0 <= k < 32 ==> population@[k] == unit * (k + 1),
                gen > 0 ==> forall|k: int| 0 <= k < 32 ==> population@[k] == cur,
                j <= 32,
            decreases 32 - j,
        {
            let x = population[j];
            proof {
                if gen == 0 {
                    assert(x <= unit * 32) by (nonlinear_arith)
                        requires x == unit * (j + 1), j < 32;
                    assert(x * 1000 <= unit * 32 * 1000) by (nonlinear_arith)
                        requires x <= unit * 32;
                } else {
                    assert(x * 1000 <= genetic_value(order, seed0, seed1, GENERATIONS as nat) * 1000) by (nonlinear_arith)
                        requires x == cur, cur <= genetic_value(order, seed0, seed1, GENERATIONS as nat);
                }
            }
            fitness_values.push(fitness(x, slippage));
            j = j + 1;
        }
        let mut selected: Vec<u64> = Vec::new();
        let mut k: usize = 0;
        while k < population_size
            invariant
                population_size == 32,
                population@.len() == 32,
                idx < 32,
                population@[idx as int] == cur,
                selected@.len() == k,
                k <= 32,
                forall|m: int| 0 <= m < k ==> selected@[m] == cur,
            decreases 32 - k,
        {
            selected.push(population[idx]);
            k = k + 1;
        }
        proof {
            assert(cur * 2 <= u64::MAX) by (nonlinear_arith)
                requires cur * 1000 <= u64::MAX, cur >= 0;
        }
        let mut c: usize = 0;
        while c < population_size
            invariant
                population_size == 32,
                selected@.len() == 32,
                c % 2 == 0,
                c <= 32,
                cur * 2 <= u64::MAX,
                forall|m: int| 0 <= m < 32 ==> selected@[m] == cur,
            decreases 32 - c,
        {
            if c + 1 < population_size {
                let a = selected[c];
                let b = selected[c + 1];
                let child = (a + b) / 2;
                selected.set(c, child);
            }
            c = c + 2;
        }
        let mut t: usize = 0;
        while t < selected.len()
            invariant
                selected@.len() == 32,
                mutate == genetic_mutates(seed1),
                t <= 32,
                forall|m: int| 0 <= m < t ==> selected@[m] == genetic_value(order, seed0, seed1, (gen + 1) as nat),
                forall|m: int| t <= m < 32 ==> selected@[m] == cur,
                cur == genetic_value(order, seed0, seed1, gen as nat),
            decreases 32 - t,
        {
            let x = selected[t];
            let y = if mutate { x.saturating_add(1) } else { x };
            selected.set(t, y);
            t = t + 1;
        }
        population = selected;
        let ghost next = genetic_value(order, seed0, seed1, (gen + 1) as nat);
        let ghost before = (best as int, best_fitness as int);
        let mut u: usize = 0;
        while u < population.len()
            invariant
                population@.len() == 32,
                forall|m: int| 0 <= m < 32 ==> population@[m] == next,
                next * 1000 <= u64::MAX,
                slippage < u64::MAX,
                u <= 32,
                u == 0 ==> (best as int, best_fitness as int) == before,
                u > 0 ==> (best as int, best_fitness as int) == (if genetic_fitness(next, slippage) > before.1 {
                    (next, genetic_fitness(next, slippage))
                } else {
                    before
                }),
            decreases 32 - u,
        {
            let x = population[u];
            let fit = fitness(x, slippage);
            if fit > best_fitness {
                best = x;
                best_fitness = fit;
            }
            u = u + 1;
        }
        gen = gen + 1;
    }
    ExecutionResult { optimized_size: best, expected_cost: best_fitness }
}

/// Searches order sizes with a small genetic algorithm seeded from the order.
pub struct GeneticImpl;

impl GeneticImpl {
    /// Decodes `(order_size, slippage_tolerance)` from the bincode parameters,
    /// seeds the search with the Keccak-256 of the order size's little-endian
    /// bytes, and runs `genetic_search`.
    ///
    /// Fails with `InvalidInput` when the parameters do not decode or either
    /// value is zero, and with `CalculationError` when the search would leave
    /// `u64` arithmetic.
    pub fn execute(&self, params: &AlgoParams) -> (r: Result<ExecutionResult, AlgorithmError>)
        ensures
            params.params@.len() < 16 ==> r matches Err(AlgorithmError::InvalidInput),
            params.params@.len() >= 16 ==> ({
                let order = le_u64_at(params.params@, 0) as u64;
                let slippage = le_u64_at(params.params@, 8) as u64;
                let seed = keccak256_digest(le_bytes_u64(order));
                if order == 0 || slippage == 0 {
                    r matches Err(AlgorithmError::InvalidInput)
                } else if !genetic_fits(order, slippage, seed[0], seed[1]) {
                    r matches Err(AlgorithmError::CalculationError)
                } else {
                    r == Ok::<ExecutionResult, AlgorithmError>(genetic_result(order, slippage, seed[0], seed[1]))
                }
            }),
    {
        let (order_size, slippage_tolerance) = match decode_u64_pair(params.params.as_slice()) {
            Ok(pair) => pair,
            Err(_) => return Err(AlgorithmError::InvalidInput),
        };
        if order_size == 0 || slippage_tolerance == 0 {
            return Err(AlgorithmError::InvalidInput);
        }
        let order_bytes = to_le_bytes_u64(order_size);
        let seed = keccak256(order_bytes.as_slice());
        if !genetic_fits_check(order_size, slippage_tolerance, seed[0], seed[1]) {
            return Err(AlgorithmError::CalculationError);
        }
        Ok(genetic_search(order_size, slippage_tolerance, seed[0], seed[1]))
    }

    /// Name under which the strategy is registered.
    pub fn name(&self) -> (r: &'static str)
        ensures
            r@ == "Genetic"@,
    {
        "Genetic"
    }
}

} // verus!
