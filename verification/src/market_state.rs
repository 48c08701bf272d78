use vstd::prelude::*;
use crate::text::{str_eq, views_of};

verus! {

/// After an update at `timestamp`, every sample kept was observed within the
/// window: no earlier than `timestamp` less the window's offset.
pub proof fn law_window_keeps_recent(samples: Seq<Sample>, sample: Sample, timestamp: i64, window: u64)
    ensures
        forall|i: int| 0 <= i < samples.push(sample).filter(observed_since(timestamp - window_offset(window))).len()
            ==> #[trigger] samples.push(sample).filter(observed_since(timestamp - window_offset(window)))[i].2
            >= timestamp - window_offset(window),
{
    let s = samples.push(sample);
    let f = observed_since(timestamp - window_offset(window));
    assert forall|i: int| 0 <= i < s.filter(f).len() implies #[trigger] s.filter(f)[i].2 >= timestamp - window_offset(
        window,
    ) by {
        s.lemma_filter_pred(f, i);
    }
}

/// The window as a signed offset: its value when it fits an `i64`, and the
/// value taken modulo 2^64 (a negative offset) when it does not.
pub open spec fn window_offset(window: u64) -> int {
    if window <= i64::MAX {
        window as int
    } else {
        window - 0x1_0000_0000_0000_0000int
    }
}

/// A price sample: price, traded volume and the time it was observed.
pub type Sample = (u64, u64, i64);

/// Keeps the samples observed at `min_time` or later.
pub open spec fn observed_since(min_time: int) -> spec_fn(Sample) -> bool {
    |s: Sample| s.2 >= min_time
}

/// Sum of price times volume over the samples.
pub open spec fn weighted_sum(s: Seq<Sample>) -> int
    decreases s.len(),
{
    if s.len() == 0 { 0 } else { weighted_sum(s.drop_last()) + s.last().0 * s.last().1 }
}

/// Sum of the volumes of the samples.
pub open spec fn volume_sum(s: Seq<Sample>) -> int
    decreases s.len(),
{
    if s.len() == 0 { 0 } else { volume_sum(s.drop_last()) + s.last().1 }
}

proof fn lemma_sums_monotone(s: Seq<Sample>, i: int)
    requires
        0 <= i <= s.len(),
    ensures
        0 <= weighted_sum(s.take(i)) <= weighted_sum(s),
        0 <= volume_sum(s.take(i)) <= volume_sum(s),
    decreases s.len(),
{
    if s.len() > 0 {
        let last = s.last();
        assert(last.0 * last.1 >= 0) by (nonlinear_arith)
            requires last.0 >= 0, last.1 >= 0;
        if i == s.len() {
            assert(s.take(i) =~= s);
            lemma_sums_monotone(s.drop_last(), i - 1);
            assert(s.drop_last().take(i - 1) =~= s.drop_last());
        } else {
            lemma_sums_monotone(s.drop_last(), i);
            assert(s.drop_last().take(i) =~= s.take(i));
        }
    }
}

/// The volume-weighted average of the samples (in `u64`), or 0 without samples
/// or volume.
pub open spec fn vwap_of(s: Seq<Sample>) -> u64 {
    if s.len() == 0 || volume_sum(s) == 0 { 0 } else { (weighted_sum(s) / volume_sum(s)) as u64 }
}

proof fn lemma_weighted_bounds(s: Seq<Sample>, lo: int, hi: int)
    requires
        forall|i: int| 0 <= i < s.len() ==> lo <= #[trigger] s[i].0 <= hi,
        0 <= lo,
    ensures
        lo * volume_sum(s) <= weighted_sum(s) <= hi * volume_sum(s),
    decreases s.len(),
{
    if s.len() > 0 {
        let t = s.drop_last();
        assert forall|i: int| 0 <= i < t.len() implies lo <= #[trigger] t[i].0 <= hi by {
            assert(t[i] == s[i]);
        }
        lemma_weighted_bounds(t, lo, hi);
        let p = s.last().0 as int;
        let v = s.last().1 as int;
        assert(lo <= p <= hi);
        assert(lo * v <= p * v <= hi * v) by (nonlinear_arith)
            requires lo <= p <= hi, v >= 0;
        assert(lo * volume_sum(s) == lo * volume_sum(t) + lo * v) by (nonlinear_arith)
            requires volume_sum(s) == volume_sum(t) + v;
        assert(hi * volume_sum(s) == hi * volume_sum(t) + hi * v) by (nonlinear_arith)
            requires volume_sum(s) == volume_sum(t) + v;
    }
}

/// The volume-weighted average price lies between the lowest and the highest
/// price sampled.
pub proof fn law_vwap_between_prices(s: Seq<Sample>, lo: u64, hi: u64)
    requires
        forall|i: int| 0 <= i < s.len() ==> lo <= #[trigger] s[i].0 <= hi,
        volume_sum(s) > 0,
    ensures
        lo <= weighted_sum(s) / volume_sum(s) <= hi,
{
    lemma_weighted_bounds(s, lo as int, hi as int);
    let w = weighted_sum(s);
    let v = volume_sum(s);
    assert(lo <= w / v <= hi) by (nonlinear_arith)
        requires lo * v <= w <= hi * v, v > 0, lo >= 0;
}

/// A sliding window of price samples and their volume-weighted average price.
pub struct VwapAlgorithm {
    window: u64,
    samples: Vec<Sample>,
}

impl VwapAlgorithm {
    /// The window length, in seconds.
    pub closed spec fn window(&self) -> u64 {
        self.window
    }

    /// The samples kept, oldest first.
    pub closed spec fn samples(&self) -> Seq<Sample> {
        self.samples@
    }

    /// A window of `window` seconds with no samples.
    pub fn new(window: u64) -> (r: Self)
        ensures
            r.window() == window,
            r.samples() == Seq::<Sample>::empty(),
    {
        VwapAlgorithm { window, samples: Vec::new() }
    }

    /// Sets the window to `window` seconds and forgets all samples.
    pub fn initialize(&mut self, window: u64)
        ensures
            final(self).window() == window,
            final(self).samples() == Seq::<Sample>::empty(),
    {
        self.window = window;
        self.samples = Vec::new();
    }

    /// Adds a sample observed at `timestamp`, then drops every sample older than
    /// the window allows (observed before `timestamp` less the window's
    /// signed offset, which wraps for a window beyond `i64::MAX`).
    pub fn update(&mut self, price: u64, volume: u64, timestamp: i64)
        requires
            i64::MIN <= timestamp - window_offset(old(self).window()) <= i64::MAX,
        ensures
            final(self).window() == old(self).window(),
            final(self).samples() == old(self).samples().push((price, volume, timestamp)).filter(
                observed_since(timestamp - window_offset(old(self).window()))),
    {
        self.samples.push((price, volume, timestamp));
        let offset: i64 = if self.window <= 0x7fff_ffff_ffff_ffffu64 {
            self.window as i64
        } else {
            ((self.window - 0x8000_0000_0000_0000u64) as i64) + i64::MIN
        };
        let min_time = timestamp - offset;
        let ghost all = self.samples@;
        let ghost keep = observed_since(min_time as int);
        let mut kept: Vec<Sample> = Vec::new();
        let mut i: usize = 0;
        while i < self.samples.len()
            invariant
                all == self.samples@,
                keep == observed_since(min_time as int),
                i <= all.len(),
                kept@ == all.take(i as int).filter(keep),
            decreases all.len() - i,
        {
            let s = self.samples[i];
            proof {
                assert(all.take(i + 1) =~= all.take(i as int).push(s));
                all.take(i as int).lemma_filter_push(s, keep);
            }
            if s.2 >= min_time {
                kept.push(s);
            }
            i = i + 1;
        }
        proof {
            assert(all.take(i as int) =~= all);
        }
        self.samples = kept;
    }

    /// The volume-weighted average price of the samples kept: 0 without samples
    /// or without volume.
    pub fn compute_vwap(&self) -> (r: u64)
        requires
            weighted_sum(self.samples()) <= u128::MAX,
            volume_sum(self.samples()) <= u128::MAX,
        ensures
            r == vwap_of(self.samples()),
    {
        if self.samples.len() == 0 {
            return 0;
        }
        let ghost all = self.samples@;
        let mut weighted: u128 = 0;
        let mut total_volume: u128 = 0;
        let mut i: usize = 0;
        while i < self.samples.len()
            invariant
                all == self.samples@,
                i <= all.len(),
                weighted == weighted_sum(all.take(i as int)),
                total_volume == volume_sum(all.take(i as int)),
                weighted_sum(all) <= u128::MAX,
                volume_sum(all) <= u128::MAX,
            decreases all.len() - i,
        {
            let s = self.samples[i];
            proof {
                assert(all.take(i + 1).drop_last() =~= all.take(i as int));
                lemma_sums_monotone(all, i + 1);
                assert(s.0 * s.1 <= 0xffff_ffff_ffff_ffff * 0xffff_ffff_ffff_ffffu128) by (nonlinear_arith)
                    requires s.0 <= 0xffff_ffff_ffff_ffffu64, s.1 <= 0xffff_ffff_ffff_ffffu64;
            }
            weighted = weighted + (s.0 as u128) * (s.1 as u128);
            total_volume = total_volume + s.1 as u128;
            i = i + 1;
        }
        proof {
            assert(all.take(i as int) =~= all);
        }
        if total_volume == 0 {
            0
        } else {
            #[verifier::truncate] ((weighted / total_volume) as u64)
        }
    }

    /// Number of samples kept.
    pub fn sample_count(&self) -> (r: usize)
        ensures
            r == self.samples().len(),
    {
        self.samples.len()
    }

    /// Forgets all samples, keeping the window.
    pub fn reset(&mut self)
        ensures
            final(self).window() == old(self).window(),
            final(self).samples() == Seq::<Sample>::empty(),
    {
        self.samples = Vec::new();
    }
}

/// An asset traded on the markets, by its code.
#[derive(Debug, Clone, Copy, PartialEq, Eq, Structural)]
pub struct AssetType {
    pub code: u32,
}

/// Depth of one asset on one DEX.
pub struct MarketInfo {
    pub dex: String,
    pub asset: AssetType,
    pub liquidity: u64,
    pub price: u64,
}

/// Whether `m` is the market of `asset` on the DEX named `dex`.
pub open spec fn is_market_of(m: MarketInfo, dex: Seq<char>, asset: AssetType) -> bool {
    m.dex@ == dex && m.asset == asset
}

/// Whether `m` can fill `amount` of `asset` on a supported DEX.
pub open spec fn can_fill(m: MarketInfo, supported: Seq<Seq<char>>, asset: AssetType, amount: u64) -> bool {
    supported.contains(m.dex@) && m.asset == asset && m.liquidity >= amount
}

/// Routes orders to the supported DEX that fills them at the lowest price.
pub struct SmartRoutingAlgorithm {
    supported_dex: Vec<String>,
    markets: Vec<MarketInfo>,
}

impl SmartRoutingAlgorithm {
    /// Names of the supported DEXes.
    pub closed spec fn supported(&self) -> Seq<Seq<char>> {
        views_of(self.supported_dex@)
    }

    /// Markets known, in the order first seen.
    pub closed spec fn markets(&self) -> Seq<MarketInfo> {
        self.markets@
    }

    /// A router over `supported_dex` with no markets.
    pub fn new(supported_dex: Vec<String>) -> (r: Self)
        ensures
            r.supported() == views_of(supported_dex@),
            r.markets() == Seq::<MarketInfo>::empty(),
    {
        SmartRoutingAlgorithm { supported_dex, markets: Vec::new() }
    }

    /// Replaces the supported DEXes and forgets all markets.
    pub fn initialize(&mut self, supported_dex: Vec<String>)
        ensures
            final(self).supported() == views_of(supported_dex@),
            final(self).markets() == Seq::<MarketInfo>::empty(),
    {
        self.supported_dex = supported_dex;
        self.markets = Vec::new();
    }

    /// Records the liquidity and price of `asset` on `dex`: updates the first
    /// market of that DEX and asset, or adds one.
    pub fn update_market(&mut self, dex: String, asset: AssetType, liquidity: u64, price: u64)
        ensures
            final(self).supported() == old(self).supported(),
            (exists|i: int| 0 <= i < old(self).markets().len()
                && is_market_of(old(self).markets()[i], dex@, asset)
                && (forall|j: int| 0 <= j < i ==> !is_market_of(#[trigger] old(self).markets()[j], dex@, asset))
                && final(self).markets() == old(self).markets().update(i,
                    MarketInfo { liquidity, price, ..old(self).markets()[i] }))
            || ((forall|i: int| 0 <= i < old(self).markets().len() ==> !is_market_of(#[trigger] old(self).markets()[i], dex@, asset))
                && final(self).markets() == old(self).markets().push(MarketInfo { dex, asset, liquidity, price })),
    {
        let mut i: usize = 0;
        while i < self.markets.len()
            invariant
                self.markets@ == old(self).markets@,
                self.supported_dex@ == old(self).supported_dex@,
                i <= self.markets@.len(),
                forall|j: int| 0 <= j < i ==> !is_market_of(#[trigger] self.markets@[j], dex@, asset),
            decreases self.markets@.len() - i,
        {
            if str_eq(self.markets[i].dex.as_str(), dex.as_str()) && self.markets[i].asset == asset {
                let updated = MarketInfo {
                    dex: self.markets[i].dex.clone(),
                    asset: self.markets[i].asset,
                    liquidity,
                    price,
                };
                let ghost before = self.markets@;
                self.markets.set(i, updated);
                assert(self.markets@ =~= before.update(i as int, MarketInfo { liquidity, price, ..before[i as int] }));
                return;
            }
            i = i + 1;
        }
        self.markets.push(MarketInfo { dex, asset, liquidity, price });
    }

    fn is_supported(&self, dex: &str) -> (r: bool)
        ensures
            r == self.supported().contains(dex@),
    {
        let mut i: usize = 0;
        while i < self.supported_dex.len()
            invariant
                i <= self.supported_dex@.len(),
                forall|j: int| 0 <= j < i ==> self.supported_dex@[j]@ != dex@,
            decreases self.supported_dex@.len() - i,
        {
            if str_eq(self.supported_dex[i].as_str(), dex) {
                assert(self.supported()[i as int] == dex@);
                return true;
            }
            i = i + 1;
        }
        proof {
            if self.supported().contains(dex@) {
                let j = choose|j: int| 0 <= j < self.supported().len() && self.supported()[j] == dex@;
                assert(self.supported_dex@[j]@ == dex@);
            }
        }
        false
    }

    /// The supported DEX that can fill `amount` of `asset` at the lowest
    /// price, with that price; among equal prices the market seen first.
    pub fn route(&self, asset: &AssetType, amount: u64) -> (r: Option<(String, u64)>)
        ensures
            r is None <==> forall|i: int| 0 <= i < self.markets().len()
                ==> !can_fill(#[trigger] self.markets()[i], self.supported(), *asset, amount),
            r matches Some(best) ==> exists|i: int| {
                &&& 0 <= i < self.markets().len()
                &&& can_fill(self.markets()[i], self.supported(), *asset, amount)
                &&& best.0@ == self.markets()[i].dex@
                &&& best.1 == self.markets()[i].price
                &&& forall|j: int| 0 <= j < self.markets().len()
                    && can_fill(#[trigger] self.markets()[j], self.supported(), *asset, amount)
                    ==> best.1 <= self.markets()[j].price
                &&& forall|j: int| 0 <= j < i
                    && can_fill(#[trigger] self.markets()[j], self.supported(), *asset, amount)
                    ==> best.1 < self.markets()[j].price
            },
    {
        let mut best: Option<usize> = None;
        let mut i: usize = 0;
        while i < self.markets.len()
            invariant
                i <= self.markets@.len(),
                best matches None ==> forall|j: int| 0 <= j < i
                    ==> !can_fill(#[trigger] self.markets@[j], self.supported(), *asset, amount),
                best matches Some(b) ==> {
                    &&& b < i
                    &&& can_fill(self.markets@[b as int], self.supported(), *asset, amount)
                    &&& forall|j: int| 0 <= j < i && can_fill(#[trigger] self.markets@[j], self.supported(), *asset, amount)
                        ==> self.markets@[b as int].price <= self.markets@[j].price
                    &&& forall|j: int| 0 <= j < b && can_fill(#[trigger] self.markets@[j], self.supported(), *asset, amount)
                        ==> self.markets@[b as int].price < self.markets@[j].price
                },
            decreases self.markets@.len() - i,
        {
            let m = &self.markets[i];
            let eligible = self.is_supported(m.dex.as_str()) && m.asset == *asset && m.liquidity >= amount;
            if eligible {
                match best {
                    None => {
                        best = Some(i);
                    },
                    Some(b) => {
                        if m.price < self.markets[b].price {
                            best = Some(i);
                        }
                    },
                }
            }
            i = i + 1;
        }
        match best {
            None => {
                proof {
                    assert forall|j: int| 0 <= j < self.markets().len() implies
                        !can_fill(#[trigger] self.markets()[j], self.supported(), *asset, amount) by {
                        assert(self.markets()[j] == self.markets@[j]);
                    }
                }
                None
            },
            Some(b) => {
                let m = &self.markets[b];
                let r = (m.dex.clone(), m.price);
                proof {
                    let bi = b as int;
                    assert(self.markets()[bi] == self.markets@[bi]);
                    assert forall|j: int| 0 <= j < self.markets().len()
                        && can_fill(#[trigger] self.markets()[j], self.supported(), *asset, amount)
                        implies r.1 <= self.markets()[j].price by {
                        assert(self.markets()[j] == self.markets@[j]);
                    }
                    assert forall|j: int| 0 <= j < bi
                        && can_fill(#[trigger] self.markets()[j], self.supported(), *asset, amount)
                        implies r.1 < self.markets()[j].price by {
                        assert(self.markets()[j] == self.markets@[j]);
                    }
                }
                Some(r)
            },
        }
    }

    /// Forgets all markets, keeping the supported DEXes.
    pub fn reset(&mut self)
        ensures
            final(self).supported() == old(self).supported(),
            final(self).markets() == Seq::<MarketInfo>::empty(),
    {
        self.markets = Vec::new();
    }
}

} // verus!
