use vstd::prelude::*;

verus! {

/// Most observations an impact history keeps.
pub const MAX_IMPACT_HISTORY: usize = 1000;

/// One observed market impact.
#[derive(Debug, Clone, Copy, PartialEq, Eq, Structural)]
pub struct ImpactDataPoint {
    pub trade_size: u64,
    pub impact_bps: u32,
    pub timestamp: i64,
}

/// Recent impact observations, oldest first.
pub struct ImpactHistory {
    points: Vec<ImpactDataPoint>,
}

/// The observations kept after `p` is added to `kept`: all of them, or all but
/// the oldest once there are more than the limit.
pub open spec fn recorded(kept: Seq<ImpactDataPoint>, p: ImpactDataPoint) -> Seq<ImpactDataPoint> {
    if kept.len() + 1 > MAX_IMPACT_HISTORY {
        kept.push(p).drop_first()
    } else {
        kept.push(p)
    }
}

impl ImpactHistory {
    /// The observations kept, oldest first.
    pub closed spec fn points(&self) -> Seq<ImpactDataPoint> {
        self.points@
    }

    /// An empty history.
    pub fn new() -> (r: Self)
        ensures
            r.points() == Seq::<ImpactDataPoint>::empty(),
    {
        ImpactHistory { points: Vec::new() }
    }

    /// Adds an observation, dropping the oldest once more than
    /// `MAX_IMPACT_HISTORY` are kept.
    pub fn record(&mut self, p: ImpactDataPoint)
        ensures
            final(self).points() == recorded(old(self).points(), p),
    {
        self.points.push(p);
        if self.points.len() > MAX_IMPACT_HISTORY {
            self.points.remove(0);
            proof {
                assert(self.points@ =~= old(self).points@.push(p).drop_first());
            }
        }
    }

    /// Number of observations kept.
    pub fn len(&self) -> (r: usize)
        ensures
            r == self.points().len(),
    {
        self.points.len()
    }

    /// The observations kept, oldest first.
    pub fn to_vec(&self) -> (r: Vec<ImpactDataPoint>)
        ensures
            r@ == self.points(),
    {
        let mut out: Vec<ImpactDataPoint> = Vec::new();
        let mut i: usize = 0;
        while i < self.points.len()
            invariant
                i <= self.points@.len(),
                out@ == self.points@.take(i as int),
            decreases self.points@.len() - i,
        {
            out.push(self.points[i]);
            proof {
                assert(out@ =~= self.points@.take(i + 1));
            }
            i = i + 1;
        }
        proof {
            assert(self.points@.take(i as int) =~= self.points@);
        }
        out
    }
}

/// A history never holds more than the limit: adding to one within it keeps
/// it within it, and adds the new observation last.
pub proof fn law_history_stays_bounded(kept: Seq<ImpactDataPoint>, p: ImpactDataPoint)
    requires
        kept.len() <= MAX_IMPACT_HISTORY,
    ensures
        recorded(kept, p).len() <= MAX_IMPACT_HISTORY,
        recorded(kept, p).last() == p,
{
}

} // verus!
