use vstd::prelude::*;
use crate::text::str_eq;

verus! {

/// A named entry of an on-chain registry account.
pub struct RegistryEntry {
    pub name: String,
    pub creator: [u8; 32],
    pub created_at: i64,
    pub last_updated: i64,
    pub is_active: bool,
}

/// An algorithm entry of `AlgorithmRegistryAccount`.
pub type AlgorithmMeta = RegistryEntry;

/// A DEX entry of `DexRegistryAccount`.
pub type DexMeta = RegistryEntry;

/// The entry `e` after switching from `from` to `to` at time `now`: the entry
/// named `from` is deactivated, the one named `to` activated (which wins when
/// both names are the same), each stamped with `now`; others are unchanged.
pub open spec fn switched_entry(e: RegistryEntry, from: Seq<char>, to: Seq<char>, now: i64) -> RegistryEntry {
    if e.name@ == to {
        RegistryEntry { is_active: true, last_updated: now, ..e }
    } else if e.name@ == from {
        RegistryEntry { is_active: false, last_updated: now, ..e }
    } else {
        e
    }
}

/// A fresh, active entry registered at time `now`.
pub open spec fn new_entry(name: String, creator: [u8; 32], now: i64) -> RegistryEntry {
    RegistryEntry { name, creator, created_at: now, last_updated: now, is_active: true }
}

/// `r` is the first entry of `s` named `name`, or `None` when there is none.
pub open spec fn is_first_named(s: Seq<RegistryEntry>, name: Seq<char>, r: Option<&RegistryEntry>) -> bool {
    match r {
        None => forall|i: int| 0 <= i < s.len() ==> s[i].name@ != name,
        Some(e) => exists|i: int|
            0 <= i < s.len() && s[i] == *e && s[i].name@ == name
                && forall|j: int| 0 <= j < i ==> s[j].name@ != name,
    }
}

fn push_entry(entries: &mut Vec<RegistryEntry>, name: String, creator: [u8; 32], now: i64)
    ensures
        final(entries)@ == old(entries)@.push(new_entry(name, creator, now)),
{
    entries.push(RegistryEntry { name, creator, created_at: now, last_updated: now, is_active: true });
}

fn switch_entries(entries: &mut Vec<RegistryEntry>, from: &str, to: &str, now: i64)
    ensures
        final(entries)@ == old(entries)@.map_values(|e: RegistryEntry| switched_entry(e, from@, to@, now)),
{
    let ghost start = entries@;
    let mut i: usize = 0;
    while i < entries.len()
        invariant
            i <= entries@.len(),
            entries@.len() == start.len(),
            forall|j: int| 0 <= j < i ==> entries@[j] == switched_entry(start[j], from@, to@, now),
            forall|j: int| i <= j < entries@.len() ==> entries@[j] == start[j],
        decreases entries@.len() - i,
    {
        let is_to = str_eq(entries[i].name.as_str(), to);
        let is_from = str_eq(entries[i].name.as_str(), from);
        if is_to || is_from {
            let e = &entries[i];
            let updated = RegistryEntry {
                name: e.name.clone(),
                creator: e.creator,
                created_at: e.created_at,
                last_updated: now,
                is_active: is_to,
            };
            entries.set(i, updated);
        }
        i = i + 1;
    }
    assert(entries@ =~= start.map_values(|e: RegistryEntry| switched_entry(e, from@, to@, now)));
}

fn find_entry<'a>(entries: &'a Vec<RegistryEntry>, name: &str) -> (r: Option<&'a RegistryEntry>)
    ensures
        is_first_named(entries@, name@, r),
{
    let mut i: usize = 0;
    while i < entries.len()
        invariant
            i <= entries@.len(),
            forall|j: int| 0 <= j < i ==> entries@[j].name@ != name@,
        decreases entries@.len() - i,
    {
        if str_eq(entries[i].name.as_str(), name) {
            return Some(&entries[i]);
        }
        i = i + 1;
    }
    None
}

/// On-chain registry of execution algorithms.
pub struct AlgorithmRegistryAccount {
    pub algorithms: Vec<AlgorithmMeta>,
}

impl AlgorithmRegistryAccount {
    /// Most algorithms the account is sized for.
    pub const MAX_ALGORITHMS: usize = 32;

    /// Appends a new active algorithm named `name`, registered at time `now`.
    /// Names are not checked for uniqueness.
    pub fn register_algorithm(&mut self, name: String, creator: [u8; 32], now: i64)
        ensures
            final(self).algorithms@ == old(self).algorithms@.push(new_entry(name, creator, now)),
    {
        push_entry(&mut self.algorithms, name, creator, now);
    }

    /// Deactivates every algorithm named `from` and activates every one named
    /// `to`, stamping both with `now`.  Unknown names are ignored.
    pub fn switch_algorithm(&mut self, from: &str, to: &str, now: i64)
        ensures
            final(self).algorithms@ == old(self).algorithms@.map_values(
                |e: RegistryEntry| switched_entry(e, from@, to@, now)),
            final(self).algorithms@.len() == old(self).algorithms@.len(),
            forall|i: int| 0 <= i < old(self).algorithms@.len() && old(self).algorithms@[i].name@ != from@
                && old(self).algorithms@[i].name@ != to@ ==> #[trigger] final(self).algorithms@[i] == old(self).algorithms@[i],
            forall|i: int| 0 <= i < old(self).algorithms@.len() && old(self).algorithms@[i].name@ == to@
                ==> #[trigger] final(self).algorithms@[i].is_active && final(self).algorithms@[i].last_updated == now,
            forall|i: int| 0 <= i < old(self).algorithms@.len() && old(self).algorithms@[i].name@ == from@
                && from@ != to@ ==> !(#[trigger] final(self).algorithms@[i]).is_active
                && final(self).algorithms@[i].last_updated == now,
    {
        switch_entries(&mut self.algorithms, from, to, now);
    }

    /// The first algorithm named `name`.
    pub fn query_algorithm(&self, name: &str) -> (r: Option<&AlgorithmMeta>)
        ensures
            is_first_named(self.algorithms@, name@, r),
    {
        find_entry(&self.algorithms, name)
    }
}

/// On-chain registry of DEXes.
pub struct DexRegistryAccount {
    pub dexes: Vec<DexMeta>,
}

impl DexRegistryAccount {
    /// Most DEXes the account is sized for.
    pub const MAX_DEXES: usize = 32;

    /// Appends a new active DEX named `name`, registered at time `now`.
    /// Names are not checked for uniqueness.
    pub fn register_dex(&mut self, name: String, creator: [u8; 32], now: i64)
        ensures
            final(self).dexes@ == old(self).dexes@.push(new_entry(name, creator, now)),
    {
        push_entry(&mut self.dexes, name, creator, now);
    }

    /// Deactivates every DEX named `from` and activates every one named `to`,
    /// stamping both with `now`.  Unknown names are ignored.
    pub fn switch_dex(&mut self, from: &str, to: &str, now: i64)
        ensures
            final(self).dexes@ == old(self).dexes@.map_values(
                |e: RegistryEntry| switched_entry(e, from@, to@, now)),
            final(self).dexes@.len() == old(self).dexes@.len(),
            forall|i: int| 0 <= i < old(self).dexes@.len() && old(self).dexes@[i].name@ != from@
                && old(self).dexes@[i].name@ != to@ ==> #[trigger] final(self).dexes@[i] == old(self).dexes@[i],
            forall|i: int| 0 <= i < old(self).dexes@.len() && old(self).dexes@[i].name@ == to@
                ==> #[trigger] final(self).dexes@[i].is_active && final(self).dexes@[i].last_updated == now,
            forall|i: int| 0 <= i < old(self).dexes@.len() && old(self).dexes@[i].name@ == from@
                && from@ != to@ ==> !(#[trigger] final(self).dexes@[i]).is_active
                && final(self).dexes@[i].last_updated == now,
    {
        switch_entries(&mut self.dexes, from, to, now);
    }

    /// The first DEX named `name`.
    pub fn query_dex(&self, name: &str) -> (r: Option<&DexMeta>)
        ensures
            is_first_named(self.dexes@, name@, r),
    {
        find_entry(&self.dexes, name)
    }
}

/// A strategy entry of `StrategyRegistryAccount`, with its configuration `C`.
pub struct StrategyMeta<C> {
    pub id: u64,
    pub config: C,
    pub creator: [u8; 32],
    pub created_at: i64,
    pub last_updated: i64,
    pub is_active: bool,
}

/// The strategy `e` after switching from `from` to `to` at time `now`.
pub open spec fn switched_strategy<C>(e: StrategyMeta<C>, from: u64, to: u64, now: i64) -> StrategyMeta<C> {
    if e.id == to {
        StrategyMeta { is_active: true, last_updated: now, ..e }
    } else if e.id == from {
        StrategyMeta { is_active: false, last_updated: now, ..e }
    } else {
        e
    }
}

/// On-chain registry of strategies keyed by id.
pub struct StrategyRegistryAccount<C> {
    pub strategies: Vec<StrategyMeta<C>>,
}

impl<C> StrategyRegistryAccount<C> {
    /// Most strategies the account is sized for.
    pub const MAX_STRATEGIES: usize = 64;

    /// Appends a new active strategy `id` with `config`, registered at time `now`.
    /// Ids are not checked for uniqueness.
    pub fn register_strategy(&mut self, id: u64, config: C, creator: [u8; 32], now: i64)
        ensures
            final(self).strategies@ == old(self).strategies@.push(StrategyMeta {
                id, config, creator, created_at: now, last_updated: now, is_active: true }),
    {
        self.strategies.push(StrategyMeta { id, config, creator, created_at: now, last_updated: now, is_active: true });
    }

    /// Deactivates every strategy with id `from` and activates every one with
    /// id `to`, stamping both with `now`.  Unknown ids are ignored.
    pub fn switch_strategy(&mut self, from: u64, to: u64, now: i64)
        ensures
            final(self).strategies@ == old(self).strategies@.map_values(
                |e: StrategyMeta<C>| switched_strategy(e, from, to, now)),
            final(self).strategies@.len() == old(self).strategies@.len(),
            forall|i: int| 0 <= i < old(self).strategies@.len() && old(self).strategies@[i].id != from
                && old(self).strategies@[i].id != to ==> #[trigger] final(self).strategies@[i] == old(self).strategies@[i],
            forall|i: int| 0 <= i < old(self).strategies@.len() && old(self).strategies@[i].id == to
                ==> #[trigger] final(self).strategies@[i].is_active && final(self).strategies@[i].last_updated == now,
            forall|i: int| 0 <= i < old(self).strategies@.len() && old(self).strategies@[i].id == from
                && from != to ==> !(#[trigger] final(self).strategies@[i]).is_active
                && final(self).strategies@[i].last_updated == now,
            forall|i: int| 0 <= i < old(self).strategies@.len() ==> (#[trigger] final(self).strategies@[i]).id
                == old(self).strategies@[i].id && final(self).strategies@[i].created_at
                == old(self).strategies@[i].created_at && final(self).strategies@[i].creator
                == old(self).strategies@[i].creator,
    {
        let ghost start = self.strategies@;
        let mut rest: Vec<StrategyMeta<C>> = Vec::new();
        std::mem::swap(&mut rest, &mut self.strategies);
        let mut done: Vec<StrategyMeta<C>> = Vec::new();
        let ghost mut k: int = 0;
        while rest.len() > 0
            invariant
                0 <= k <= start.len(),
                rest@ == start.subrange(k, start.len() as int),
                done@ == start.subrange(0, k).map_values(|e: StrategyMeta<C>| switched_strategy(e, from, to, now)),
            decreases rest@.len(),
        {
            let e = rest.remove(0);
            let updated = if e.id == to {
                StrategyMeta { is_active: true, last_updated: now, ..e }
            } else if e.id == from {
                StrategyMeta { is_active: false, last_updated: now, ..e }
            } else {
                e
            };
            proof {
                assert(start.subrange(0, k + 1) =~= start.subrange(0, k).push(start[k]));
                assert(rest@ =~= start.subrange(k + 1, start.len() as int));
            }
            done.push(updated);
            proof {
                k = k + 1;
                assert(done@ =~= start.subrange(0, k).map_values(|e: StrategyMeta<C>| switched_strategy(e, from, to, now)));
            }
        }
        proof {
            assert(start.subrange(0, k) =~= start);
        }
        self.strategies = done;
    }

    /// The first strategy with id `id`.
    pub fn query_strategy(&self, id: u64) -> (r: Option<&StrategyMeta<C>>)
        ensures
            match r {
                None => forall|i: int| 0 <= i < self.strategies@.len() ==> self.strategies@[i].id != id,
                Some(e) => exists|i: int|
                    0 <= i < self.strategies@.len() && self.strategies@[i] == *e && e.id == id
                        && forall|j: int| 0 <= j < i ==> self.strategies@[j].id != id,
            },
    {
        let mut i: usize = 0;
        while i < self.strategies.len()
            invariant
                i <= self.strategies@.len(),
                forall|j: int| 0 <= j < i ==> self.strategies@[j].id != id,
            decreases self.strategies@.len() - i,
        {
            if self.strategies[i].id == id {
                return Some(&self.strategies[i]);
            }
            i = i + 1;
        }
        None
    }
}

/// Switching never renames or re-creates an entry: only the activity flag
/// and update time of an entry named `from` or `to` change, and the entry
/// named `to` ends active.
pub proof fn law_switch_keeps_entry(e: RegistryEntry, from: Seq<char>, to: Seq<char>, now: i64)
    ensures
        switched_entry(e, from, to, now).name == e.name,
        switched_entry(e, from, to, now).creator == e.creator,
        switched_entry(e, from, to, now).created_at == e.created_at,
        e.name@ != from && e.name@ != to ==> switched_entry(e, from, to, now) == e,
        e.name@ == to ==> switched_entry(e, from, to, now).is_active,
        e.name@ == from && e.name@ != to ==> !switched_entry(e, from, to, now).is_active,
{
}

/// Switching strategies touches only the two named: a strategy whose id is
/// neither `from` nor `to` is left exactly as it was, the one with id `to` ends
/// active, one with id `from` (and not `to`) ends inactive, and neither is
/// renumbered or re-created.
pub proof fn law_switch_touches_only_named<C>(e: StrategyMeta<C>, from: u64, to: u64, now: i64)
    ensures
        e.id != from && e.id != to ==> switched_strategy(e, from, to, now) == e,
        e.id == to ==> switched_strategy(e, from, to, now).is_active && switched_strategy(e, from, to, now).last_updated
            == now,
        e.id == from && e.id != to ==> !switched_strategy(e, from, to, now).is_active && switched_strategy(
            e,
            from,
            to,
            now,
        ).last_updated == now,
        switched_strategy(e, from, to, now).id == e.id,
        switched_strategy(e, from, to, now).created_at == e.created_at,
        switched_strategy(e, from, to, now).creator == e.creator,
{
}

} // verus!
