use vstd::prelude::*;
use crate::name_table::NamedTable;
use crate::text::{owned, str_eq};

verus! {

/// Lifecycle status of a registered algorithm.
pub enum AlgorithmStatus {
    Active,
    Inactive,
    Error(String),
}

impl AlgorithmStatus {
    /// Two statuses agree: same variant and, for `Error`, the same reason text.
    pub open spec fn agrees(&self, other: &AlgorithmStatus) -> bool {
        match (self, other) {
            (AlgorithmStatus::Active, AlgorithmStatus::Active) => true,
            (AlgorithmStatus::Inactive, AlgorithmStatus::Inactive) => true,
            (AlgorithmStatus::Error(a), AlgorithmStatus::Error(b)) => a@ == b@,
            _ => false,
        }
    }

    /// Compares two statuses: same variant and, for `Error`, the same reason.
    pub fn same_as(&self, other: &AlgorithmStatus) -> (r: bool)
        ensures
            r == self.agrees(other),
    {
        match (self, other) {
            (AlgorithmStatus::Active, AlgorithmStatus::Active) => true,
            (AlgorithmStatus::Inactive, AlgorithmStatus::Inactive) => true,
            (AlgorithmStatus::Error(a), AlgorithmStatus::Error(b)) => {
                str_eq(a.as_str(), b.as_str())
            }
            _ => false,
        }
    }

    /// A copy of this status.
    pub fn duplicate(&self) -> (r: AlgorithmStatus)
        ensures
            r == *self,
    {
        match self {
            AlgorithmStatus::Active => AlgorithmStatus::Active,
            AlgorithmStatus::Inactive => AlgorithmStatus::Inactive,
            AlgorithmStatus::Error(s) => AlgorithmStatus::Error(s.clone()),
        }
    }
}

/// Metadata kept for each registered execution algorithm.
pub struct AlgorithmMeta {
    pub name: String,
    pub version: String,
    pub algo_type: String,
    pub status: AlgorithmStatus,
    pub last_updated: i64,
}

impl AlgorithmMeta {
    /// A copy of this metadata record.
    pub fn duplicate(&self) -> (r: AlgorithmMeta)
        ensures
            r == *self,
    {
        AlgorithmMeta {
            name: self.name.clone(),
            version: self.version.clone(),
            algo_type: self.algo_type.clone(),
            status: self.status.duplicate(),
            last_updated: self.last_updated,
        }
    }
}

/// Selects the metadata whose status agrees with `status`.
pub open spec fn has_status(status: AlgorithmStatus) -> spec_fn(AlgorithmMeta) -> bool {
    |m: AlgorithmMeta| m.status.agrees(&status)
}

/// Selects the metadata whose type is `algo_type`.
pub open spec fn has_type(algo_type: Seq<char>) -> spec_fn(AlgorithmMeta) -> bool {
    |m: AlgorithmMeta| m.algo_type@ == algo_type
}

/// Removes every name of `names` from `m`, in order.
pub open spec fn remove_all<V>(m: Map<Seq<char>, V>, names: Seq<Seq<char>>) -> Map<Seq<char>, V>
    decreases names.len(),
{
    if names.len() == 0 {
        m
    } else {
        remove_all(m, names.drop_last()).remove(names.last())
    }
}

/// Inserts every `(name, value)` of `entries` into `m`, in order.
pub open spec fn insert_all<V>(m: Map<Seq<char>, V>, entries: Seq<(Seq<char>, V)>) -> Map<Seq<char>, V>
    decreases entries.len(),
{
    if entries.len() == 0 {
        m
    } else {
        insert_all(m, entries.drop_last()).insert(entries.last().0, entries.last().1)
    }
}

/// Registry of execution, routing, risk and optimizer algorithms by name,
/// with metadata for the execution algorithms.
///
/// `A` is the handle type of execution, routing and optimizer algorithms,
/// `R` the handle type of risk algorithms.
pub struct AlgorithmRegistry<A, R> {
    execution_algorithms: NamedTable<A>,
    routing_algorithms: NamedTable<A>,
    risk_algorithms: NamedTable<R>,
    optimizer_algorithms: NamedTable<A>,
    metadata: NamedTable<AlgorithmMeta>,
}

impl<A, R> AlgorithmRegistry<A, R> {
    pub closed spec fn wf(&self) -> bool {
        &&& self.execution_algorithms.wf()
        &&& self.routing_algorithms.wf()
        &&& self.risk_algorithms.wf()
        &&& self.optimizer_algorithms.wf()
        &&& self.metadata.wf()
    }

    /// Execution algorithms by name.
    pub closed spec fn executions(&self) -> Map<Seq<char>, A> {
        self.execution_algorithms.map()
    }

    /// Routing algorithms by name.
    pub closed spec fn routings(&self) -> Map<Seq<char>, A> {
        self.routing_algorithms.map()
    }

    /// Risk algorithms by name.
    pub closed spec fn risks(&self) -> Map<Seq<char>, R> {
        self.risk_algorithms.map()
    }

    /// Optimizer algorithms by name.
    pub closed spec fn optimizers(&self) -> Map<Seq<char>, A> {
        self.optimizer_algorithms.map()
    }

    /// Metadata by name.
    pub closed spec fn metas(&self) -> Map<Seq<char>, AlgorithmMeta> {
        self.metadata.map()
    }

    /// An empty registry.
    pub fn new() -> (r: Self)
        ensures
            r.wf(),
            r.executions() == Map::<Seq<char>, A>::empty(),
            r.routings() == Map::<Seq<char>, A>::empty(),
            r.risks() == Map::<Seq<char>, R>::empty(),
            r.optimizers() == Map::<Seq<char>, A>::empty(),
            r.metas() == Map::<Seq<char>, AlgorithmMeta>::empty(),
    {
        AlgorithmRegistry {
            execution_algorithms: NamedTable::new(),
            routing_algorithms: NamedTable::new(),
            risk_algorithms: NamedTable::new(),
            optimizer_algorithms: NamedTable::new(),
            metadata: NamedTable::new(),
        }
    }

    /// Registers an execution algorithm and its metadata under `name`,
    /// replacing any earlier entry of that name, and gives the event that
    /// announces it: `Registered` with the name and the version.
    pub fn register_execution(&mut self, name: &str, algo: A, meta: AlgorithmMeta) -> (e: AlgorithmEvent)
        requires
            old(self).wf(),
        ensures
            announces_registration(e, name@, meta.version@),
            final(self).wf(),
            final(self).executions() == old(self).executions().insert(name@, algo),
            final(self).metas() == old(self).metas().insert(name@, meta),
            final(self).routings() == old(self).routings(),
            final(self).risks() == old(self).risks(),
            final(self).optimizers() == old(self).optimizers(),
    {
        let version = meta.version.clone();
        self.execution_algorithms.insert(name, algo);
        self.metadata.insert(name, meta);
        AlgorithmEvent::Registered { name: owned(name), version }
    }

    /// The execution algorithm registered under `name`.
    pub fn get_execution(&self, name: &str) -> (r: Option<&A>)
        requires
            self.wf(),
        ensures
            r == (if self.executions().dom().contains(name@) { Some(&self.executions()[name@]) } else { None }),
    {
        self.execution_algorithms.get(name)
    }

    /// A copy of the metadata registered under `name`.
    pub fn get_meta(&self, name: &str) -> (r: Option<AlgorithmMeta>)
        requires
            self.wf(),
        ensures
            r == (if self.metas().dom().contains(name@) { Some(self.metas()[name@]) } else { None }),
    {
        match self.metadata.get(name) {
            Some(m) => Some(m.duplicate()),
            None => None,
        }
    }

    /// Registers a risk algorithm under `name`.
    pub fn register_risk(&mut self, name: &str, algo: R)
        requires
            old(self).wf(),
        ensures
            final(self).wf(),
            final(self).risks() == old(self).risks().insert(name@, algo),
            final(self).executions() == old(self).executions(),
            final(self).routings() == old(self).routings(),
            final(self).optimizers() == old(self).optimizers(),
            final(self).metas() == old(self).metas(),
    {
        self.risk_algorithms.insert(name, algo);
    }

    /// The risk algorithm registered under `name`.
    pub fn get_risk(&self, name: &str) -> (r: Option<&R>)
        requires
            self.wf(),
        ensures
            r == (if self.risks().dom().contains(name@) { Some(&self.risks()[name@]) } else { None }),
    {
        self.risk_algorithms.get(name)
    }

    /// Registers a routing algorithm under `name`.
    pub fn register_routing(&mut self, name: &str, algo: A)
        requires
            old(self).wf(),
        ensures
            final(self).wf(),
            final(self).routings() == old(self).routings().insert(name@, algo),
            final(self).executions() == old(self).executions(),
            final(self).risks() == old(self).risks(),
            final(self).optimizers() == old(self).optimizers(),
            final(self).metas() == old(self).metas(),
    {
        self.routing_algorithms.insert(name, algo);
    }

    /// The routing algorithm registered under `name`.
    pub fn get_routing(&self, name: &str) -> (r: Option<&A>)
        requires
            self.wf(),
        ensures
            r == (if self.routings().dom().contains(name@) { Some(&self.routings()[name@]) } else { None }),
    {
        self.routing_algorithms.get(name)
    }

    /// Registers an optimizer algorithm under `name`.
    pub fn register_optimizer(&mut self, name: &str, algo: A)
        requires
            old(self).wf(),
        ensures
            final(self).wf(),
            final(self).optimizers() == old(self).optimizers().insert(name@, algo),
            final(self).executions() == old(self).executions(),
            final(self).routings() == old(self).routings(),
            final(self).risks() == old(self).risks(),
            final(self).metas() == old(self).metas(),
    {
        self.optimizer_algorithms.insert(name, algo);
    }

    /// The optimizer algorithm registered under `name`.
    pub fn get_optimizer(&self, name: &str) -> (r: Option<&A>)
        requires
            self.wf(),
        ensures
            r == (if self.optimizers().dom().contains(name@) { Some(&self.optimizers()[name@]) } else { None }),
    {
        self.optimizer_algorithms.get(name)
    }

    /// Removes the execution algorithm named `name` and its metadata, and
    /// gives the event that announces it: `Removed` with the name.
    pub fn remove_execution(&mut self, name: &str) -> (e: AlgorithmEvent)
        requires
            old(self).wf(),
        ensures
            announces_removal(e, name@),
            final(self).wf(),
            final(self).executions() == old(self).executions().remove(name@),
            final(self).metas() == old(self).metas().remove(name@),
            final(self).routings() == old(self).routings(),
            final(self).risks() == old(self).risks(),
            final(self).optimizers() == old(self).optimizers(),
    {
        self.execution_algorithms.remove(name);
        self.metadata.remove(name);
        AlgorithmEvent::Removed { name: owned(name) }
    }

    /// Removes the routing algorithm named `name`.
    pub fn remove_routing(&mut self, name: &str)
        requires
            old(self).wf(),
        ensures
            final(self).wf(),
            final(self).routings() == old(self).routings().remove(name@),
            final(self).executions() == old(self).executions(),
            final(self).risks() == old(self).risks(),
            final(self).optimizers() == old(self).optimizers(),
            final(self).metas() == old(self).metas(),
    {
        self.routing_algorithms.remove(name);
    }

    /// Removes the risk algorithm named `name`.
    pub fn remove_risk(&mut self, name: &str)
        requires
            old(self).wf(),
        ensures
            final(self).wf(),
            final(self).risks() == old(self).risks().remove(name@),
            final(self).executions() == old(self).executions(),
            final(self).routings() == old(self).routings(),
            final(self).optimizers() == old(self).optimizers(),
            final(self).metas() == old(self).metas(),
    {
        self.risk_algorithms.remove(name);
    }

    /// Removes the optimizer algorithm named `name`.
    pub fn remove_optimizer(&mut self, name: &str)
        requires
            old(self).wf(),
        ensures
            final(self).wf(),
            final(self).optimizers() == old(self).optimizers().remove(name@),
            final(self).executions() == old(self).executions(),
            final(self).routings() == old(self).routings(),
            final(self).risks() == old(self).risks(),
            final(self).metas() == old(self).metas(),
    {
        self.optimizer_algorithms.remove(name);
    }

    /// Names of all registered execution algorithms, each once.
    pub fn list_executions(&self) -> (r: Vec<String>)
        requires
            self.wf(),
        ensures
            crate::text::views_of(r@).no_duplicates(),
            crate::text::views_of(r@).to_set() == self.executions().dom(),
    {
        proof { self.execution_algorithms.lemma_entries(); }
        self.execution_algorithms.names()
    }

    /// Names of all registered routing algorithms, each once.
    pub fn list_routings(&self) -> (r: Vec<String>)
        requires
            self.wf(),
        ensures
            crate::text::views_of(r@).no_duplicates(),
            crate::text::views_of(r@).to_set() == self.routings().dom(),
    {
        proof { self.routing_algorithms.lemma_entries(); }
        self.routing_algorithms.names()
    }

    /// Names of all registered risk algorithms, each once.
    pub fn list_risks(&self) -> (r: Vec<String>)
        requires
            self.wf(),
        ensures
            crate::text::views_of(r@).no_duplicates(),
            crate::text::views_of(r@).to_set() == self.risks().dom(),
    {
        proof { self.risk_algorithms.lemma_entries(); }
        self.risk_algorithms.names()
    }

    /// Names of all registered optimizer algorithms, each once.
    pub fn list_optimizers(&self) -> (r: Vec<String>)
        requires
            self.wf(),
        ensures
            crate::text::views_of(r@).no_duplicates(),
            crate::text::views_of(r@).to_set() == self.optimizers().dom(),
    {
        proof { self.optimizer_algorithms.lemma_entries(); }
        self.optimizer_algorithms.names()
    }

    /// Sets the status of the algorithm named `name`, stamping it with `now`.
    /// Does nothing when no metadata is registered under that name.
    pub fn set_status(&mut self, name: &str, status: AlgorithmStatus, now: i64) -> (e: Option<AlgorithmEvent>)
        requires
            old(self).wf(),
        ensures
            !old(self).metas().dom().contains(name@) ==> e is None,
            old(self).metas().dom().contains(name@) ==> (e matches Some(
                AlgorithmEvent::StatusChanged { name: n, status: st },
            ) && n@ == name@ && st == status),
            final(self).wf(),
            final(self).metas() == (if old(self).metas().dom().contains(name@) {
                old(self).metas().insert(name@, AlgorithmMeta {
                    status: status,
                    last_updated: now,
                    ..old(self).metas()[name@]
                })
            } else {
                old(self).metas()
            }),
            final(self).executions() == old(self).executions(),
            final(self).routings() == old(self).routings(),
            final(self).risks() == old(self).risks(),
            final(self).optimizers() == old(self).optimizers(),
    {
        let found = match self.metadata.get(name) {
            Some(m) => Some(m.duplicate()),
            None => None,
        };
        if let Some(m) = found {
            let announced = status.duplicate();
            let updated = AlgorithmMeta {
                name: m.name,
                version: m.version,
                algo_type: m.algo_type,
                status: status,
                last_updated: now,
            };
            self.metadata.insert(name, updated);
            Some(AlgorithmEvent::StatusChanged { name: owned(name), status: announced })
        } else {
            None
        }
    }

    /// The metadata records in registration order.
    pub closed spec fn meta_entries(&self) -> Seq<AlgorithmMeta> {
        self.metadata.val_seq()
    }

    proof fn lemma_filtered_metas(&self, pred: spec_fn(AlgorithmMeta) -> bool)
        requires
            self.wf(),
        ensures
            forall|m: AlgorithmMeta| #[trigger] self.meta_entries().filter(pred).contains(m)
                ==> pred(m) && self.metas().values().contains(m),
            forall|k: Seq<char>| #![trigger self.metas()[k]]
                self.metas().dom().contains(k) && pred(self.metas()[k])
                ==> self.meta_entries().filter(pred).contains(self.metas()[k]),
            self.meta_entries().filter(pred).len() <= self.metas().dom().len(),
    {
        self.metadata.lemma_entries();
        self.metadata.key_seq().unique_seq_to_set();
        let vals = self.meta_entries();
        let keys = self.metadata.key_seq();
        assert forall|m: AlgorithmMeta| #[trigger] vals.filter(pred).contains(m)
            implies pred(m) && self.metas().values().contains(m) by {
            let i = choose|i: int| 0 <= i < vals.filter(pred).len() && vals.filter(pred)[i] == m;
            vals.lemma_filter_pred(pred, i);
            vals.lemma_filter_contains_rev(pred, m);
            let j = choose|j: int| 0 <= j < vals.len() && vals[j] == m;
            assert(self.metas()[keys[j]] == vals[j]);
            assert(self.metas().dom().contains(keys[j]));
        }
        assert forall|k: Seq<char>| #![trigger self.metas()[k]]
            self.metas().dom().contains(k) && pred(self.metas()[k])
            implies vals.filter(pred).contains(self.metas()[k]) by {
            let j = choose|j: int| 0 <= j < keys.len() && keys[j] == k;
            assert(self.metas()[keys[j]] == vals[j]);
            vals.lemma_filter_contains(pred, j);
        }
        vals.lemma_filter_len(pred);
    }

    /// Metadata of every algorithm whose status is `status`, in registration order.
    pub fn list_by_status(&self, status: AlgorithmStatus) -> (r: Vec<AlgorithmMeta>)
        requires
            self.wf(),
        ensures
            r@ == self.meta_entries().filter(has_status(status)),
            forall|m: AlgorithmMeta| r@.contains(m) ==> m.status.agrees(&status) && self.metas().values().contains(m),
            forall|k: Seq<char>| #![trigger self.metas()[k]]
                self.metas().dom().contains(k) && self.metas()[k].status.agrees(&status) ==> r@.contains(self.metas()[k]),
            r@.len() <= self.metas().dom().len(),
    {
        let ghost pred = has_status(status);
        let ghost vals = self.meta_entries();
        let n = self.metadata.len();
        proof { self.metadata.lemma_entries(); }
        let mut r: Vec<AlgorithmMeta> = Vec::new();
        let mut i: usize = 0;
        while i < n
            invariant
                self.wf(),
                vals == self.meta_entries(),
                pred == has_status(status),
                n == vals.len(),
                i <= n,
                r@ == vals.take(i as int).filter(pred),
            decreases n - i,
        {
            let m = self.metadata.value_at(i);
            proof {
                assert(vals.take(i + 1) =~= vals.take(i as int).push(vals[i as int]));
                vals.take(i as int).lemma_filter_push(vals[i as int], pred);
            }
            if m.status.same_as(&status) {
                r.push(m.duplicate());
            }
            i = i + 1;
        }
        proof {
            assert(vals.take(i as int) =~= vals);
            self.lemma_filtered_metas(pred);
        }
        r
    }

    /// Metadata of every algorithm whose type is `algo_type`, in registration order.
    pub fn list_by_type(&self, algo_type: &str) -> (r: Vec<AlgorithmMeta>)
        requires
            self.wf(),
        ensures
            r@ == self.meta_entries().filter(has_type(algo_type@)),
            forall|m: AlgorithmMeta| r@.contains(m) ==> m.algo_type@ == algo_type@ && self.metas().values().contains(m),
            forall|k: Seq<char>| #![trigger self.metas()[k]]
                self.metas().dom().contains(k) && self.metas()[k].algo_type@ == algo_type@ ==> r@.contains(self.metas()[k]),
            r@.len() <= self.metas().dom().len(),
    {
        let ghost pred = has_type(algo_type@);
        let ghost vals = self.meta_entries();
        let n = self.metadata.len();
        proof { self.metadata.lemma_entries(); }
        let mut r: Vec<AlgorithmMeta> = Vec::new();
        let mut i: usize = 0;
        while i < n
            invariant
                self.wf(),
                vals == self.meta_entries(),
                pred == has_type(algo_type@),
                n == vals.len(),
                i <= n,
                r@ == vals.take(i as int).filter(pred),
            decreases n - i,
        {
            let m = self.metadata.value_at(i);
            proof {
                assert(vals.take(i + 1) =~= vals.take(i as int).push(vals[i as int]));
                vals.take(i as int).lemma_filter_push(vals[i as int], pred);
            }
            if str_eq(m.algo_type.as_str(), algo_type) {
                r.push(m.duplicate());
            }
            i = i + 1;
        }
        proof {
            assert(vals.take(i as int) =~= vals);
            self.lemma_filtered_metas(pred);
        }
        r
    }

    /// Registers each `(name, algo, meta)` in turn, as `register_execution` does.
    pub fn batch_register(&mut self, algos: Vec<(String, A, AlgorithmMeta)>) -> (events: Vec<AlgorithmEvent>)
        requires
            old(self).wf(),
        ensures
            events@.len() == algos@.len(),
            forall|i: int| 0 <= i < algos@.len() ==> announces_registration(
                #[trigger] events@[i],
                algos@[i].0@,
                algos@[i].2.version@,
            ),
            final(self).wf(),
            final(self).executions() == insert_all(old(self).executions(),
                algos@.map_values(|e: (String, A, AlgorithmMeta)| (e.0@, e.1))),
            final(self).metas() == insert_all(old(self).metas(),
                algos@.map_values(|e: (String, A, AlgorithmMeta)| (e.0@, e.2))),
            final(self).routings() == old(self).routings(),
            final(self).risks() == old(self).risks(),
            final(self).optimizers() == old(self).optimizers(),
    {
        let ghost start = *self;
        let ghost all = algos@;
        let mut rest = algos;
        let ghost mut k: int = 0;
        let mut events: Vec<AlgorithmEvent> = Vec::new();
        while rest.len() > 0
            invariant
                self.wf(),
                0 <= k <= all.len(),
                events@.len() == k,
                forall|i: int| 0 <= i < k ==> announces_registration(
                    #[trigger] events@[i],
                    all[i].0@,
                    all[i].2.version@,
                ),
                rest@ == all.subrange(k, all.len() as int),
                self.executions() == insert_all(start.executions(),
                    all.subrange(0, k).map_values(|e: (String, A, AlgorithmMeta)| (e.0@, e.1))),
                self.metas() == insert_all(start.metas(),
                    all.subrange(0, k).map_values(|e: (String, A, AlgorithmMeta)| (e.0@, e.2))),
                self.routings() == start.routings(),
                self.risks() == start.risks(),
                self.optimizers() == start.optimizers(),
            decreases rest@.len(),
        {
            let e = rest.remove(0);
            proof {
                assert(e == all[k]);
                assert(rest@ =~= all.subrange(k + 1, all.len() as int));
                let p1 = all.subrange(0, k + 1).map_values(|e: (String, A, AlgorithmMeta)| (e.0@, e.1));
                assert(p1.drop_last() =~= all.subrange(0, k).map_values(|e: (String, A, AlgorithmMeta)| (e.0@, e.1)));
                let p2 = all.subrange(0, k + 1).map_values(|e: (String, A, AlgorithmMeta)| (e.0@, e.2));
                assert(p2.drop_last() =~= all.subrange(0, k).map_values(|e: (String, A, AlgorithmMeta)| (e.0@, e.2)));
            }
            let (name, algo, meta) = e;
            let event = self.register_execution(name.as_str(), algo, meta);
            events.push(event);
            proof {
                k = k + 1;
            }
        }
        proof {
            assert(all.subrange(0, k) =~= all);
        }
        events
    }

    /// Removes each named execution algorithm in turn, as `remove_execution` does.
    pub fn batch_remove(&mut self, names: Vec<String>) -> (events: Vec<AlgorithmEvent>)
        requires
            old(self).wf(),
        ensures
            events@.len() == names@.len(),
            forall|i: int| 0 <= i < names@.len() ==> announces_removal(#[trigger] events@[i], names@[i]@),
            final(self).wf(),
            final(self).executions() == remove_all(old(self).executions(), crate::text::views_of(names@)),
            final(self).metas() == remove_all(old(self).metas(), crate::text::views_of(names@)),
            final(self).routings() == old(self).routings(),
            final(self).risks() == old(self).risks(),
            final(self).optimizers() == old(self).optimizers(),
    {
        let ghost start = *self;
        let ghost all = crate::text::views_of(names@);
        let mut i: usize = 0;
        let mut events: Vec<AlgorithmEvent> = Vec::new();
        while i < names.len()
            invariant
                self.wf(),
                i <= names@.len(),
                events@.len() == i,
                forall|j: int| 0 <= j < i ==> announces_removal(#[trigger] events@[j], names@[j]@),
                all == crate::text::views_of(names@),
                self.executions() == remove_all(start.executions(), all.subrange(0, i as int)),
                self.metas() == remove_all(start.metas(), all.subrange(0, i as int)),
                self.routings() == start.routings(),
                self.risks() == start.risks(),
                self.optimizers() == start.optimizers(),
            decreases names@.len() - i,
        {
            let event = self.remove_execution(names[i].as_str());
            events.push(event);
            proof {
                assert(all.subrange(0, i + 1).drop_last() =~= all.subrange(0, i as int));
                assert(all.subrange(0, i + 1).last() == names@[i as int]@);
            }
            i = i + 1;
        }
        proof {
            assert(all.subrange(0, i as int) =~= all);
        }
        events
    }

    /// Replaces the execution algorithm and metadata registered under `name`.
    pub fn hot_swap(&mut self, name: &str, new_algo: A, new_meta: AlgorithmMeta) -> (e: AlgorithmEvent)
        requires
            old(self).wf(),
        ensures
            (e matches AlgorithmEvent::HotSwapped { name: n, version: v } && n@ == name@ && v@ == new_meta.version@),
            final(self).wf(),
            final(self).executions() == old(self).executions().insert(name@, new_algo),
            final(self).metas() == old(self).metas().insert(name@, new_meta),
            final(self).routings() == old(self).routings(),
            final(self).risks() == old(self).risks(),
            final(self).optimizers() == old(self).optimizers(),
    {
        let version = new_meta.version.clone();
        self.execution_algorithms.insert(name, new_algo);
        self.metadata.insert(name, new_meta);
        AlgorithmEvent::HotSwapped { name: owned(name), version }
    }
}

/// Events announced when the registry changes.
pub enum AlgorithmEvent {
    Registered { name: String, version: String },
    Removed { name: String },
    StatusChanged { name: String, status: AlgorithmStatus },
    HotSwapped { name: String, version: String },
}

/// Whether `e` announces the registration of `name` at `version`.
pub open spec fn announces_registration(e: AlgorithmEvent, name: Seq<char>, version: Seq<char>) -> bool {
    e matches AlgorithmEvent::Registered { name: n, version: v } && n@ == name && v@ == version
}

/// Whether `e` announces the removal of `name`.
pub open spec fn announces_removal(e: AlgorithmEvent, name: Seq<char>) -> bool {
    e matches AlgorithmEvent::Removed { name: n } && n@ == name
}

/// Registering an execution algorithm makes it, and its metadata, what its
/// name looks up, and leaves every other name as it was.
pub proof fn law_register_then_get<A, R>(
    before: AlgorithmRegistry<A, R>,
    after: AlgorithmRegistry<A, R>,
    name: Seq<char>,
    algo: A,
    meta: AlgorithmMeta,
)
    requires
        after.executions() == before.executions().insert(name, algo),
        after.metas() == before.metas().insert(name, meta),
    ensures
        after.executions().dom().contains(name),
        after.executions()[name] == algo,
        after.metas().dom().contains(name),
        after.metas()[name] == meta,
        forall|other: Seq<char>| other != name ==> (#[trigger] after.executions().dom().contains(other)
            <==> before.executions().dom().contains(other)),
        forall|other: Seq<char>| other != name && before.executions().dom().contains(other)
            ==> #[trigger] after.executions()[other] == before.executions()[other],
{
}

/// Removing an execution algorithm right after registering it under a name
/// leaves the registry as removing that name would have: the registration
/// leaves no trace.
pub proof fn law_register_then_remove<A, R>(
    before: AlgorithmRegistry<A, R>,
    name: Seq<char>,
    algo: A,
    meta: AlgorithmMeta,
)
    ensures
        before.executions().insert(name, algo).remove(name) == before.executions().remove(name),
        before.metas().insert(name, meta).remove(name) == before.metas().remove(name),
        !before.executions().insert(name, algo).remove(name).dom().contains(name),
{
    assert(before.executions().insert(name, algo).remove(name) =~= before.executions().remove(name));
    assert(before.metas().insert(name, meta).remove(name) =~= before.metas().remove(name));
}

/// A factory of execution algorithms by name, with an optional default.
pub struct AlgorithmFactory<A> {
    algorithms: NamedTable<A>,
    default: Option<String>,
}

impl<A> AlgorithmFactory<A> {
    pub closed spec fn wf(&self) -> bool {
        self.algorithms.wf()
    }

    /// Algorithms by name.
    pub closed spec fn algorithms(&self) -> Map<Seq<char>, A> {
        self.algorithms.map()
    }

    /// The name of the default algorithm, if one was set.
    pub closed spec fn default_name(&self) -> Option<Seq<char>> {
        match self.default {
            Some(n) => Some(n@),
            None => None,
        }
    }

    /// An empty factory with no default.
    pub fn new() -> (r: Self)
        ensures
            r.wf(),
            r.algorithms() == Map::<Seq<char>, A>::empty(),
            r.default_name() == None::<Seq<char>>,
    {
        AlgorithmFactory { algorithms: NamedTable::new(), default: None }
    }

    /// Registers `algo` under `name`, replacing any earlier algorithm of that name.
    pub fn register(&mut self, name: &str, algo: A)
        requires
            old(self).wf(),
        ensures
            final(self).wf(),
            final(self).algorithms() == old(self).algorithms().insert(name@, algo),
            final(self).default_name() == old(self).default_name(),
    {
        self.algorithms.insert(name, algo);
    }

    /// The algorithm registered under `name`.
    pub fn get(&self, name: &str) -> (r: Option<&A>)
        requires
            self.wf(),
        ensures
            r == (if self.algorithms().dom().contains(name@) { Some(&self.algorithms()[name@]) } else { None }),
    {
        self.algorithms.get(name)
    }

    /// Names of all registered algorithms, each once.
    pub fn list(&self) -> (r: Vec<String>)
        requires
            self.wf(),
        ensures
            crate::text::views_of(r@).no_duplicates(),
            crate::text::views_of(r@).to_set() == self.algorithms().dom(),
    {
        proof { self.algorithms.lemma_entries(); }
        self.algorithms.names()
    }

    /// Makes `name` the default algorithm (whether or not it is registered yet).
    pub fn set_default(&mut self, name: &str)
        requires
            old(self).wf(),
        ensures
            final(self).wf(),
            final(self).algorithms() == old(self).algorithms(),
            final(self).default_name() == Some(name@),
    {
        self.default = Some(owned(name));
    }

    /// The default algorithm: the one registered under the default name, if
    /// a default was set and an algorithm has that name.
    pub fn get_default(&self) -> (r: Option<&A>)
        requires
            self.wf(),
        ensures
            r == (match self.default_name() {
                Some(n) => if self.algorithms().dom().contains(n) { Some(&self.algorithms()[n]) } else { None },
                None => None,
            }),
    {
        match &self.default {
            Some(n) => self.algorithms.get(n.as_str()),
            None => None,
        }
    }
}

} // verus!
