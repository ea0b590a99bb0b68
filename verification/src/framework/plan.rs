//! Dependency-plan execution: the steps of a compiled plan, the key each
//! one resolves, and the map of resolved values the handler's keyword
//! arguments are taken from.
use vstd::prelude::*;
use crate::framework::error::AppError;
use crate::text::{concat3, str_eq};
use std::sync::Arc;

verus! {

/// The first value stored under `k`.
pub open spec fn lookup<V>(entries: Seq<(Seq<char>, V)>, k: Seq<char>) -> Option<V>
    decreases entries.len(),
{
    if entries.len() == 0 {
        None
    } else if entries[0].0 == k {
        Some(entries[0].1)
    } else {
        lookup(entries.subrange(1, entries.len() as int), k)
    }
}

/// Whether some entry is stored under `k`.
pub open spec fn has_key<V>(entries: Seq<(Seq<char>, V)>, k: Seq<char>) -> bool {
    exists|i: int| 0 <= i < entries.len() && #[trigger] entries[i].0 == k
}

/// No key is stored twice.
pub open spec fn distinct_keys<V>(entries: Seq<(Seq<char>, V)>) -> bool {
    forall|i: int, j: int|
        0 <= i < j < entries.len() ==> #[trigger] entries[i].0 != #[trigger] entries[j].0
}

/// Resolved dependency values, keyed by the keyword argument they fill.
/// Every key is stored once (plan steps come in dependency order; a second
/// write would be a plan compilation bug).
#[derive(Debug)]
pub struct ResolvedKwargs<V> {
    entries: Vec<(String, V)>,
}

impl<V> View for ResolvedKwargs<V> {
    type V = Seq<(Seq<char>, V)>;

    closed spec fn view(&self) -> Seq<(Seq<char>, V)> {
        self.entries@.map_values(|e: (String, V)| (e.0@, e.1))
    }
}

impl<V> ResolvedKwargs<V> {
    #[verifier::type_invariant]
    spec fn well_formed(self) -> bool {
        distinct_keys(self@)
    }

    /// An empty map.
    pub fn with_capacity(n: usize) -> (r: Self)
        ensures
            r@ == Seq::<(Seq<char>, V)>::empty(),
    {
        let r = ResolvedKwargs { entries: Vec::new() };
        assert(r@ =~= Seq::<(Seq<char>, V)>::empty());
        r
    }

    /// Whether a value is stored under `key`.
    pub fn contains_key(&self, key: &str) -> (r: bool)
        ensures
            r == has_key(self@, key@),
    {
        let ghost es = self@;
        let mut i: usize = 0;
        while i < self.entries.len()
            invariant
                i <= self.entries.len(),
                es == self@,
                es.len() == self.entries.len(),
                forall|j: int| 0 <= j < i ==> es[j].0 != key@,
            decreases self.entries.len() - i,
        {
            assert(es[i as int].0 == self.entries@[i as int].0@);
            if str_eq(self.entries[i].0.as_str(), key) {
                return true;
            }
            i = i + 1;
        }
        false
    }

    /// Store a resolved value under a key not stored before.
    pub fn insert(&mut self, key: String, value: V)
        requires
            !has_key(old(self)@, key@),
        ensures
            final(self)@ == old(self)@.push((key@, value)),
    {
        proof {
            use_type_invariant(&*self);
        }
        let ghost before = self@;
        let ghost k = key@;
        let mut entries = Vec::new();
        std::mem::swap(&mut entries, &mut self.entries);
        entries.push((key, value));
        assert(entries@.map_values(|e: (String, V)| (e.0@, e.1)) =~= before.push((k, value)));
        assert(distinct_keys(before.push((k, value)))) by {
            assert forall|i: int, j: int|
                0 <= i < j < before.len() + 1 implies #[trigger] before.push((k, value))[i].0
                != #[trigger] before.push((k, value))[j].0 by {
                if j == before.len() {
                    assert(before[i].0 != k);
                }
            }
        }
        self.entries = entries;
    }

    /// The value stored under `key`.
    pub fn get(&self, key: &str) -> (r: Option<&V>)
        ensures
            match lookup(self@, key@) {
                Some(v) => r matches Some(x) && *x == v,
                None => r is None,
            },
    {
        let ghost es = self@;
        let mut i: usize = 0;
        assert(es.subrange(0, es.len() as int) =~= es);
        while i < self.entries.len()
            invariant
                i <= self.entries.len(),
                es == self@,
                es.len() == self.entries.len(),
                lookup(es, key@) == lookup(es.subrange(i as int, es.len() as int), key@),
            decreases self.entries.len() - i,
        {
            let ghost rest = es.subrange(i as int, es.len() as int);
            assert(rest[0] == es[i as int]);
            assert(es[i as int].0 == self.entries@[i as int].0@);
            assert(es[i as int].1 == self.entries@[i as int].1);
            if str_eq(self.entries[i].0.as_str(), key) {
                return Some(&self.entries[i].1);
            }
            assert(rest.subrange(1, rest.len() as int) =~= es.subrange(i + 1, es.len() as int));
            i = i + 1;
        }
        None
    }

    /// The values of the named keyword arguments, in order, or the error
    /// for the first name the plan did not resolve.
    pub fn values_for<'a>(&'a self, names: &[String]) -> (r: Result<Vec<&'a V>, AppError>)
        ensures
            match r {
                Ok(vs) => vs@.len() == names@.len() && forall|i: int|
                    0 <= i < names@.len() ==> lookup(self@, #[trigger] names@[i]@) == Some(*vs@[i]),
                Err(e) => exists|i: int|
                    0 <= i < names@.len() && lookup(self@, #[trigger] names@[i]@) is None && (forall|j: int|
                        0 <= j < i ==> lookup(self@, #[trigger] names@[j]@) is Some) && (e
                        matches AppError::Internal(m) && m@ == "kwarg '"@ + names@[i]@
                        + "' not resolved by plan"@),
            },
    {
        let mut out: Vec<&'a V> = Vec::new();
        let mut i: usize = 0;
        while i < names.len()
            invariant
                i <= names.len(),
                out@.len() == i,
                forall|j: int| 0 <= j < i ==> lookup(self@, #[trigger] names@[j]@) == Some(*out@[j]),
            decreases names.len() - i,
        {
            match self.get(names[i].as_str()) {
                Some(v) => {
                    out.push(v);
                },
                None => {
                    let e = AppError::Internal(concat3("kwarg '", names[i].as_str(), "' not resolved by plan"));
                    assert(lookup(self@, names@[i as int]@) is None);
                    return Err(e);
                },
            }
            i = i + 1;
        }
        Ok(out)
    }
}

/// Once stored, a value is what a lookup of its key gives; the other keys
/// keep their values.
pub proof fn law_insert_then_lookup<V>(entries: Seq<(Seq<char>, V)>, k: Seq<char>, v: V, other: Seq<char>)
    requires
        !has_key(entries, k),
    ensures
        lookup(entries.push((k, v)), k) == Some(v),
        other != k ==> lookup(entries.push((k, v)), other) == lookup(entries, other),
    decreases entries.len(),
{
    if entries.len() > 0 {
        let rest = entries.subrange(1, entries.len() as int);
        assert(entries.push((k, v)).subrange(1, entries.len() + 1 as int) =~= rest.push((k, v)));
        assert(!has_key(rest, k)) by {
            if has_key(rest, k) {
                let i = choose|i: int| 0 <= i < rest.len() && #[trigger] rest[i].0 == k;
                assert(rest[i] == entries[i + 1]);
                assert(entries[i + 1].0 == k);
            }
        }
        assert(entries[0].0 != k);
        assert(entries.push((k, v))[0] == entries[0]);
        law_insert_then_lookup(rest, k, v, other);
    } else {
        assert(entries.push((k, v)).subrange(1, 1) =~= Seq::<(Seq<char>, V)>::empty());
        assert(entries.push((k, v))[0] == (k, v));
        assert(lookup(Seq::<(Seq<char>, V)>::empty(), other) is None);
    }
}

/// Lifecycle-scoped dependency values, created once at startup and keyed by
/// the qualified name of the dependency.
#[derive(Debug)]
pub struct LifecycleCache<V> {
    entries: Vec<(String, V)>,
}

impl<V> View for LifecycleCache<V> {
    type V = Seq<(Seq<char>, V)>;

    closed spec fn view(&self) -> Seq<(Seq<char>, V)> {
        self.entries@.map_values(|e: (String, V)| (e.0@, e.1))
    }
}

impl<V> LifecycleCache<V> {
    /// A cache with no value.
    pub fn empty() -> (r: Self)
        ensures
            r@ == Seq::<(Seq<char>, V)>::empty(),
    {
        let r = LifecycleCache { entries: Vec::new() };
        assert(r@ =~= Seq::<(Seq<char>, V)>::empty());
        r
    }

    /// A cache holding `entries`; a lookup finds the first entry of a name.
    pub fn from_entries(entries: Vec<(String, V)>) -> (r: Self)
        ensures
            r@ == entries@.map_values(|e: (String, V)| (e.0@, e.1)),
    {
        LifecycleCache { entries }
    }

    /// The value cached for a dependency.
    pub fn get(&self, qualname: &str) -> (r: Option<&V>)
        ensures
            match lookup(self@, qualname@) {
                Some(v) => r matches Some(x) && *x == v,
                None => r is None,
            },
    {
        let ghost es = self@;
        let mut i: usize = 0;
        assert(es.subrange(0, es.len() as int) =~= es);
        while i < self.entries.len()
            invariant
                i <= self.entries.len(),
                es == self@,
                es.len() == self.entries.len(),
                lookup(es, qualname@) == lookup(es.subrange(i as int, es.len() as int), qualname@),
            decreases self.entries.len() - i,
        {
            let ghost rest = es.subrange(i as int, es.len() as int);
            assert(rest[0] == es[i as int]);
            assert(es[i as int].0 == self.entries@[i as int].0@);
            assert(es[i as int].1 == self.entries@[i as int].1);
            if str_eq(self.entries[i].0.as_str(), qualname) {
                return Some(&self.entries[i].1);
            }
            assert(rest.subrange(1, rest.len() as int) =~= es.subrange(i + 1, es.len() as int));
            i = i + 1;
        }
        None
    }
}

/// The lifecycle step: the cached value of a dependency, or an internal
/// error naming the dependency the cache does not hold.
pub fn resolve_lifecycle<'a, V>(cache: &'a LifecycleCache<V>, qualname: &str) -> (r: Result<&'a V, AppError>)
    ensures
        match lookup(cache@, qualname@) {
            Some(v) => r matches Ok(x) && *x == v,
            None => r matches Err(AppError::Internal(m)) && m@ == "lifecycle dependency '"@
                + qualname@ + "' not found in cache"@,
        },
{
    match cache.get(qualname) {
        Some(v) => Ok(v),
        None => Err(AppError::Internal(concat3("lifecycle dependency '", qualname, "' not found in cache"))),
    }
}

/// Dispatch through compiled dependency plans, sharing one lifecycle cache.
#[derive(Debug)]
pub struct PlanExecutorDispatch<V> {
    pub lifecycle_cache: Arc<LifecycleCache<V>>,
}

impl<V> PlanExecutorDispatch<V> {
    /// A plan executor over a shared lifecycle cache.
    pub fn new(lifecycle_cache: Arc<LifecycleCache<V>>) -> (r: Self)
        ensures
            r.lifecycle_cache == lifecycle_cache,
    {
        PlanExecutorDispatch { lifecycle_cache }
    }
}

/// One step of a compiled dependency plan.
#[derive(Debug)]
pub enum DependencyStep {
    /// Read a path parameter.
    ExtractPath { name: String, type_qualname: String },
    /// Read a query parameter.
    ExtractQuery { name: String, type_qualname: String, required: bool, default_json: Option<String> },
    /// Read a header by its alias.
    ExtractHeader { name: String, alias: String, type_qualname: String, required: bool },
    /// Read a cookie.
    ExtractCookie { name: String, type_qualname: String, required: bool },
    /// Validate the request body against a model.
    ValidateBody { name: String, model_qualname: String },
    /// Take a lifecycle-scoped dependency from the cache.
    ResolveLifecycle { dep_qualname: String, target_kwarg: String },
    /// Call a Python dependency with resolved inputs.
    CallPython { target_kwarg: String, inputs: Vec<String>, is_async: bool },
    /// A dependency resolved natively (not supported yet).
    ResolveNative,
}

/// The keyword argument a step fills.
pub open spec fn step_target(step: DependencyStep) -> Option<Seq<char>> {
    match step {
        DependencyStep::ExtractPath { name, .. } => Some(name@),
        DependencyStep::ExtractQuery { name, .. } => Some(name@),
        DependencyStep::ExtractHeader { name, .. } => Some(name@),
        DependencyStep::ExtractCookie { name, .. } => Some(name@),
        DependencyStep::ValidateBody { name, .. } => Some(name@),
        DependencyStep::ResolveLifecycle { target_kwarg, .. } => Some(target_kwarg@),
        DependencyStep::CallPython { target_kwarg, .. } => Some(target_kwarg@),
        DependencyStep::ResolveNative => None,
    }
}

/// The key a step resolves, or the error that stops the plan before the
/// step runs: native resolution is not supported, and a Python call needs
/// its pre-resolved callable.
pub fn step_key(step: &DependencyStep, has_callable: bool) -> (r: Result<&str, AppError>)
    ensures
        match *step {
            DependencyStep::ResolveNative => r matches Err(AppError::Internal(m)) && m@
                == "native dependency resolution not yet supported"@,
            DependencyStep::CallPython { .. } => if has_callable {
                r matches Ok(k) && Some(k@) == step_target(*step)
            } else {
                r matches Err(AppError::Internal(m)) && m@
                    == "missing pre-resolved callable for CallPython step"@
            },
            _ => r matches Ok(k) && Some(k@) == step_target(*step),
        },
{
    match step {
        DependencyStep::ExtractPath { name, .. } => Ok(name.as_str()),
        DependencyStep::ExtractQuery { name, .. } => Ok(name.as_str()),
        DependencyStep::ExtractHeader { name, .. } => Ok(name.as_str()),
        DependencyStep::ExtractCookie { name, .. } => Ok(name.as_str()),
        DependencyStep::ValidateBody { name, .. } => Ok(name.as_str()),
        DependencyStep::ResolveLifecycle { target_kwarg, .. } => Ok(target_kwarg.as_str()),
        DependencyStep::CallPython { target_kwarg, .. } => if has_callable {
            Ok(target_kwarg.as_str())
        } else {
            Err(AppError::Internal(String::from_str("missing pre-resolved callable for CallPython step")))
        },
        DependencyStep::ResolveNative => Err(AppError::Internal(String::from_str("native dependency resolution not yet supported"))),
    }
}

} // verus!
