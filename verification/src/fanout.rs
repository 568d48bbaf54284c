//! Spreading subagents over a pool of providers of the same model.

use vstd::prelude::*;
use crate::auth::model;
use crate::auth::pkce_loopback;
use crate::failover::AuthScheme;
use crate::failover::FailoverEndpoint;
use crate::failover::FailoverPool;
use crate::text;

verus! {

/// The `[subagent_fanout]` section of the configuration.
#[derive(Debug, Clone, PartialEq, Eq)]
pub struct SubagentFanoutConfig {
    pub enabled: bool,
    pub default_model: Option<String>,
    pub pool: Vec<String>,
}

impl Default for SubagentFanoutConfig {
    fn default() -> (r: Self)
        ensures
            !r.enabled,
            r.default_model is None,
            r.pool@.len() == 0,
    {
        SubagentFanoutConfig { enabled: false, default_model: None, pool: Vec::new() }
    }
}

/// The characters of each text.
pub open spec fn ids_view(ids: Seq<String>) -> Seq<Seq<char>> {
    ids.map_values(|id: String| id@)
}

fn copy_ids(ids: &Vec<String>) -> (r: Vec<String>)
    ensures
        ids_view(r@) == ids_view(ids@),
{
    let mut r: Vec<String> = Vec::new();
    let mut i: usize = 0;
    while i < ids.len()
        invariant
            i <= ids@.len(),
            ids_view(r@) == ids_view(ids@).take(i as int),
        decreases ids@.len() - i,
    {
        let ghost before = ids_view(r@);
        r.push(ids[i].clone());
        proof {
            assert(ids_view(r@) =~= before.push(ids@[i as int]@));
            assert(before.push(ids@[i as int]@) =~= ids_view(ids@).take(i + 1));
        }
        i = i + 1;
    }
    proof {
        assert(ids_view(ids@).take(i as int) =~= ids_view(ids@));
    }
    r
}

/// Whether one of the ids is `id`.
fn holds_id(ids: &Vec<String>, id: &str) -> (r: bool)
    ensures
        r == ids_view(ids@).contains(id@),
{
    let mut i: usize = 0;
    while i < ids.len()
        invariant
            i <= ids@.len(),
            forall|j: int| 0 <= j < i ==> ids_view(ids@)[j] != id@,
        decreases ids@.len() - i,
    {
        if text::same_text(ids[i].as_str(), id) {
            proof {
                assert(ids_view(ids@)[i as int] == id@);
            }
            return true;
        }
        i = i + 1;
    }
    false
}

/// The ids without repetitions, in the order in which each first comes.
pub open spec fn distinct(ids: Seq<Seq<char>>) -> Seq<Seq<char>>
    decreases ids.len(),
{
    if ids.len() == 0 {
        ids
    } else {
        let kept = distinct(ids.drop_last());
        if kept.contains(ids.last()) {
            kept
        } else {
            kept.push(ids.last())
        }
    }
}

/// The ids that have come before, one for each time.
pub open spec fn repeated(ids: Seq<Seq<char>>) -> Seq<Seq<char>>
    decreases ids.len(),
{
    if ids.len() == 0 {
        ids
    } else if distinct(ids.drop_last()).contains(ids.last()) {
        repeated(ids.drop_last()).push(ids.last())
    } else {
        repeated(ids.drop_last())
    }
}

/// Takes the repetitions out of a configured pool: the ids to keep, and each
/// repetition, to be warned of.
pub fn dedup_pool(pool: &Vec<String>) -> (r: (Vec<String>, Vec<String>))
    ensures
        ids_view(r.0@) == distinct(ids_view(pool@)),
        ids_view(r.1@) == repeated(ids_view(pool@)),
{
    let mut kept: Vec<String> = Vec::new();
    let mut again: Vec<String> = Vec::new();
    let mut i: usize = 0;
    let ghost all = ids_view(pool@);
    proof {
        assert(ids_view(kept@) =~= distinct(all.take(0)));
        assert(ids_view(again@) =~= repeated(all.take(0)));
    }
    while i < pool.len()
        invariant
            i <= pool@.len(),
            all == ids_view(pool@),
            ids_view(kept@) == distinct(all.take(i as int)),
            ids_view(again@) == repeated(all.take(i as int)),
        decreases pool@.len() - i,
    {
        let ghost kept_before = ids_view(kept@);
        let ghost again_before = ids_view(again@);
        proof {
            assert(all.take(i + 1).drop_last() =~= all.take(i as int));
            assert(all.take(i + 1).last() == pool@[i as int]@);
        }
        if holds_id(&kept, pool[i].as_str()) {
            again.push(pool[i].clone());
            proof {
                assert(ids_view(again@) =~= again_before.push(pool@[i as int]@));
            }
        } else {
            kept.push(pool[i].clone());
            proof {
                assert(ids_view(kept@) =~= kept_before.push(pool@[i as int]@));
            }
        }
        i = i + 1;
    }
    proof {
        assert(all.take(i as int) =~= all);
    }
    (kept, again)
}

/// A pool is used where fan-out is on, has a default model to match against,
/// and has something to rotate over.
pub open spec fn usable(config: SubagentFanoutConfig) -> bool {
    config.enabled && config.default_model is Some && config.pool@.len() > 0
}

/// Fan-out as it runs: the model it stands in for, and the pool.
#[derive(Debug, Clone, PartialEq, Eq)]
pub struct SubagentFanoutRuntime {
    pub default_model: String,
    pub pool: Vec<String>,
}

impl SubagentFanoutRuntime {
    /// Fan-out as configured, where it can be used.
    pub fn from_config(config: Option<&SubagentFanoutConfig>) -> (r: Option<Self>)
        ensures
            match r {
                Some(runtime) => {
                    &&& config is Some && usable(*config->0)
                    &&& runtime.default_model@ == config->0.default_model->0@
                    &&& ids_view(runtime.pool@) == ids_view(config->0.pool@)
                },
                None => config is None || !usable(*config->0),
            },
            r is Some <==> {
                &&& config is Some
                &&& config->0.enabled
                &&& config->0.default_model is Some
                &&& config->0.pool@.len() > 0
            },
    {
        match config {
            None => None,
            Some(config) => {
                if !config.enabled || config.pool.len() == 0 {
                    return None;
                }
                match &config.default_model {
                    None => None,
                    Some(default_model) => Some(
                        SubagentFanoutRuntime {
                            default_model: default_model.clone(),
                            pool: copy_ids(&config.pool),
                        },
                    ),
                }
            },
        }
    }
}

/// What a [`FailoverEndpoint`] stands for.
#[verifier::ext_equal]
pub struct EndpointView {
    pub base_url: Seq<char>,
    pub model: Seq<char>,
    pub api_key: Option<Seq<char>>,
    pub auth_scheme: AuthScheme,
    pub api_backend: Seq<char>,
    pub extra_headers: Seq<(Seq<char>, Seq<char>)>,
    pub query_params: Seq<(Seq<char>, Seq<char>)>,
}

impl View for FailoverEndpoint {
    type V = EndpointView;

    open spec fn view(&self) -> EndpointView {
        EndpointView {
            base_url: self.base_url@,
            model: self.model@,
            api_key: model::text_view(self.api_key),
            auth_scheme: self.auth_scheme,
            api_backend: self.api_backend@,
            extra_headers: pkce_loopback::params_view(self.extra_headers@),
            query_params: pkce_loopback::params_view(self.query_params@),
        }
    }
}

fn copy_pairs(pairs: &Vec<(String, String)>) -> (r: Vec<(String, String)>)
    ensures
        pkce_loopback::params_view(r@) == pkce_loopback::params_view(pairs@),
{
    let mut r: Vec<(String, String)> = Vec::new();
    let ghost all = pkce_loopback::params_view(pairs@);
    let mut i: usize = 0;
    while i < pairs.len()
        invariant
            i <= pairs@.len(),
            all == pkce_loopback::params_view(pairs@),
            pkce_loopback::params_view(r@) == all.take(i as int),
        decreases pairs@.len() - i,
    {
        let ghost before = pkce_loopback::params_view(r@);
        r.push((pairs[i].0.clone(), pairs[i].1.clone()));
        proof {
            assert(pkce_loopback::params_view(r@) =~= before.push(all[i as int]));
            assert(before.push(all[i as int]) =~= all.take(i + 1));
        }
        i = i + 1;
    }
    proof {
        assert(all.take(i as int) =~= all);
    }
    r
}

fn copy_endpoint(endpoint: &FailoverEndpoint) -> (r: FailoverEndpoint)
    ensures
        r@ == endpoint@,
{
    let api_key: Option<String> = match &endpoint.api_key {
        Some(key) => Some(key.clone()),
        None => None,
    };
    FailoverEndpoint {
        base_url: endpoint.base_url.clone(),
        model: endpoint.model.clone(),
        api_key,
        auth_scheme: endpoint.auth_scheme,
        api_backend: endpoint.api_backend.clone(),
        extra_headers: copy_pairs(&endpoint.extra_headers),
        query_params: copy_pairs(&endpoint.query_params),
    }
}

/// The endpoints, in order.
pub open spec fn endpoints_view(endpoints: Seq<FailoverEndpoint>) -> Seq<EndpointView> {
    endpoints.map_values(|endpoint: FailoverEndpoint| endpoint@)
}

/// A model of the catalog. The endpoint's key is the entry's own credential.
#[derive(Debug, Clone, PartialEq, Eq)]
pub struct CatalogEntry {
    pub id: String,
    pub endpoint: FailoverEndpoint,
}

/// The catalog's ids and endpoints, in order.
pub open spec fn catalog_view(catalog: Seq<CatalogEntry>) -> Seq<(Seq<char>, EndpointView)> {
    catalog.map_values(|entry: CatalogEntry| (entry.id@, entry.endpoint@))
}

/// The endpoint that the catalog has under `id`.
pub open spec fn lookup(catalog: Seq<(Seq<char>, EndpointView)>, id: Seq<char>) -> Option<
    EndpointView,
>
    decreases catalog.len(),
{
    if catalog.len() == 0 {
        None
    } else if catalog[0].0 == id {
        Some(catalog[0].1)
    } else {
        lookup(catalog.skip(1), id)
    }
}

fn find_entry(catalog: &Vec<CatalogEntry>, id: &str) -> (r: Option<FailoverEndpoint>)
    ensures
        match r {
            Some(endpoint) => lookup(catalog_view(catalog@), id@) == Some(endpoint@),
            None => lookup(catalog_view(catalog@), id@) is None,
        },
{
    let mut i: usize = 0;
    let ghost all = catalog_view(catalog@);
    proof {
        assert(all.skip(0) =~= all);
    }
    while i < catalog.len()
        invariant
            i <= catalog@.len(),
            all == catalog_view(catalog@),
            lookup(all, id@) == lookup(all.skip(i as int), id@),
        decreases catalog@.len() - i,
    {
        proof {
            assert(all.skip(i as int)[0] == (catalog@[i as int].id@, catalog@[i as int].endpoint@));
            assert(all.skip(i as int).skip(1) =~= all.skip(i + 1));
        }
        if text::same_text(catalog[i].id.as_str(), id) {
            return Some(copy_endpoint(&catalog[i].endpoint));
        }
        i = i + 1;
    }
    None
}

/// The ids that the catalog lacks, in order.
pub open spec fn unknown(
    ids: Seq<Seq<char>>,
    catalog: Seq<(Seq<char>, EndpointView)>,
) -> Seq<Seq<char>>
    decreases ids.len(),
{
    if ids.len() == 0 {
        ids
    } else if lookup(catalog, ids.last()) is None {
        unknown(ids.drop_last(), catalog).push(ids.last())
    } else {
        unknown(ids.drop_last(), catalog)
    }
}

/// The pool ids that the catalog lacks, each to be warned of by name.
pub fn unknown_pool_ids(pool: &Vec<String>, catalog: &Vec<CatalogEntry>) -> (r: Vec<String>)
    ensures
        ids_view(r@) == unknown(ids_view(pool@), catalog_view(catalog@)),
{
    let mut missing: Vec<String> = Vec::new();
    let mut i: usize = 0;
    let ghost all = ids_view(pool@);
    let ghost entries = catalog_view(catalog@);
    proof {
        assert(ids_view(missing@) =~= unknown(all.take(0), entries));
    }
    while i < pool.len()
        invariant
            i <= pool@.len(),
            all == ids_view(pool@),
            entries == catalog_view(catalog@),
            ids_view(missing@) == unknown(all.take(i as int), entries),
        decreases pool@.len() - i,
    {
        let ghost before = ids_view(missing@);
        proof {
            assert(all.take(i + 1).drop_last() =~= all.take(i as int));
            assert(all.take(i + 1).last() == pool@[i as int]@);
        }
        if find_entry(catalog, pool[i].as_str()).is_none() {
            missing.push(pool[i].clone());
            proof {
                assert(ids_view(missing@) =~= before.push(pool@[i as int]@));
            }
        }
        i = i + 1;
    }
    proof {
        assert(all.take(i as int) =~= all);
    }
    missing
}

/// The pool's endpoints that the catalog has and that hold a credential of
/// their own, in order.
pub open spec fn provable(
    ids: Seq<Seq<char>>,
    catalog: Seq<(Seq<char>, EndpointView)>,
) -> Seq<EndpointView>
    decreases ids.len(),
{
    if ids.len() == 0 {
        Seq::empty()
    } else {
        let rest = provable(ids.drop_last(), catalog);
        match lookup(catalog, ids.last()) {
            Some(endpoint) => if endpoint.api_key is Some {
                rest.push(endpoint)
            } else {
                rest
            },
            None => rest,
        }
    }
}

fn provable_endpoints(ids: &Vec<String>, catalog: &Vec<CatalogEntry>) -> (r: Vec<FailoverEndpoint>)
    ensures
        endpoints_view(r@) == provable(ids_view(ids@), catalog_view(catalog@)),
{
    let mut r: Vec<FailoverEndpoint> = Vec::new();
    let mut i: usize = 0;
    let ghost all = ids_view(ids@);
    let ghost entries = catalog_view(catalog@);
    proof {
        assert(endpoints_view(r@) =~= provable(all.take(0), entries));
    }
    while i < ids.len()
        invariant
            i <= ids@.len(),
            all == ids_view(ids@),
            entries == catalog_view(catalog@),
            endpoints_view(r@) == provable(all.take(i as int), entries),
        decreases ids@.len() - i,
    {
        let ghost before = endpoints_view(r@);
        proof {
            assert(all.take(i + 1).drop_last() =~= all.take(i as int));
            assert(all.take(i + 1).last() == ids@[i as int]@);
        }
        if let Some(endpoint) = find_entry(catalog, ids[i].as_str()) {
            if endpoint.api_key.is_some() {
                let ghost added = endpoint@;
                r.push(endpoint);
                proof {
                    assert(endpoints_view(r@) =~= before.push(added));
                }
            }
        }
        i = i + 1;
    }
    proof {
        assert(all.take(i as int) =~= all);
    }
    r
}

/// `s` turned so that the element at `k` comes first.
pub open spec fn turned<T>(s: Seq<T>, k: int) -> Seq<T> {
    s.skip(k) + s.take(k)
}

/// Where the rotation starts on this tick.
pub open spec fn start_of(tick: u64, len: nat) -> int {
    tick as int % len as int
}

fn turned_endpoints(endpoints: &Vec<FailoverEndpoint>, k: usize) -> (r: Vec<FailoverEndpoint>)
    requires
        k <= endpoints@.len(),
    ensures
        endpoints_view(r@) == turned(endpoints_view(endpoints@), k as int),
{
    let n: usize = endpoints.len();
    let mut r: Vec<FailoverEndpoint> = Vec::new();
    let ghost all = endpoints_view(endpoints@);
    let mut i: usize = k;
    while i < n
        invariant
            k <= i <= n,
            n == endpoints@.len(),
            all == endpoints_view(endpoints@),
            endpoints_view(r@) == all.subrange(k as int, i as int),
        decreases n - i,
    {
        let ghost before = endpoints_view(r@);
        r.push(copy_endpoint(&endpoints[i]));
        proof {
            assert(endpoints_view(r@) =~= before.push(all[i as int]));
            assert(before.push(all[i as int]) =~= all.subrange(k as int, i + 1));
        }
        i = i + 1;
    }
    let mut j: usize = 0;
    proof {
        assert(endpoints_view(r@) =~= all.skip(k as int) + all.take(0));
    }
    while j < k
        invariant
            j <= k <= n,
            n == endpoints@.len(),
            all == endpoints_view(endpoints@),
            endpoints_view(r@) == all.skip(k as int) + all.take(j as int),
        decreases k - j,
    {
        let ghost before = endpoints_view(r@);
        r.push(copy_endpoint(&endpoints[j]));
        proof {
            assert(endpoints_view(r@) =~= before.push(all[j as int]));
            assert(before.push(all[j as int]) =~= all.skip(k as int) + all.take(j + 1));
        }
        j = j + 1;
    }
    r
}

/// Where a subagent's model came from.
#[derive(Debug, Clone, Copy, PartialEq, Eq, Structural)]
pub enum FanoutProvenance {
    /// An explicit override.
    Explicit,
    /// The parent's model.
    InheritedParent,
}

/// How a subagent reaches its model.
#[derive(Debug, Clone, PartialEq, Eq)]
pub struct SamplingTarget {
    pub endpoint: FailoverEndpoint,
    pub failover_pool: Option<FailoverPool>,
}

/// The endpoint in use and the pool to fail over in.
pub open spec fn target_view(target: SamplingTarget) -> (EndpointView, Option<Seq<EndpointView>>) {
    (
        target.endpoint@,
        match target.failover_pool {
            Some(pool) => Some(endpoints_view(pool.endpoints@)),
            None => None,
        },
    )
}

/// Whether fan-out stands in for this model: an override counts by its own id,
/// an inherited model by the parent's.
pub open spec fn stands_in(
    fanout: SubagentFanoutRuntime,
    provenance: FanoutProvenance,
    model_id: Seq<char>,
    parent_id: Seq<char>,
) -> bool {
    match provenance {
        FanoutProvenance::Explicit => model_id == fanout.default_model@,
        FanoutProvenance::InheritedParent => parent_id == fanout.default_model@,
    }
}

/// The target of a subagent, given the endpoints that can be used in its place:
/// the first of the turned pool is in use, and the turned pool is there to fail
/// over in where it has a second.
pub open spec fn fanned_out(endpoints: Seq<EndpointView>, tick: u64) -> (
    EndpointView,
    Option<Seq<EndpointView>>,
) {
    let pool = turned(endpoints, start_of(tick, endpoints.len()));
    (
        pool[0],
        if pool.len() >= 2 {
            Some(pool)
        } else {
            None
        },
    )
}

/// The target that fan-out gives a subagent; none where the subagent keeps the
/// one that was resolved.
pub open spec fn spread(
    fanout: Option<SubagentFanoutRuntime>,
    provenance: FanoutProvenance,
    model_id: Seq<char>,
    parent_id: Seq<char>,
    catalog: Seq<(Seq<char>, EndpointView)>,
    tick: u64,
) -> Option<(EndpointView, Option<Seq<EndpointView>>)> {
    match fanout {
        None => None,
        Some(fanout) => {
            let endpoints = provable(ids_view(fanout.pool@), catalog);
            if stands_in(fanout, provenance, model_id, parent_id) && endpoints.len() > 0 {
                Some(fanned_out(endpoints, tick))
            } else {
                None
            }
        },
    }
}

/// Spreads a subagent over the pool. `tick` counts the spawns that came before.
/// A model that fan-out does not stand in for, and a pool without a usable
/// endpoint, leave the target as it was resolved. The model keeps its id either way.
pub fn apply_subagent_fanout(
    resolved: SamplingTarget,
    model_id: &str,
    parent_id: &str,
    provenance: FanoutProvenance,
    fanout: Option<&SubagentFanoutRuntime>,
    catalog: &Vec<CatalogEntry>,
    tick: u64,
) -> (r: (SamplingTarget, String))
    ensures
        r.1@ == model_id@,
        match spread(
            (match fanout {
                Some(fanout) => Some(*fanout),
                None => None,
            }),
            provenance,
            model_id@,
            parent_id@,
            catalog_view(catalog@),
            tick,
        ) {
            Some(target) => target_view(r.0) == target,
            None => r.0 == resolved,
        },
        match fanout {
            None => r.0 == resolved,
            Some(fanout) => {
                let endpoints = provable(ids_view(fanout.pool@), catalog_view(catalog@));
                if stands_in(*fanout, provenance, model_id@, parent_id@) && endpoints.len() > 0 {
                    target_view(r.0) == fanned_out(endpoints, tick)
                } else {
                    r.0 == resolved
                }
            },
        },
{
    let id: String = model_id.to_owned();
    match fanout {
        None => (resolved, id),
        Some(fanout) => {
            let matched: bool = match provenance {
                FanoutProvenance::Explicit => text::same_text(
                    model_id,
                    fanout.default_model.as_str(),
                ),
                FanoutProvenance::InheritedParent => text::same_text(
                    parent_id,
                    fanout.default_model.as_str(),
                ),
            };
            if !matched {
                return (resolved, id);
            }
            let endpoints: Vec<FailoverEndpoint> = provable_endpoints(&fanout.pool, catalog);
            let n: usize = endpoints.len();
            let ghost all = endpoints_view(endpoints@);
            if n == 0 {
                return (resolved, id);
            }
            let start: usize = (tick % (n as u64)) as usize;
            let pool: Vec<FailoverEndpoint> = turned_endpoints(&endpoints, start);
            proof {
                assert(start == start_of(tick, all.len()));
                assert(endpoints_view(pool@).len() == n);
            }
            let endpoint: FailoverEndpoint = copy_endpoint(&pool[0]);
            proof {
                assert(endpoint@ == endpoints_view(pool@)[0]);
            }
            if n >= 2 {
                (
                    SamplingTarget {
                        endpoint,
                        failover_pool: Some(FailoverPool { endpoints: pool }),
                    },
                    id,
                )
            } else {
                (SamplingTarget { endpoint, failover_pool: None }, id)
            }
        },
    }
}

/// As many spawns in a row as the pool has endpoints each start at another.
pub proof fn law_spawns_start_apart(tick: u64, i: u64, j: u64, len: nat)
    requires
        i < j < len,
        tick + j <= u64::MAX,
    ensures
        start_of((tick + i) as u64, len) != start_of((tick + j) as u64, len),
{
    let n = len as int;
    let a = tick + i;
    let b = tick + j;
    if a % n == b % n {
        vstd::arithmetic::div_mod::lemma_fundamental_div_mod(a, n);
        vstd::arithmetic::div_mod::lemma_fundamental_div_mod(b, n);
        let d = b / n - a / n;
        assert(n * (b / n) - n * (a / n) == b - a);
        assert(n * d == b - a) by (nonlinear_arith)
            requires
                n * (b / n) - n * (a / n) == b - a,
                d == b / n - a / n,
        ;
        assert(false) by (nonlinear_arith)
            requires
                n * d == b - a,
                0 < b - a < n,
        ;
    }
}

/// Turning a pool loses and doubles nothing.
pub proof fn law_turning_keeps_the_pool(endpoints: Seq<EndpointView>, k: int)
    requires
        0 <= k <= endpoints.len(),
    ensures
        turned(endpoints, k).to_multiset() == endpoints.to_multiset(),
{
    let head = endpoints.take(k);
    let tail = endpoints.skip(k);
    assert(head + tail =~= endpoints);
    vstd::seq_lib::lemma_multiset_commutative(head, tail);
    vstd::seq_lib::lemma_multiset_commutative(tail, head);
    assert(head.to_multiset().add(tail.to_multiset()) =~= tail.to_multiset().add(
        head.to_multiset(),
    ));
}

/// Only endpoints with a credential of their own get into the pool.
pub proof fn law_pool_is_provable(
    ids: Seq<Seq<char>>,
    catalog: Seq<(Seq<char>, EndpointView)>,
    i: int,
)
    requires
        0 <= i < provable(ids, catalog).len(),
    ensures
        provable(ids, catalog)[i].api_key is Some,
    decreases ids.len(),
{
    if ids.len() > 0 {
        let rest = provable(ids.drop_last(), catalog);
        if i < rest.len() {
            law_pool_is_provable(ids.drop_last(), catalog, i);
        }
    }
}

/// A deduplicated pool holds the same ids, each once.
pub proof fn law_distinct_keeps_each_id_once(ids: Seq<Seq<char>>, id: Seq<char>)
    ensures
        distinct(ids).contains(id) == ids.contains(id),
        distinct(ids).no_duplicates(),
    decreases ids.len(),
{
    if ids.len() > 0 {
        let rest = ids.drop_last();
        law_distinct_keeps_each_id_once(rest, id);
        law_distinct_keeps_each_id_once(rest, ids.last());
        let kept = distinct(rest);
        assert(ids =~= rest.push(ids.last()));
        vstd::seq_lib::lemma_seq_contains_after_push(rest, ids.last(), id);
        vstd::seq_lib::lemma_seq_contains_after_push(kept, ids.last(), id);
    }
}

/// The views show every field of what they stand for, in its place.
pub proof fn law_views_show_everything(
    ids: Seq<String>,
    catalog: Seq<CatalogEntry>,
    endpoints: Seq<FailoverEndpoint>,
    target: SamplingTarget,
    i: int,
)
    ensures
        target_view(target).0 == target.endpoint@,
        target_view(target).1 is Some == target.failover_pool is Some,
        target.failover_pool is Some ==> target_view(target).1->0 == endpoints_view(
            target.failover_pool->0.endpoints@,
        ),
        ids_view(ids).len() == ids.len(),
        0 <= i < ids.len() ==> ids_view(ids)[i] == ids[i]@,
        catalog_view(catalog).len() == catalog.len(),
        0 <= i < catalog.len() ==> catalog_view(catalog)[i] == (
            catalog[i].id@,
            catalog[i].endpoint@,
        ),
        endpoints_view(endpoints).len() == endpoints.len(),
        0 <= i < endpoints.len() ==> endpoints_view(endpoints)[i] == endpoints[i]@,
{
}

/// Two endpoints look alike exactly when all their fields hold the same.
pub proof fn law_endpoints_alike_agree_in_every_field(a: FailoverEndpoint, b: FailoverEndpoint)
    ensures
        a@ == b@ <==> {
            &&& a.base_url@ == b.base_url@
            &&& a.model@ == b.model@
            &&& a.api_key is Some == b.api_key is Some
            &&& a.api_key is Some ==> a.api_key->0@ == b.api_key->0@
            &&& a.auth_scheme == b.auth_scheme
            &&& a.api_backend@ == b.api_backend@
            &&& a.extra_headers@.len() == b.extra_headers@.len()
            &&& forall|i: int|
                0 <= i < a.extra_headers@.len() ==> (#[trigger] a.extra_headers@[i]).0@
                    == b.extra_headers@[i].0@ && a.extra_headers@[i].1@ == b.extra_headers@[i].1@
            &&& a.query_params@.len() == b.query_params@.len()
            &&& forall|i: int|
                0 <= i < a.query_params@.len() ==> (#[trigger] a.query_params@[i]).0@
                    == b.query_params@[i].0@ && a.query_params@[i].1@ == b.query_params@[i].1@
        },
{
    let ah = pkce_loopback::params_view(a.extra_headers@);
    let bh = pkce_loopback::params_view(b.extra_headers@);
    let aq = pkce_loopback::params_view(a.query_params@);
    let bq = pkce_loopback::params_view(b.query_params@);
    if a@ == b@ {
        assert(ah.len() == bh.len() && aq.len() == bq.len());
        assert forall|i: int| 0 <= i < a.extra_headers@.len() implies (
        #[trigger] a.extra_headers@[i]).0@ == b.extra_headers@[i].0@ && a.extra_headers@[i].1@
            == b.extra_headers@[i].1@ by {
            assert(ah[i] == bh[i]);
        }
        assert forall|i: int| 0 <= i < a.query_params@.len() implies (
        #[trigger] a.query_params@[i]).0@ == b.query_params@[i].0@ && a.query_params@[i].1@
            == b.query_params@[i].1@ by {
            assert(aq[i] == bq[i]);
        }
    } else if a.extra_headers@.len() == b.extra_headers@.len() && a.query_params@.len()
        == b.query_params@.len() {
        if (forall|i: int|
            0 <= i < a.extra_headers@.len() ==> (#[trigger] a.extra_headers@[i]).0@
                == b.extra_headers@[i].0@ && a.extra_headers@[i].1@ == b.extra_headers@[i].1@) {
            assert(ah =~= bh);
        }
        if (forall|i: int|
            0 <= i < a.query_params@.len() ==> (#[trigger] a.query_params@[i]).0@
                == b.query_params@[i].0@ && a.query_params@[i].1@ == b.query_params@[i].1@) {
            assert(aq =~= bq);
        }
    }
}

/// What the catalog has under an id is the endpoint of the first entry with that
/// id, and it has nothing only where no entry has it.
pub proof fn law_lookup_finds_the_first_entry(
    catalog: Seq<(Seq<char>, EndpointView)>,
    id: Seq<char>,
)
    ensures
        match lookup(catalog, id) {
            Some(endpoint) => exists|i: int|
                0 <= i < catalog.len() && #[trigger] catalog[i] == (id, endpoint) && forall|j: int|
                    0 <= j < i ==> (#[trigger] catalog[j]).0 != id,
            None => forall|j: int| 0 <= j < catalog.len() ==> (#[trigger] catalog[j]).0 != id,
        },
    decreases catalog.len(),
{
    if catalog.len() > 0 {
        if catalog[0].0 == id {
            assert(catalog[0] == (id, catalog[0].1));
        } else {
            let rest = catalog.skip(1);
            law_lookup_finds_the_first_entry(rest, id);
            match lookup(rest, id) {
                Some(endpoint) => {
                    let i = choose|i: int|
                        0 <= i < rest.len() && #[trigger] rest[i] == (id, endpoint) && forall|
                            j: int,
                        |
                            0 <= j < i ==> (#[trigger] rest[j]).0 != id;
                    assert(catalog[i + 1] == (id, endpoint));
                    assert forall|j: int| 0 <= j < i + 1 implies (#[trigger] catalog[j]).0 != id by {
                        if j > 0 {
                            assert(rest[j - 1] == catalog[j]);
                        }
                    }
                },
                None => {
                    assert forall|j: int| 0 <= j < catalog.len() implies (
                    #[trigger] catalog[j]).0 != id by {
                        if j > 0 {
                            assert(rest[j - 1] == catalog[j]);
                        }
                    }
                },
            }
        }
    }
}

/// The pool has the endpoint of every id that the catalog has with a credential,
/// whatever else there is to that endpoint.
pub proof fn law_credentialed_endpoints_are_pooled(
    ids: Seq<Seq<char>>,
    catalog: Seq<(Seq<char>, EndpointView)>,
    j: int,
)
    requires
        0 <= j < ids.len(),
        lookup(catalog, ids[j]) is Some,
        lookup(catalog, ids[j])->0.api_key is Some,
    ensures
        provable(ids, catalog).contains(lookup(catalog, ids[j])->0),
    decreases ids.len(),
{
    let endpoint = lookup(catalog, ids[j])->0;
    let rest = provable(ids.drop_last(), catalog);
    if j == ids.len() - 1 {
        assert(provable(ids, catalog).last() == endpoint);
    } else {
        assert(ids.drop_last()[j] == ids[j]);
        law_credentialed_endpoints_are_pooled(ids.drop_last(), catalog, j);
        let k = choose|k: int| 0 <= k < rest.len() && rest[k] == endpoint;
        assert(provable(ids, catalog)[k] == endpoint);
    }
}

/// The pool is made of exactly the ids that the catalog has with a credential, one
/// endpoint for each and in their order; the ids to warn of are exactly those that
/// it does not have.
pub proof fn law_pool_is_the_credentialed_ids(
    ids: Seq<Seq<char>>,
    catalog: Seq<(Seq<char>, EndpointView)>,
)
    ensures
        provable(ids, catalog) == ids.filter(
            |id: Seq<char>|
                lookup(catalog, id) matches Some(endpoint) && endpoint.api_key is Some,
        ).map_values(|id: Seq<char>| lookup(catalog, id)->0),
        unknown(ids, catalog) == ids.filter(|id: Seq<char>| lookup(catalog, id) is None),
    decreases ids.len(),
{
    reveal(Seq::filter);
    if ids.len() > 0 {
        let rest = ids.drop_last();
        law_pool_is_the_credentialed_ids(rest, catalog);
        let keyed = |id: Seq<char>|
            lookup(catalog, id) matches Some(endpoint) && endpoint.api_key is Some;
        let found = |id: Seq<char>| lookup(catalog, id)->0;
        assert(ids.filter(keyed).map_values(found) =~= if keyed(ids.last()) {
            rest.filter(keyed).map_values(found).push(found(ids.last()))
        } else {
            rest.filter(keyed).map_values(found)
        });
    }
}

/// The pool of two lists of ids, one behind the other, is the pool of the first
/// and then that of the second; an id alone gives its endpoint where that has a
/// credential, and is unknown where the catalog does not have it.
pub proof fn law_pools_join(
    a: Seq<Seq<char>>,
    b: Seq<Seq<char>>,
    id: Seq<char>,
    catalog: Seq<(Seq<char>, EndpointView)>,
)
    ensures
        provable(a + b, catalog) == provable(a, catalog) + provable(b, catalog),
        unknown(a + b, catalog) == unknown(a, catalog) + unknown(b, catalog),
        provable(seq![id], catalog) == (match lookup(catalog, id) {
            Some(endpoint) => if endpoint.api_key is Some {
                seq![endpoint]
            } else {
                seq![]
            },
            None => seq![],
        }),
        unknown(seq![id], catalog) == (if lookup(catalog, id) is None {
            seq![id]
        } else {
            seq![]
        }),
    decreases b.len(),
{
    reveal_with_fuel(provable, 2);
    reveal_with_fuel(unknown, 2);
    assert(seq![id].drop_last() =~= Seq::<Seq<char>>::empty());
    assert(unknown(seq![id], catalog) =~= (if lookup(catalog, id) is None {
        seq![id]
    } else {
        seq![]
    }));
    if b.len() == 0 {
        assert(a + b =~= a);
        assert(provable(a, catalog) + provable(b, catalog) =~= provable(a, catalog));
        assert(unknown(a, catalog) + unknown(b, catalog) =~= unknown(a, catalog));
    } else {
        law_pools_join(a, b.drop_last(), id, catalog);
        assert((a + b).drop_last() =~= a + b.drop_last());
        assert((a + b).last() == b.last());
        assert(provable(a + b, catalog) =~= provable(a, catalog) + provable(b, catalog));
        assert(unknown(a + b, catalog) =~= unknown(a, catalog) + unknown(b, catalog));
    }
}

/// What is kept of a pool is settled from its front: more ids behind it take
/// nothing away from what was kept and come behind it. An id is reported once for
/// each time that it had come before.
pub proof fn law_first_mention_counts(ids: Seq<Seq<char>>, more: Seq<Seq<char>>, id: Seq<char>)
    ensures
        distinct(ids).is_prefix_of(distinct(ids + more)),
        repeated(seq![]) == Seq::<Seq<char>>::empty(),
        repeated(ids.push(id)) == (if ids.contains(id) {
            repeated(ids).push(id)
        } else {
            repeated(ids)
        }),
        distinct(ids).len() + repeated(ids).len() == ids.len(),
    decreases more.len(), ids.len(),
{
    law_distinct_keeps_each_id_once(ids, id);
    assert(ids.push(id).drop_last() =~= ids);
    assert(repeated(seq![]) =~= Seq::<Seq<char>>::empty());
    if ids.len() > 0 {
        law_first_mention_counts(ids.drop_last(), seq![], id);
    }
    if more.len() == 0 {
        assert(ids + more =~= ids);
    } else {
        law_first_mention_counts(ids, more.drop_last(), id);
        assert((ids + more).drop_last() =~= ids + more.drop_last());
    }
}

/// A spawn uses the endpoint at its tick, counted round the pool, and fails over
/// through the endpoints that follow it, each at its place; a lone endpoint has
/// nothing to fail over to.
pub proof fn law_spawns_take_the_pool_in_turn(endpoints: Seq<EndpointView>, tick: u64, i: int)
    requires
        0 <= i < endpoints.len(),
    ensures
        ({
            let n = endpoints.len() as int;
            let (used, pool) = fanned_out(endpoints, tick);
            &&& used == endpoints[tick as int % n]
            &&& pool is Some <==> n >= 2
            &&& pool is Some ==> pool->0.len() == n && pool->0[i] == endpoints[(tick + i) % n]
        }),
{
    let n = endpoints.len() as int;
    let k = start_of(tick, endpoints.len());
    vstd::arithmetic::div_mod::lemma_mod_bound(tick as int, n);
    vstd::arithmetic::div_mod::lemma_add_mod_noop(tick as int, i, n);
    vstd::arithmetic::div_mod::lemma_small_mod(i as nat, n as nat);
    if k + i < n {
        vstd::arithmetic::div_mod::lemma_small_mod((k + i) as nat, n as nat);
    } else {
        vstd::arithmetic::div_mod::lemma_small_mod((k + i - n) as nat, n as nat);
        vstd::arithmetic::div_mod::lemma_mod_sub_multiples_vanish(k + i, n);
    }
    assert((tick + i) % n == (k + i) % n);
    assert(turned(endpoints, k)[i] == endpoints[(tick + i) % n]);
    assert(turned(endpoints, k)[0] == endpoints[k]);
}

/// An override is fanned out by its own id alone, an inherited model by the
/// parent's alone.
pub proof fn law_only_the_default_model_is_fanned_out(
    fanout: SubagentFanoutRuntime,
    model_id: Seq<char>,
    parent_id: Seq<char>,
)
    ensures
        stands_in(fanout, FanoutProvenance::Explicit, model_id, parent_id) <==> model_id
            == fanout.default_model@,
        stands_in(fanout, FanoutProvenance::InheritedParent, model_id, parent_id) <==> parent_id
            == fanout.default_model@,
{
}

/// A subagent is moved exactly where fan-out is on, stands in for its model, and
/// some pool id is in the catalog with a credential. It then uses an endpoint of
/// such an id.
pub proof fn law_moved_only_onto_a_credentialed_endpoint(
    fanout: SubagentFanoutRuntime,
    provenance: FanoutProvenance,
    model_id: Seq<char>,
    parent_id: Seq<char>,
    catalog: Seq<(Seq<char>, EndpointView)>,
    tick: u64,
)
    ensures
        spread(None, provenance, model_id, parent_id, catalog, tick) is None,
        ({
            let ids = ids_view(fanout.pool@);
            let target = spread(Some(fanout), provenance, model_id, parent_id, catalog, tick);
            &&& target is Some <==> stands_in(fanout, provenance, model_id, parent_id) && exists|
                j: int,
            |
                0 <= j < ids.len() && (lookup(catalog, #[trigger] ids[j]) matches Some(endpoint)
                    && endpoint.api_key is Some)
            &&& target matches Some((used, _)) ==> used.api_key is Some && exists|j: int|
                0 <= j < ids.len() && lookup(catalog, #[trigger] ids[j]) == Some(used)
            &&& target matches Some((used, pool)) ==> (used, pool) == fanned_out(
                provable(ids, catalog),
                tick,
            )
        }),
{
    let ids = ids_view(fanout.pool@);
    let endpoints = provable(ids, catalog);
    if endpoints.len() > 0 {
        law_spawns_take_the_pool_in_turn(endpoints, tick, 0);
        let n = endpoints.len() as int;
        let at = tick as int % n;
        vstd::arithmetic::div_mod::lemma_mod_bound(tick as int, n);
        lemma_pooled_is_looked_up(ids, catalog, at);
        law_pool_is_provable(ids, catalog, at);
    }
    if exists|j: int|
        0 <= j < ids.len() && (lookup(catalog, #[trigger] ids[j]) matches Some(endpoint)
            && endpoint.api_key is Some) {
        let j = choose|j: int|
            0 <= j < ids.len() && (lookup(catalog, #[trigger] ids[j]) matches Some(endpoint)
                && endpoint.api_key is Some);
        law_credentialed_endpoints_are_pooled(ids, catalog, j);
    }
}

proof fn lemma_pooled_is_looked_up(
    ids: Seq<Seq<char>>,
    catalog: Seq<(Seq<char>, EndpointView)>,
    i: int,
)
    requires
        0 <= i < provable(ids, catalog).len(),
    ensures
        exists|j: int|
            0 <= j < ids.len() && lookup(catalog, #[trigger] ids[j]) == Some(
                provable(ids, catalog)[i],
            ),
    decreases ids.len(),
{
    if ids.len() > 0 {
        let rest = provable(ids.drop_last(), catalog);
        if i < rest.len() {
            lemma_pooled_is_looked_up(ids.drop_last(), catalog, i);
            let j = choose|j: int|
                0 <= j < ids.drop_last().len() && lookup(catalog, #[trigger] ids.drop_last()[j])
                    == Some(rest[i]);
            assert(ids[j] == ids.drop_last()[j]);
        } else {
            assert(ids[ids.len() - 1] == ids.last());
        }
    }
}

} // verus!
