use shuvgrok::failover::{AuthScheme, FailoverEndpoint};
use shuvgrok::fanout::{
    apply_subagent_fanout, dedup_pool, unknown_pool_ids, CatalogEntry, FanoutProvenance,
    SamplingTarget, SubagentFanoutConfig, SubagentFanoutRuntime,
};

fn entry_with_key(model_id: &str) -> CatalogEntry {
    CatalogEntry {
        id: model_id.into(),
        endpoint: FailoverEndpoint {
            base_url: format!("https://{model_id}.example/v1"),
            model: model_id.into(),
            api_key: Some(format!("{model_id}-key")),
            auth_scheme: AuthScheme::Bearer,
            api_backend: "chat".into(),
            extra_headers: vec![("x-model".into(), model_id.into())],
            query_params: vec![("k".into(), "v".into())],
        },
    }
}

fn entry_without_key(model_id: &str) -> CatalogEntry {
    let mut entry = entry_with_key(model_id);
    entry.endpoint.api_key = None;
    entry
}

fn models(ids: &[&str]) -> Vec<CatalogEntry> {
    ids.iter().map(|id| entry_with_key(id)).collect()
}

fn runtime(default_model: &str, pool: &[&str]) -> Option<SubagentFanoutRuntime> {
    Some(SubagentFanoutRuntime {
        default_model: default_model.to_string(),
        pool: pool.iter().map(|s| s.to_string()).collect(),
    })
}

fn resolved(catalog: &[CatalogEntry], id: &str) -> SamplingTarget {
    SamplingTarget {
        endpoint: catalog.iter().find(|e| e.id == id).unwrap().endpoint.clone(),
        failover_pool: None,
    }
}

fn parent() -> SamplingTarget {
    let mut target = resolved(&models(&["parent"]), "parent");
    target.endpoint.model = "parent-routing-slug".into();
    target
}

#[test]
fn fanout_runtime_from_config_requires_enabled_default_and_nonempty_pool() {
    assert_eq!(SubagentFanoutRuntime::from_config(None), None);
    assert_eq!(
        SubagentFanoutRuntime::from_config(Some(&SubagentFanoutConfig {
            enabled: false,
            default_model: Some("ox-alpha".into()),
            pool: vec!["ox-alpha".into()],
        })),
        None,
        "disabled ⇒ None"
    );
    assert_eq!(
        SubagentFanoutRuntime::from_config(Some(&SubagentFanoutConfig {
            enabled: true,
            default_model: Some("ox-alpha".into()),
            pool: Vec::new(),
        })),
        None,
        "empty pool ⇒ Nothing to rotate over"
    );
    assert_eq!(
        SubagentFanoutRuntime::from_config(Some(&SubagentFanoutConfig {
            enabled: true,
            default_model: None,
            pool: vec!["ox-alpha".into()],
        })),
        None,
        "no default id ⇒ nothing to match against"
    );
    assert_eq!(
        SubagentFanoutRuntime::from_config(Some(&SubagentFanoutConfig {
            enabled: true,
            default_model: Some("ox-alpha".into()),
            pool: vec!["ox-alpha".into()],
        })),
        runtime("ox-alpha", &["ox-alpha"]),
    );
    assert_eq!(
        SubagentFanoutRuntime::from_config(Some(&SubagentFanoutConfig::default())),
        None
    );
}

#[test]
fn fanout_applies_to_explicit_default_override_with_rotation() {
    let catalog = models(&["ox-alpha", "zen", "kilo"]);
    let fanout = runtime("ox-alpha", &["ox-alpha", "zen", "kilo"]);
    let apply = |tick: u64| {
        apply_subagent_fanout(
            resolved(&catalog, "ox-alpha"),
            "ox-alpha",
            "ox-alpha",
            FanoutProvenance::Explicit,
            fanout.as_ref(),
            &catalog,
            tick,
        )
    };
    let (config, model_id) = apply(0);
    assert_eq!(model_id, "ox-alpha");
    let pool = config.failover_pool.expect("pool attached");
    assert_eq!(pool.endpoints.len(), 3, "two alternates + active");
    assert_eq!(config.endpoint, pool.endpoints[0]);
    assert_eq!(config.endpoint, catalog[0].endpoint);
    let mut starts = std::collections::HashSet::new();
    for tick in 1..=3u64 {
        let (next_config, _) = apply(tick);
        let next_pool = next_config.failover_pool.as_ref().unwrap();
        assert_eq!(next_config.endpoint, next_pool.endpoints[0]);
        starts.insert(next_pool.endpoints[0].base_url.clone());
    }
    assert_eq!(
        starts.len(),
        3,
        "three spawns must land on three DIFFERENT starting endpoints"
    );
}

#[test]
fn fanout_rotation_reorders_endpoints_vec() {
    let catalog = models(&["a", "b"]);
    let fanout = runtime("a", &["a", "b"]);
    for tick in 0..4u64 {
        let (config, model_id) = apply_subagent_fanout(
            resolved(&catalog, "a"),
            "a",
            "a",
            FanoutProvenance::Explicit,
            fanout.as_ref(),
            &catalog,
            tick,
        );
        assert_eq!(model_id, "a");
        let pool = config.failover_pool.unwrap();
        assert_eq!(pool.endpoints.len(), 2);
        assert_eq!(pool.endpoints[0].model, config.endpoint.model);
        let first = (tick % 2) as usize;
        assert_eq!(pool.endpoints[0], catalog[first].endpoint);
        assert_eq!(pool.endpoints[1], catalog[1 - first].endpoint);
    }
}

#[test]
fn fanout_bypasses_explicit_override_for_other_model() {
    let catalog = models(&["ox-alpha", "zen"]);
    let fanout = runtime("ox-alpha", &["ox-alpha", "zen"]);
    let (config, model_id) = apply_subagent_fanout(
        resolved(&catalog, "zen"),
        "zen",
        "ox-alpha",
        FanoutProvenance::Explicit,
        fanout.as_ref(),
        &catalog,
        0,
    );
    assert_eq!(model_id, "zen");
    assert_eq!(config, resolved(&catalog, "zen"));
}

#[test]
fn fanout_applies_on_inherit_parent_when_parent_is_default() {
    let catalog = models(&["ox-alpha", "zen"]);
    let fanout = runtime("ox-alpha", &["ox-alpha", "zen"]);
    let (config, model_id) = apply_subagent_fanout(
        parent(),
        "ox-alpha",
        "ox-alpha",
        FanoutProvenance::InheritedParent,
        fanout.as_ref(),
        &catalog,
        0,
    );
    assert_eq!(model_id, "ox-alpha");
    assert!(config.failover_pool.is_some(), "parent on default ⇒ pooled");
}

#[test]
fn fanout_bypassed_on_inherit_parent_when_parent_is_other_model() {
    let catalog = models(&["ox-alpha", "other"]);
    let fanout = runtime("ox-alpha", &["ox-alpha"]);
    let (config, model_id) = apply_subagent_fanout(
        parent(),
        "other",
        "other",
        FanoutProvenance::InheritedParent,
        fanout.as_ref(),
        &catalog,
        0,
    );
    assert_eq!(model_id, "other");
    assert!(config.failover_pool.is_none());
    assert_eq!(config.endpoint.base_url, "https://parent.example/v1");
}

#[test]
fn fanout_excludes_entries_without_resolvable_credentials() {
    let mut catalog = models(&["ox-alpha", "zen"]);
    catalog.push(entry_without_key("keyless"));
    let fanout = runtime("ox-alpha", &["ox-alpha", "keyless", "zen"]);
    let (config, model_id) = apply_subagent_fanout(
        resolved(&catalog, "ox-alpha"),
        "ox-alpha",
        "ox-alpha",
        FanoutProvenance::Explicit,
        fanout.as_ref(),
        &catalog,
        0,
    );
    assert_eq!(model_id, "ox-alpha");
    let pool = config
        .failover_pool
        .expect("two credentialed entries ⇒ one alternate");
    assert_eq!(
        pool.endpoints.len(),
        2,
        "exactly the credentialed entries survive"
    );
    for ep in &pool.endpoints {
        assert_ne!(ep.model, "keyless");
    }
}

#[test]
fn fanout_skips_unknown_pool_ids() {
    let catalog = models(&["ox-alpha", "real"]);
    let fanout = runtime("ox-alpha", &["ox-alpha", "ghost", "real"]);
    let (config, model_id) = apply_subagent_fanout(
        resolved(&catalog, "ox-alpha"),
        "ox-alpha",
        "ox-alpha",
        FanoutProvenance::Explicit,
        fanout.as_ref(),
        &catalog,
        0,
    );
    assert_eq!(model_id, "ox-alpha");
    let pool = config.failover_pool.expect("credentialed entries remain");
    assert_eq!(pool.endpoints.len(), 2);
    for ep in &pool.endpoints {
        assert_ne!(ep.model, "ghost");
    }
}

#[test]
fn fanout_no_credentialed_entries_leaves_resolution_untouched() {
    let catalog = vec![entry_without_key("bare"), entry_without_key("ox-alpha")];
    let fanout = runtime("ox-alpha", &["bare"]);
    let before = resolved(&catalog, "ox-alpha");
    let (config, model_id) = apply_subagent_fanout(
        before.clone(),
        "ox-alpha",
        "ox-alpha",
        FanoutProvenance::Explicit,
        fanout.as_ref(),
        &catalog,
        0,
    );
    assert_eq!(model_id, "ox-alpha");
    assert!(config.failover_pool.is_none());
    assert_eq!(config.endpoint.base_url, before.endpoint.base_url);
}

#[test]
fn fanout_absent_is_pass_through() {
    let catalog = models(&["ox-alpha"]);
    let before = resolved(&catalog, "ox-alpha");
    let (config, model_id) = apply_subagent_fanout(
        before.clone(),
        "ox-alpha",
        "ox-alpha",
        FanoutProvenance::Explicit,
        None,
        &catalog,
        0,
    );
    assert_eq!(model_id, "ox-alpha");
    assert_eq!(config, before);
}

#[test]
fn fanout_single_entry_sets_active_but_no_pool() {
    let catalog = models(&["ox-alpha", "zen"]);
    let fanout = runtime("ox-alpha", &["zen"]);
    let (config, model_id) = apply_subagent_fanout(
        resolved(&catalog, "ox-alpha"),
        "ox-alpha",
        "ox-alpha",
        FanoutProvenance::Explicit,
        fanout.as_ref(),
        &catalog,
        u64::MAX,
    );
    assert_eq!(model_id, "ox-alpha");
    assert!(
        config.failover_pool.is_none(),
        "single entry ⇒ no alternate ⇒ no FailoverPool"
    );
    assert_eq!(config.endpoint.base_url, "https://zen.example/v1");
    assert_eq!(config.endpoint.api_key.as_deref(), Some("zen-key"));
}

fn ids(texts: &[&str]) -> Vec<String> {
    texts.iter().map(|text| text.to_string()).collect()
}

#[test]
fn repeated_pool_ids_are_kept_once() {
    let (kept, again) = dedup_pool(&ids(&["a", "b", "a", "b", "a"]));
    assert_eq!(kept, ids(&["a", "b"]));
    assert_eq!(again, ids(&["a", "b", "a"]));
    let (kept, again) = dedup_pool(&ids(&[]));
    assert!(kept.is_empty() && again.is_empty());
}

#[test]
fn ids_missing_from_the_catalog_are_named() {
    let catalog = models(&["ox-alpha"]);
    assert_eq!(
        unknown_pool_ids(&ids(&["ox-alpha", "ghost-model"]), &catalog),
        ids(&["ghost-model"])
    );
    assert!(unknown_pool_ids(&ids(&["ox-alpha"]), &catalog).is_empty());
}
