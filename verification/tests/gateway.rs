use mbtiles_gateway::cache::AuthCache;
use mbtiles_gateway::error::rejection_error;
use mbtiles_gateway::fingerprint::derive_fingerprint;
use mbtiles_gateway::gateway::{AppState, GatewayOutcome, GatewayStep};

fn state_with(headers: Vec<&str>, ttl: u64) -> AppState {
    AppState {
        auth_script: "auth.py".to_string(),
        webroot: "./example-data".to_string(),
        auth_headers: headers.into_iter().map(|s| s.to_string()).collect(),
        cache_validity_seconds: ttl,
        cache_control_header: String::new(),
        auth_cache: AuthCache::new(),
    }
}

fn key_headers(v: &str) -> Vec<(String, String)> {
    vec![("X-Key".to_string(), v.to_string())]
}

#[test]
fn scenario_first_request_then_cache_hit() {
    let mut st = state_with(vec!["X-Key"], 60);
    let hdrs = key_headers("abc");
    let step = st.begin_auth(&hdrs, 1000);
    let fp = match step {
        GatewayStep::NeedsCheck(fp) => fp,
        other => panic!("expected a cache miss, got {:?}", other),
    };
    assert_eq!(fp, "abc");
    let out = st.finish_auth(fp, Some(true), 1000);
    assert!(matches!(out, GatewayOutcome::Forward));
    // Second identical request within the window: forwarded from the
    // cache, the external procedure is not consulted again.
    let step2 = st.begin_auth(&hdrs, 1030);
    assert!(matches!(step2, GatewayStep::Forward));
}

#[test]
fn scenario_missing_header_is_rejected() {
    let mut st = state_with(vec!["X-Key"], 60);
    let hdrs = vec![("Other".to_string(), "abc".to_string())];
    let step = st.begin_auth(&hdrs, 1000);
    assert!(matches!(step, GatewayStep::Reject));
    assert_eq!(st.auth_cache.len(), 0);
}

#[test]
fn scenario_expired_entry_is_recomputed() {
    let mut st = state_with(vec!["X-Key"], 60);
    let hdrs = key_headers("abc");
    let step = st.begin_auth(&hdrs, 1000);
    let fp = match step {
        GatewayStep::NeedsCheck(fp) => fp,
        other => panic!("expected a cache miss, got {:?}", other),
    };
    st.finish_auth(fp, Some(true), 1000);
    // At exactly now + ttl the entry no longer counts.
    let step2 = st.begin_auth(&hdrs, 1060);
    assert!(matches!(step2, GatewayStep::NeedsCheck(fp) if fp == "abc"));
}

#[test]
fn scenario_procedure_failure_is_not_cached() {
    let mut st = state_with(vec!["X-Key"], 60);
    let hdrs = key_headers("abc");
    let step = st.begin_auth(&hdrs, 1000);
    let fp = match step {
        GatewayStep::NeedsCheck(fp) => fp,
        other => panic!("expected a cache miss, got {:?}", other),
    };
    let out = st.finish_auth(fp, None, 1000);
    assert!(matches!(out, GatewayOutcome::InternalError));
    assert_eq!(st.auth_cache.len(), 0);
    // The next request retries the external procedure.
    let step2 = st.begin_auth(&hdrs, 1001);
    assert!(matches!(step2, GatewayStep::NeedsCheck(fp) if fp == "abc"));
}

#[test]
fn bypass_with_empty_header_config() {
    let mut st = state_with(vec![], 60);
    let step = st.begin_auth(&key_headers("abc"), 1000);
    assert!(matches!(step, GatewayStep::Forward));
    assert_eq!(st.auth_cache.len(), 0);
    let step2 = st.begin_auth(&Vec::new(), 2000);
    assert!(matches!(step2, GatewayStep::Forward));
    assert_eq!(st.auth_cache.len(), 0);
}

#[test]
fn denied_decision_is_cached_and_rejects() {
    let mut st = state_with(vec!["X-Key"], 60);
    let hdrs = key_headers("abc");
    let step = st.begin_auth(&hdrs, 1000);
    let fp = match step {
        GatewayStep::NeedsCheck(fp) => fp,
        other => panic!("expected a cache miss, got {:?}", other),
    };
    let out = st.finish_auth(fp, Some(false), 1000);
    assert!(matches!(out, GatewayOutcome::Reject));
    let step2 = st.begin_auth(&hdrs, 1030);
    assert!(matches!(step2, GatewayStep::Reject));
    assert_eq!(st.auth_cache.len(), 1);
}

#[test]
fn fingerprint_concatenates_in_configured_order() {
    let required = vec!["X-A".to_string(), "X-B".to_string()];
    let headers = vec![
        ("X-B".to_string(), "2".to_string()),
        ("X-A".to_string(), "1".to_string()),
    ];
    assert_eq!(derive_fingerprint(&required, &headers), Some("12".to_string()));
}

#[test]
fn fingerprint_missing_header_fails() {
    let required = vec!["X-A".to_string(), "X-B".to_string()];
    let headers = vec![("X-A".to_string(), "1".to_string())];
    assert_eq!(derive_fingerprint(&required, &headers), None);
}

#[test]
fn fingerprint_takes_first_of_duplicate_headers() {
    let required = vec!["X-A".to_string()];
    let headers = vec![
        ("X-A".to_string(), "first".to_string()),
        ("X-A".to_string(), "second".to_string()),
    ];
    assert_eq!(derive_fingerprint(&required, &headers), Some("first".to_string()));
}

#[test]
fn fingerprint_aliases_without_delimiter() {
    // Two different value splits concatenate to the same session; this
    // is deliberate cache-key behavior.
    let required = vec!["X-A".to_string(), "X-B".to_string()];
    let h1 = vec![
        ("X-A".to_string(), "ab".to_string()),
        ("X-B".to_string(), "c".to_string()),
    ];
    let h2 = vec![
        ("X-A".to_string(), "a".to_string()),
        ("X-B".to_string(), "bc".to_string()),
    ];
    assert_eq!(derive_fingerprint(&required, &h1), derive_fingerprint(&required, &h2));
}

#[test]
fn cache_insert_replaces_and_expires() {
    let mut c = AuthCache::new();
    c.insert("k".to_string(), true, 100, 60);
    let hit = c.lookup(&"k".to_string(), 120).expect("entry should be live");
    assert!(hit.is_allowed);
    assert_eq!(hit.exp_time, 160);
    c.insert("k".to_string(), false, 120, 60);
    assert_eq!(c.len(), 1);
    let hit2 = c.lookup(&"k".to_string(), 130).expect("entry should be live");
    assert!(!hit2.is_allowed);
    assert_eq!(hit2.exp_time, 180);
    assert!(c.lookup(&"k".to_string(), 180).is_none());
}

#[test]
fn cache_sweep_removes_expired_entries_only() {
    let mut c = AuthCache::new();
    c.insert("a".to_string(), true, 100, 10);
    c.insert("b".to_string(), false, 100, 60);
    assert_eq!(c.len(), 2);
    c.sweep(110);
    assert_eq!(c.len(), 1);
    assert!(c.lookup(&"a".to_string(), 110).is_none());
    assert!(c.lookup(&"b".to_string(), 110).is_some());
}

#[test]
fn rejection_error_carries_name() {
    assert_eq!(rejection_error().name, "Unauthorized");
}
