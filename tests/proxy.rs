use ollama_proxy::forward::{
    classify, is_streaming_content_type, is_streaming_request, is_valid_remote_url, plan_request,
    ConfigError, ProxyConfig, ProxyOutcome, REQUEST_TIMEOUT_SECS,
};
use ollama_proxy::headers::{bearer_bytes, name_matches, outbound_headers, Header};
use ollama_proxy::keychain::{
    create_account_name, delete_api_key, get_api_key, is_keychain_enabled, list_saved_urls,
    save_api_key, KeychainError,
};
use ollama_proxy::shutdown::{Coordinator, Phase};
use ollama_proxy::text::{str_contains, str_has_prefix};
use ollama_proxy::url::rewrite_url;
use std::collections::hash_map::DefaultHasher;
use std::hash::{Hash, Hasher};

fn h(name: &str, value: &str) -> Header {
    Header::new(name.to_string(), value.as_bytes().to_vec())
}

fn pairs(hs: &[Header]) -> Vec<(String, Vec<u8>)> {
    hs.iter().map(|x| (x.name.clone(), x.value.clone())).collect()
}

#[test]
fn example_get_tags_gets_bearer() {
    let cfg = ProxyConfig::new(
        "127.0.0.1:11434".to_string(),
        "https://api.example.com".to_string(),
        Some("abc".to_string()),
    )
    .unwrap();
    let out = plan_request(&cfg, Some("/api/tags"), &vec![]).ok().unwrap();
    assert_eq!(out.url, "https://api.example.com/api/tags");
    assert_eq!(pairs(&out.headers), vec![("authorization".to_string(), b"Bearer abc".to_vec())]);
}

#[test]
fn host_header_is_removed_in_any_case() {
    let inbound = vec![h("Host", "localhost:11434"), h("accept", "*/*"), h("HOST", "x")];
    let out = outbound_headers(&inbound, None);
    assert_eq!(pairs(&out), vec![("accept".to_string(), b"*/*".to_vec())]);
}

#[test]
fn other_headers_keep_order_and_repeats() {
    let inbound = vec![h("x-a", "1"), h("host", "h"), h("x-b", "2"), h("x-a", "3")];
    let out = outbound_headers(&inbound, None);
    assert_eq!(
        pairs(&out),
        vec![
            ("x-a".to_string(), b"1".to_vec()),
            ("x-b".to_string(), b"2".to_vec()),
            ("x-a".to_string(), b"3".to_vec()),
        ]
    );
}

#[test]
fn credential_replaces_inbound_authorization() {
    let inbound = vec![
        h("Authorization", "Bearer old"),
        h("content-type", "application/json"),
        h("authorization", "Basic zzz"),
    ];
    let out = outbound_headers(&inbound, Some("k1"));
    assert_eq!(
        pairs(&out),
        vec![
            ("content-type".to_string(), b"application/json".to_vec()),
            ("authorization".to_string(), b"Bearer k1".to_vec()),
        ]
    );
    let auth = out.iter().filter(|x| x.name.eq_ignore_ascii_case("authorization")).count();
    assert_eq!(auth, 1);
}

#[test]
fn without_credential_inbound_authorization_passes() {
    let inbound = vec![h("authorization", "Bearer client")];
    let out = outbound_headers(&inbound, None);
    assert_eq!(pairs(&out), vec![("authorization".to_string(), b"Bearer client".to_vec())]);
}

#[test]
fn empty_header_set() {
    assert!(outbound_headers(&vec![], None).is_empty());
    let out = outbound_headers(&vec![], Some(""));
    assert_eq!(pairs(&out), vec![("authorization".to_string(), b"Bearer ".to_vec())]);
}

#[test]
fn bearer_bytes_exact() {
    assert_eq!(bearer_bytes("s3cr3t"), b"Bearer s3cr3t".to_vec());
}

#[test]
fn header_names_compare_without_case() {
    assert!(name_matches("HoSt", "host"));
    assert!(!name_matches("hosts", "host"));
    assert!(!name_matches("x-host", "host"));
}

#[test]
fn rewrite_appends_path_and_query() {
    assert_eq!(rewrite_url("https://api.example.com", Some("/")), "https://api.example.com/");
    assert_eq!(rewrite_url("https://api.example.com", None), "https://api.example.com/");
    assert_eq!(
        rewrite_url("http://h:1", Some("/api/chat?x=1")),
        "http://h:1/api/chat?x=1"
    );
}

#[test]
fn rewrite_keeps_distinct_paths_distinct() {
    let a = rewrite_url("https://b", Some("/a?q=1"));
    let b = rewrite_url("https://b", Some("/a?q=2"));
    assert_ne!(a, b);
}

#[test]
fn config_scheme_check() {
    assert!(ProxyConfig::new("a".to_string(), "http://x".to_string(), None).is_ok());
    assert!(ProxyConfig::new("a".to_string(), "https://x".to_string(), None).is_ok());
    let e = ProxyConfig::new("a".to_string(), "ftp://x".to_string(), None);
    assert_eq!(e.err(), Some(ConfigError::InvalidRemoteScheme));
    assert!(!is_valid_remote_url("api.example.com"));
    assert!(!is_valid_remote_url("http:/x"));
}

#[test]
fn config_getters() {
    let c = ProxyConfig::new("127.0.0.1:1".to_string(), "http://r".to_string(), Some("k".to_string()))
        .unwrap();
    assert_eq!(c.local_addr(), "127.0.0.1:1");
    assert_eq!(c.remote_url(), "http://r");
    assert_eq!(c.api_key(), Some("k"));
}

#[test]
fn invalid_credential_is_build_error() {
    let cfg = ProxyConfig::new("a".to_string(), "https://x".to_string(), Some("bad\nkey".to_string()))
        .unwrap();
    let r = plan_request(&cfg, Some("/"), &vec![]);
    assert_eq!(r.err(), Some(ProxyOutcome::BuildError));
    assert_eq!(ProxyOutcome::BuildError.status_code(), 500);
}

#[test]
fn unparseable_url_is_build_error() {
    let cfg = ProxyConfig::new("a".to_string(), "https://x y".to_string(), None).unwrap();
    let r = plan_request(&cfg, Some("/"), &vec![]);
    assert_eq!(r.err(), Some(ProxyOutcome::BuildError));
}

#[test]
fn outcome_status_codes() {
    assert_eq!(ProxyOutcome::Relayed(201).status_code(), 201);
    assert_eq!(ProxyOutcome::UpstreamError.status_code(), 502);
    assert_eq!(ProxyOutcome::Timeout.status_code(), 504);
    assert_eq!(ProxyOutcome::BuildError.status_code(), 500);
    assert_eq!(ProxyOutcome::Timeout.error_body(), Some("Gateway Timeout".to_string()));
    assert_eq!(ProxyOutcome::UpstreamError.error_body(), Some("Bad Gateway".to_string()));
    assert_eq!(ProxyOutcome::Relayed(200).error_body(), None);
}

#[test]
fn classification_of_upstream_calls() {
    assert_eq!(classify(true, None), ProxyOutcome::Timeout);
    assert_eq!(classify(true, Some(200)), ProxyOutcome::Timeout);
    assert_eq!(classify(false, Some(404)), ProxyOutcome::Relayed(404));
    assert_eq!(classify(false, None), ProxyOutcome::UpstreamError);
    assert_eq!(classify(true, None).status_code(), 504);
    assert_eq!(REQUEST_TIMEOUT_SECS, 300);
}

#[test]
fn streaming_classification() {
    assert!(is_streaming_request("/api/chat"));
    assert!(is_streaming_request("/v1/api/generate/x"));
    assert!(!is_streaming_request("/api/tags"));
    assert!(!is_streaming_request(""));
    assert!(is_streaming_content_type("text/event-stream"));
    assert!(is_streaming_content_type("application/x-ndjson; stream"));
    assert!(!is_streaming_content_type("application/json"));
}

#[test]
fn text_helpers() {
    assert!(str_contains("abc", ""));
    assert!(str_contains("abc", "bc"));
    assert!(!str_contains("ab", "abc"));
    assert!(str_has_prefix("https://x", "https://"));
    assert!(!str_has_prefix("http", "http://"));
}

#[test]
fn account_name_strips_scheme_and_slashes() {
    assert_eq!(create_account_name("https://api.ollama.ai/"), "api-key-api.ollama.ai");
    assert_eq!(create_account_name("http://localhost:11434"), "api-key-localhost:11434");
    assert_eq!(create_account_name("http://http://h//"), "api-key-h");
    assert_eq!(create_account_name("127.0.0.1:11434"), "api-key-127.0.0.1:11434");
}

#[test]
fn long_account_name_is_hashed() {
    let id = "example.com/a/very/long/path/that/goes/on/and/on/and/on/for/ever";
    assert!(id.len() > 50);
    let mut hasher = DefaultHasher::new();
    id.hash(&mut hasher);
    let expected = format!("api-key-{}", hasher.finish());
    assert_eq!(create_account_name(&format!("https://{}/", id)), expected);
}

#[test]
fn keychain_is_disabled() {
    assert!(!is_keychain_enabled());
    assert_eq!(save_api_key("k", "https://x"), Err(KeychainError::NotEnabled));
    assert_eq!(get_api_key("https://x"), Err(KeychainError::NotEnabled));
    assert_eq!(delete_api_key("https://x"), Err(KeychainError::NotEnabled));
    assert_eq!(list_saved_urls(), Err(KeychainError::NotEnabled));
    assert!(!KeychainError::NotEnabled.message().is_empty());
}

#[test]
fn shutdown_lets_in_flight_request_finish() {
    let mut c = Coordinator::new();
    assert!(c.accept());
    c.signal();
    assert_eq!(c.phase(), Phase::Draining);
    assert!(!c.accept());
    assert_eq!(c.in_flight(), 1);
    assert!(c.finish());
    assert!(c.is_stopped());
}

#[test]
fn shutdown_idle_stops_at_once_and_second_signal_forces() {
    let mut c = Coordinator::new();
    c.signal();
    assert!(c.is_stopped());
    let mut d = Coordinator::new();
    assert!(d.accept());
    assert!(d.accept());
    d.signal();
    assert!(d.finish());
    assert_eq!(d.phase(), Phase::Draining);
    d.signal();
    assert!(d.is_stopped());
    let mut g = Coordinator::new();
    assert!(g.accept());
    g.signal();
    g.grace_elapsed();
    assert!(g.is_stopped());
    assert!(!Coordinator::new().finish());
}

#[test]
fn repeated_requests_plan_identically() {
    let cfg = ProxyConfig::new("a".to_string(), "https://x".to_string(), Some("k".to_string())).unwrap();
    let a = plan_request(&cfg, Some("/api/tags"), &vec![h("accept", "*/*")]).ok().unwrap();
    let b = plan_request(&cfg, Some("/api/tags"), &vec![h("accept", "*/*")]).ok().unwrap();
    assert_eq!(a.url, b.url);
    assert_eq!(pairs(&a.headers), pairs(&b.headers));
}

#[test]
fn configurable_path_markers() {
    let markers = vec!["/v1/stream".to_string(), "/events".to_string()];
    assert!(ollama_proxy::forward::path_has_marker("/v1/stream/abc", &markers));
    assert!(ollama_proxy::forward::path_has_marker("/x/events", &markers));
    assert!(!ollama_proxy::forward::path_has_marker("/api/chat", &markers));
    assert!(!ollama_proxy::forward::path_has_marker("/api/chat", &vec![]));
}
