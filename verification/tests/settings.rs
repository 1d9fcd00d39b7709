//! Settings, the transport's own reports, and the text routines.

use std::path::PathBuf;

use animus_transport_http::backend::{
    bind_failure_message, bound_address, health_report, transport_schema, HealthStatus, Lifecycle,
};
use animus_transport_http::config::{HttpTransportSettings, TransportConfig};
use animus_transport_http::server::{cors_allowed_headers, cors_allowed_methods, origin_allowed, routes, CorsMethod, Operation};
use animus_transport_http::text::{i64_to_decimal, is_blank, str_eq, str_starts_with, u64_to_decimal};

fn config(bind_addr: Option<&str>) -> TransportConfig {
    TransportConfig {
        bind_addr: bind_addr.map(|s| s.to_string()),
        control_socket_path: PathBuf::from("/tmp/animus.sock"),
        project_root: PathBuf::from("/work/project"),
    }
}

#[test]
fn bind_addr_defaults_to_local_8080() {
    let s = HttpTransportSettings::from_config(&config(None));
    assert_eq!(s.bind_addr, "127.0.0.1:8080");
    assert_eq!(s.bind_addr, HttpTransportSettings::DEFAULT_BIND_ADDR);
    assert_eq!(s.control_socket_path, PathBuf::from("/tmp/animus.sock"));
    assert_eq!(s.project_root, PathBuf::from("/work/project"));
}

#[test]
fn configured_bind_addr_is_kept() {
    let s = HttpTransportSettings::from_config(&config(Some("0.0.0.0:9000")));
    assert_eq!(s.bind_addr, "0.0.0.0:9000");
}

#[test]
fn health_follows_whether_the_server_runs() {
    let stopped = health_report(None);
    assert!(matches!(stopped.status, HealthStatus::Unknown));
    assert_eq!(stopped.uptime_ms, None);
    let running = health_report(Some(1500));
    assert!(matches!(running.status, HealthStatus::Healthy));
    assert_eq!(running.uptime_ms, Some(1500));
    let skewed = health_report(Some(-40));
    assert_eq!(skewed.uptime_ms, Some(0));
    assert!(skewed.memory_usage_bytes.is_none() && skewed.last_error.is_none());
}

#[test]
fn schema_describes_unary_http() {
    let s = transport_schema();
    assert_eq!(s.kinds, vec!["http".to_string(), "rest".to_string()]);
    assert!(!s.supports_streaming);
    assert!(!s.supports_websocket);
    assert_eq!(s.default_port, Some(8080));
}

#[test]
fn bound_address_prefers_the_listener() {
    let configured = "127.0.0.1:0".to_string();
    assert_eq!(bound_address(Some("127.0.0.1:40123".to_string()), &configured), "127.0.0.1:40123");
    assert_eq!(bound_address(None, &configured), "127.0.0.1:0");
    assert_eq!(bind_failure_message("127.0.0.1:80", "permission denied"), "failed to bind 127.0.0.1:80: permission denied");
}

#[test]
fn local_origins_only() {
    assert!(origin_allowed(Some("http://localhost:3000")));
    assert!(origin_allowed(Some("http://127.0.0.1")));
    assert!(origin_allowed(Some("http://localhost.evil.example")));
    assert!(!origin_allowed(Some("https://localhost")));
    assert!(!origin_allowed(Some("http://example.com")));
    assert!(!origin_allowed(None));
}

#[test]
fn route_table_has_no_duplicates() {
    let table = routes();
    assert_eq!(table.len(), 36);
    for (i, a) in table.iter().enumerate() {
        for b in table.iter().skip(i + 1) {
            assert!(a != b);
            assert!(a.method() != b.method() || a.path() != b.path());
        }
    }
}

#[test]
fn every_route_but_clearing_logs_calls_the_daemon() {
    for op in routes() {
        assert_eq!(op.control_method().is_none(), op == Operation::DaemonClearLogs);
    }
    assert_eq!(Operation::SubjectCall.control_method(), Some("plugin/call"));
    assert_eq!(Operation::SubjectNext.control_method(), Some("subject/next"));
}

#[test]
fn text_routines() {
    assert!(is_blank("  \t\r\n"));
    assert!(is_blank("\u{a0}\u{3000}"));
    assert!(is_blank(""));
    assert!(!is_blank(" x "));
    assert!(str_eq("abc", "abc"));
    assert!(!str_eq("abc", "abd"));
    assert!(str_starts_with("http://localhost", "http://"));
    assert!(!str_starts_with("http", "http://"));
    assert_eq!(u64_to_decimal(0), "0");
    assert_eq!(u64_to_decimal(u64::MAX), "18446744073709551615");
    assert_eq!(i64_to_decimal(-32601), "-32601");
    assert_eq!(i64_to_decimal(i64::MIN), "-9223372036854775808");
}

#[test]
fn lifecycle_start_and_shutdown() {
    let mut l: Lifecycle<u32, i64> = Lifecycle::new();
    assert!(matches!(l.health(Some(5)).status, HealthStatus::Unknown));
    assert_eq!(l.health(Some(5)).uptime_ms, None);
    assert_eq!(l.on_started(7, "127.0.0.1:8080".to_string(), 1000), None);
    assert_eq!(l.bound_addr().map(|s| s.as_str()), Some("127.0.0.1:8080"));
    assert_eq!(l.started_at(), Some(&1000));
    let h = l.health(Some(250));
    assert!(matches!(h.status, HealthStatus::Healthy));
    assert_eq!(h.uptime_ms, Some(250));
    assert_eq!(l.on_started(8, "127.0.0.1:9090".to_string(), 2000), Some(7));
    assert_eq!(l.on_shutdown(), Some(8));
    assert_eq!(l.bound_addr(), None);
    assert_eq!(l.started_at(), None);
    assert!(matches!(l.health(Some(1)).status, HealthStatus::Unknown));
    assert_eq!(l.on_shutdown(), None);
}

#[test]
fn cors_preflight_lists() {
    assert_eq!(
        cors_allowed_methods(),
        vec![CorsMethod::Get, CorsMethod::Post, CorsMethod::Delete, CorsMethod::Options]
    );
    assert_eq!(cors_allowed_headers(), vec!["content-type", "authorization"]);
}

#[test]
fn failed_bind_leaves_the_running_server_alone() {
    let mut l: Lifecycle<u32, i64> = Lifecycle::new();
    assert_eq!(l.record_start("127.0.0.1:8080", Ok((1, "127.0.0.1:8080".to_string(), 10))), Ok(None));
    let r = l.record_start("127.0.0.1:8080", Err("address in use".to_string()));
    assert_eq!(r, Err("failed to bind 127.0.0.1:8080: address in use".to_string()));
    assert_eq!(l.bound_addr().map(|s| s.as_str()), Some("127.0.0.1:8080"));
    assert_eq!(l.started_at(), Some(&10));
    assert!(matches!(l.health(Some(3)).status, HealthStatus::Healthy));
    assert_eq!(l.on_shutdown(), Some(1));
}
