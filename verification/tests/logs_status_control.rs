use mcpproxy::config::AppConfig;
use mcpproxy::control::{plan_save, plan_start, tray_action, SaveSteps, StartStep, TrayAction};
use mcpproxy::error::ProxyError;
use mcpproxy::logs::{format_log_line, log_file_name, should_write_log_file, RecentLogs};
use mcpproxy::paths::{resolve_maybe_relative, resolve_path};
use mcpproxy::probe::{
    plan_connection_test, test_result_for_failure, test_result_for_status, test_result_from_reason,
};
use mcpproxy::status::status_from_config;

#[test]
fn recent_logs_keep_the_last_200() {
    let mut logs = RecentLogs::new();
    assert!(logs.lines().is_empty());
    for i in 0..250 {
        logs.push(format!("line {i}"));
    }
    let lines = logs.lines();
    assert_eq!(lines.len(), 200);
    assert_eq!(lines[0], "line 50");
    assert_eq!(lines[199], "line 249");
}

#[test]
fn log_lines_and_files() {
    assert_eq!(
        format_log_line("2024-01-02 03:04:05", "INFO", "proxy stopped"),
        "2024-01-02 03:04:05 [INFO] proxy stopped"
    );
    assert_eq!(log_file_name("2024-01-02"), "mcpproxy-2024-01-02.log");
}

#[test]
fn errors_are_always_written_to_file() {
    assert!(should_write_log_file("ERROR", false));
    assert!(should_write_log_file("ERROR", true));
    assert!(!should_write_log_file("INFO", false));
    assert!(!should_write_log_file("DEBUG", false));
    assert!(should_write_log_file("INFO", true));
    assert!(should_write_log_file("DEBUG", true));
}

#[test]
fn status_reports_urls() {
    let c = AppConfig::default();
    let s = status_from_config(&c, true, vec!["a".to_string()]);
    assert!(s.running);
    assert_eq!(s.bind_url, "http://0.0.0.0:23333");
    assert_eq!(s.public_sse_url, "http://172.21.112.1:23333/sse");
    assert_eq!(s.public_stream_url, "http://172.21.112.1:23333/stream");
    assert_eq!(s.upstream_sse_url, "http://127.0.0.1:64342/sse");
    assert_eq!(s.upstream_stream_url, "http://127.0.0.1:64342/stream");
    assert_eq!(s.recent_logs, vec!["a".to_string()]);
}

#[test]
fn connection_test_targets() {
    let c = AppConfig::default();
    let t = plan_connection_test(&c, "SSE", "upstream").unwrap();
    assert_eq!(t.transport, "sse");
    assert_eq!(t.url, "http://127.0.0.1:64342/sse");
    assert!(!t.post_initialize);
    let t = plan_connection_test(&c, "stream", "proxy").unwrap();
    assert_eq!(t.transport, "streamable-http");
    assert_eq!(t.url, "http://127.0.0.1:23333/stream");
    assert!(t.post_initialize);
    let err = plan_connection_test(&c, "grpc", "proxy").unwrap_err();
    assert!(matches!(err, ProxyError::UnsupportedTransport { .. }));
}

#[test]
fn connection_test_results() {
    let c = AppConfig::default();
    let t = plan_connection_test(&c, "sse", "upstream").unwrap();
    let ok = test_result_for_status(&t, 200);
    assert!(ok.ok);
    assert_eq!(ok.status, Some(200));
    assert_eq!(ok.message, "sse upstream connection OK: http://127.0.0.1:64342/sse");
    let nf = test_result_for_status(&t, 404);
    assert!(!nf.ok);
    assert_eq!(nf.message, "sse upstream returned HTTP 404 Not Found: http://127.0.0.1:64342/sse");
    let odd = test_result_for_status(&t, 599);
    assert_eq!(
        odd.message,
        "sse upstream returned HTTP 599 <unknown status code>: http://127.0.0.1:64342/sse"
    );
    let given = test_result_from_reason(&t, 502, Some("Bad Gateway"));
    assert_eq!(given.message, "sse upstream returned HTTP 502 Bad Gateway: http://127.0.0.1:64342/sse");
    let failed = test_result_for_failure(&t, "connection refused");
    assert!(!failed.ok);
    assert_eq!(failed.status, None);
    assert_eq!(failed.message, "sse upstream failed: connection refused");
}

#[test]
fn start_and_save_plans() {
    let c = AppConfig::default();
    assert_eq!(plan_start(&c, true, None).unwrap(), StartStep::AlreadyRunning);
    assert_eq!(plan_start(&c, false, None).unwrap(), StartStep::Listen);
    let mut bad = AppConfig::default();
    bad.listen_port = 0;
    assert_eq!(plan_start(&bad, true, None).unwrap(), StartStep::AlreadyRunning);
    assert!(matches!(plan_start(&bad, false, None), Err(ProxyError::ZeroPort)));
    assert_eq!(
        plan_save(&c, true, None).unwrap(),
        SaveSteps { stop_first: true, restart_after: true }
    );
    assert_eq!(
        plan_save(&c, false, None).unwrap(),
        SaveSteps { stop_first: false, restart_after: false }
    );
    assert!(plan_save(&bad, true, None).is_err());
}

#[test]
fn tray_menu_actions() {
    assert_eq!(tray_action("show", false), TrayAction::ShowWindow);
    assert_eq!(tray_action("toggle", true), TrayAction::StopProxy);
    assert_eq!(tray_action("toggle", false), TrayAction::StartProxy);
    assert_eq!(tray_action("quit", true), TrayAction::Quit);
    assert_eq!(tray_action("other", true), TrayAction::Nothing);
}

#[test]
fn log_dir_resolution() {
    let cwd = std::path::PathBuf::from("/work");
    assert_eq!(resolve_maybe_relative(&cwd, "logs"), std::path::PathBuf::from("/work/logs"));
    assert_eq!(resolve_maybe_relative(&cwd, "/var/log/x"), std::path::PathBuf::from("/var/log/x"));
    assert_eq!(resolve_maybe_relative(&cwd, ".."), std::path::PathBuf::from("/work/.."));
    assert_eq!(resolve_maybe_relative(&cwd, "a/b"), std::path::PathBuf::from("/work/a/b"));
    let slash = std::path::PathBuf::from("/work/");
    assert_eq!(resolve_maybe_relative(&slash, "logs"), std::path::PathBuf::from("/work/logs"));
    let empty = std::path::PathBuf::from("");
    assert_eq!(resolve_maybe_relative(&empty, "logs"), std::path::PathBuf::from("logs"));
}

#[test]
fn resolve_path_follows_the_given_judgement() {
    let cwd = std::path::PathBuf::from("/work");
    assert_eq!(resolve_path(&cwd, "/var/log", true), std::path::PathBuf::from("/var/log"));
    assert_eq!(resolve_path(&cwd, "logs", false), std::path::PathBuf::from("/work/logs"));
    assert_eq!(resolve_path(&cwd, "/var/log", false), std::path::PathBuf::from("/var/log"));
}

#[test]
fn rooted_log_dir_is_kept() {
    let root = std::path::PathBuf::from("/");
    assert_eq!(resolve_maybe_relative(&root, "/var/log"), std::path::PathBuf::from("/var/log"));
    let empty = std::path::PathBuf::from("");
    assert_eq!(resolve_maybe_relative(&empty, "/var/log"), std::path::PathBuf::from("/var/log"));
}
