use agentbox_core::runtime::WasmSession;
use agentbox_core::{fuel_for, Sandbox, SandboxConfig, FUEL_PER_MS};

#[test]
fn test_io_creation() {
    let _session = WasmSession::new(Some(1024), "print('hello')");
}

#[test]
fn memory_growth_beyond_ceiling_is_denied() {
    let session = WasmSession::new(Some(1024), "print('hello')");
    assert!(!session.memory_growing(0, 2048, None));
    assert!(session.memory_growing(0, 1024, None));
    assert!(session.table_growing(0, 1_000_000, None));
}

#[test]
fn memory_limit_converts_to_bytes() {
    let config = SandboxConfig::new(Some(1), None);
    assert_eq!(config.memory_limit_bytes(), Some(1048576));
    let unlimited = SandboxConfig::new(None, None);
    assert_eq!(unlimited.memory_limit_bytes(), None);
}

#[test]
fn budget_policy_values() {
    assert_eq!(FUEL_PER_MS, 1000);
    assert_eq!(fuel_for(Some(100)), 100_000);
    assert_eq!(fuel_for(Some(10000)), 10_000_000);
    assert_eq!(fuel_for(None), u64::MAX);
    assert_eq!(fuel_for(Some(u64::MAX)), u64::MAX);
}

#[test]
fn budget_is_monotone_in_timeout() {
    assert!(fuel_for(Some(10)) <= fuel_for(Some(20)));
    assert!(fuel_for(Some(20)) <= fuel_for(None));
}

#[test]
fn run_with_default_config_returns_a_string() {
    let sandbox = Sandbox::new(None).unwrap();
    let out = sandbox.run("anything".to_string()).unwrap();
    assert_eq!(out, "anything");
}

#[test]
fn run_echoes_ascii_snippet() {
    let sandbox = Sandbox::new(None).unwrap();
    let snippet = "print('hello')\nprint('world')\n";
    let out = sandbox.run(snippet.to_string()).unwrap();
    assert_eq!(out, snippet);
}

#[test]
fn consecutive_runs_are_isolated() {
    let sandbox = Sandbox::new(None).unwrap();
    let first = sandbox.run("same input".to_string()).unwrap();
    let second = sandbox.run("same input".to_string()).unwrap();
    assert_eq!(first, "same input");
    assert_eq!(second, "same input");
}

#[test]
fn bounded_run_terminates_and_returns() {
    let config = SandboxConfig::new(Some(1), Some(100));
    let sandbox = Sandbox::new(Some(config)).unwrap();
    let out = sandbox.run("loop forever".to_string()).unwrap();
    assert_eq!(out, "loop forever");
}

#[test]
fn config_is_kept_by_the_sandbox() {
    let config = SandboxConfig::new(Some(64), Some(250));
    let sandbox = Sandbox::new(Some(config)).unwrap();
    let got = sandbox.config();
    assert_eq!(got.memory_limit_mb, Some(64));
    assert_eq!(got.timeout_ms, Some(250));
    let defaulted = Sandbox::new(None).unwrap().config();
    assert_eq!(defaulted.memory_limit_mb, Some(512));
    assert_eq!(defaulted.timeout_ms, Some(10000));
}

#[test]
fn empty_snippet_yields_empty_output() {
    let sandbox = Sandbox::new(None).unwrap();
    let out = sandbox.run(String::new()).unwrap();
    assert_eq!(out, "");
}
