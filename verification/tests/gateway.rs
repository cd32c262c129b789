use waveflow::attestation::{
    amount_to_i64, build_attestation, escrow_below_threshold, payout_amount, payout_columns,
    pr_number_key, program_status_from_db, submit_attestation,
};
use waveflow::config::{rpc_health_url, validate_gateway_config, AppConfig, ConfigNotice, ConfigVars};
use waveflow::error::WaveFlowError;
use waveflow::service::{admin_access, api_ready, gateway_ready, probe_status, AdminAccess};
use waveflow::types::ProgramStatus;
use waveflow::webhook::MergeAttestation;

fn vars() -> ConfigVars {
    ConfigVars {
        database_url: Some("postgres://localhost/waveflow".into()),
        github_webhook_secret: Some("secret".into()),
        soroban_rpc_url: None,
        network_passphrase: None,
        escrow_contract_id: None,
        gateway_secret_key: None,
        api_admin_keys: None,
        gateway_port: None,
        port: None,
        api_port: None,
        escrow_low_balance_threshold: None,
    }
}

fn merge() -> MergeAttestation {
    MergeAttestation {
        github_repo: "org/repo".into(),
        github_username: "alice".into(),
        pr_number: 42,
        points: 3,
    }
}

#[test]
fn error_maps_to_http_status() {
    let err = WaveFlowError::Unauthorized("nope".into());
    assert_eq!(err.http_status_code(), 401);
}

#[test]
fn error_statuses_and_messages() {
    assert_eq!(WaveFlowError::NotFound("x".into()).http_status_code(), 404);
    assert_eq!(WaveFlowError::Conflict("x".into()).http_status_code(), 409);
    assert_eq!(WaveFlowError::Database("x".into()).http_status_code(), 500);
    assert_eq!(WaveFlowError::Webhook("bad".into()).http_status_code(), 400);
    assert_eq!(WaveFlowError::Validation("PR not merged".into()).message(), "validation error: PR not merged");
}

#[test]
fn parses_admin_keys_from_comma_list() {
    let mut v = vars();
    v.api_admin_keys = Some("key-a, key-b".into());
    let cfg = AppConfig::from_vars(v).expect("config");
    assert_eq!(cfg.api_admin_keys, vec!["key-a", "key-b"]);
}

#[test]
fn config_defaults_and_requirements() {
    let cfg = AppConfig::from_vars(vars()).unwrap();
    assert_eq!(cfg.soroban_rpc_url, "https://soroban-testnet.stellar.org");
    assert_eq!(cfg.network_passphrase, "Test SDF Network ; September 2015");
    assert!(cfg.api_admin_keys.is_empty());
    assert_eq!(cfg.gateway_port, 8080);
    assert_eq!(cfg.api_port, 8081);
    assert_eq!(cfg.escrow_low_balance_threshold, 0);

    let mut v = vars();
    v.database_url = None;
    assert!(matches!(AppConfig::from_vars(v), Err(WaveFlowError::Config(ref m)) if m == "DATABASE_URL is required"));
    let mut v = vars();
    v.github_webhook_secret = None;
    assert!(matches!(AppConfig::from_vars(v), Err(WaveFlowError::Config(ref m)) if m == "GITHUB_WEBHOOK_SECRET is required"));
}

#[test]
fn config_ports_and_lists() {
    let mut v = vars();
    v.port = Some("9000".into());
    v.api_port = Some("+9001".into());
    v.api_admin_keys = Some(" , a ,,\tb\n,".into());
    v.escrow_low_balance_threshold = Some("250".into());
    let cfg = AppConfig::from_vars(v).unwrap();
    assert_eq!(cfg.gateway_port, 9000);
    assert_eq!(cfg.api_port, 9001);
    assert_eq!(cfg.api_admin_keys, vec!["a", "b"]);
    assert_eq!(cfg.escrow_low_balance_threshold, 250);

    // GATEWAY_PORT wins over PORT, even when it does not read as a port.
    let mut v = vars();
    v.gateway_port = Some("70000".into());
    v.port = Some("9000".into());
    v.api_port = Some("-1".into());
    let cfg = AppConfig::from_vars(v).unwrap();
    assert_eq!(cfg.gateway_port, 8080);
    assert_eq!(cfg.api_port, 8081);
}

#[test]
fn rejects_missing_api_key() {
    let keys = vec!["admin-key".to_string()];
    let access = admin_access(&keys, None);
    assert_eq!(access, AdminAccess::Denied);
    assert_eq!(access.status(), Some(401));
}

#[test]
fn admin_key_decisions() {
    let keys = vec!["admin-key".to_string(), "other".to_string()];
    assert_eq!(admin_access(&keys, Some("other")), AdminAccess::Granted);
    assert_eq!(admin_access(&keys, Some("admin")), AdminAccess::Denied);
    assert_eq!(admin_access(&vec![], Some("admin-key")), AdminAccess::NotConfigured);
    assert_eq!(AdminAccess::NotConfigured.status(), Some(500));
    assert_eq!(AdminAccess::Granted.status(), None);
}

#[test]
fn readiness_rules() {
    assert!(gateway_ready(true, "secret"));
    assert!(!gateway_ready(true, ""));
    assert!(!gateway_ready(false, "secret"));
    assert!(api_ready(true, &vec!["k".to_string()]));
    assert!(!api_ready(true, &vec![]));
    assert_eq!(probe_status(true), 200);
    assert_eq!(probe_status(false), 503);
}

#[test]
fn gateway_config_notices_in_order() {
    let cfg = AppConfig::from_vars(vars()).unwrap();
    assert_eq!(
        validate_gateway_config(&cfg),
        vec![ConfigNotice::RpcConfigured, ConfigNotice::ContractIdMissing, ConfigNotice::SecretKeyMissing]
    );
    let mut v = vars();
    v.github_webhook_secret = Some(String::new());
    v.soroban_rpc_url = Some(String::new());
    v.escrow_contract_id = Some("C123".into());
    let cfg = AppConfig::from_vars(v).unwrap();
    assert_eq!(
        validate_gateway_config(&cfg),
        vec![
            ConfigNotice::EmptyWebhookSecret,
            ConfigNotice::ContractIdWithoutSecretKey,
            ConfigNotice::RpcUrlEmpty,
            ConfigNotice::SecretKeyMissing
        ]
    );
}

#[test]
fn rpc_health_url_strips_trailing_slashes() {
    assert_eq!(rpc_health_url(""), None);
    assert_eq!(rpc_health_url("https://rpc.example//").as_deref(), Some("https://rpc.example/health"));
    assert_eq!(rpc_health_url("http://x").as_deref(), Some("http://x/health"));
}

#[test]
fn attestation_and_submission_reference() {
    let a = build_attestation(7, &merge());
    assert_eq!(a.program_id, 7);
    assert_eq!(a.github_username, "alice");
    assert_eq!(a.pr_number, 42);
    assert_eq!(a.points, 3);
    assert_eq!(submit_attestation("http://rpc", None, None, &a).unwrap(), "dry-run-7-42");
    assert_eq!(submit_attestation("http://rpc", Some("C1"), None, &a).unwrap(), "dry-run-7-42");
    assert_eq!(
        submit_attestation("http://rpc", Some("C1"), Some("S1"), &a).unwrap(),
        "simulated-tx-7-42"
    );
    let big = build_attestation(u64::MAX, &merge());
    assert_eq!(submit_attestation("", None, None, &big).unwrap(), "dry-run-18446744073709551615-42");
    let zero = build_attestation(0, &merge());
    assert_eq!(submit_attestation("", None, None, &zero).unwrap(), "dry-run-0-42");
}

#[test]
fn payout_row_conversions() {
    assert_eq!(amount_to_i64(300).ok(), Some(300));
    assert!(matches!(amount_to_i64(i64::MAX as i128 + 1), Err(WaveFlowError::Internal(ref m)) if m == "amount overflow"));
    assert_eq!(pr_number_key(5), 5);
    assert_eq!(pr_number_key(u64::MAX), i64::MAX);
    let c = payout_columns(&merge(), 300).ok().unwrap();
    assert_eq!((c.pr_number, c.points, c.amount), (42, 3, 300));
    let mut m = merge();
    m.points = u32::MAX;
    assert_eq!(payout_columns(&m, 1).ok().unwrap().points, 1);
    m.pr_number = u64::MAX;
    assert!(matches!(payout_columns(&m, 1), Err(WaveFlowError::Internal(ref s)) if s == "pr_number overflow"));
    assert_eq!(payout_amount(3, 100), 300);
    assert_eq!(payout_amount(u32::MAX, i64::MAX), (u32::MAX as i128) * (i64::MAX as i128));
}

#[test]
fn escrow_alert_rules() {
    assert!(escrow_below_threshold(10, 100));
    assert!(!escrow_below_threshold(100, 100));
    assert!(!escrow_below_threshold(-5, 0));
    assert_eq!(program_status_from_db("paused"), ProgramStatus::Paused);
    assert_eq!(program_status_from_db("active"), ProgramStatus::Active);
    assert_eq!(program_status_from_db("Paused"), ProgramStatus::Active);
}
