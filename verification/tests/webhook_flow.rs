// Runs the webhook state machine against a scripted host: each action the flow
// asks for is answered from a table, and the actions are kept for inspection.
use hmac::{Hmac, Mac};
use sha2::Sha256;
use waveflow::config::{AppConfig, ConfigVars};
use waveflow::error::WaveFlowError;
use waveflow::types::{
    GitHubLabel, GitHubPullRequest, GitHubPullRequestEvent, GitHubRef, GitHubRepository, GitHubUser,
};
use waveflow::webhook_flow::{
    EventStatus, PayloadFacts, PayloadKind, ResponseBody, WebhookAction, WebhookEvent,
    WebhookFlow, WebhookRequest, WebhookResponse,
};

const SECRET: &str = "hook-secret";
const BODY: &[u8] = br#"{"action":"closed","number":101}"#;

fn config(chain: bool) -> AppConfig {
    AppConfig::from_vars(ConfigVars {
        database_url: Some("postgres://localhost/waveflow".into()),
        github_webhook_secret: Some(SECRET.into()),
        soroban_rpc_url: None,
        network_passphrase: None,
        escrow_contract_id: if chain { Some("CCONTRACT".into()) } else { None },
        gateway_secret_key: if chain { Some("SKEY".into()) } else { None },
        api_admin_keys: None,
        gateway_port: None,
        port: None,
        api_port: None,
        escrow_low_balance_threshold: Some("500".into()),
    })
    .unwrap()
}

fn signature(body: &[u8]) -> String {
    let mut mac = Hmac::<Sha256>::new_from_slice(SECRET.as_bytes()).unwrap();
    mac.update(body);
    format!("sha256={}", hex::encode(mac.finalize().into_bytes()))
}

fn pr_event(action: &str, merged: bool) -> GitHubPullRequestEvent {
    GitHubPullRequestEvent {
        action: action.into(),
        number: 101,
        pull_request: GitHubPullRequest {
            merged,
            user: GitHubUser { login: "alice".into() },
            base: GitHubRef { ref_name: "main".into() },
            labels: vec![GitHubLabel { name: "complexity:medium".into() }],
        },
        repository: GitHubRepository {
            full_name: "org/repo".into(),
            default_branch: "main".into(),
        },
    }
}

/// What the scripted host answers.
struct Host {
    seen: bool,
    claim_fails: bool,
    json_ok: bool,
    pr: Option<GitHubPullRequestEvent>,
    program: Option<(u128, u64)>,
    status: &'static str,
    payout_exists: bool,
    contributor: Option<&'static str>,
    reward: i64,
    persist_fails: bool,
}

impl Host {
    fn happy() -> Host {
        Host {
            seen: false,
            claim_fails: false,
            json_ok: true,
            pr: Some(pr_event("closed", true)),
            program: Some((77, 5)),
            status: "active",
            payout_exists: false,
            contributor: Some("GADDRESS"),
            reward: 100,
            persist_fails: false,
        }
    }

    fn answer(&mut self, action: &WebhookAction) -> WebhookEvent {
        match action {
            WebhookAction::RecordEvent(_) => WebhookEvent::EventRecorded(Ok(())),
            WebhookAction::CheckDeliverySeen { .. } => WebhookEvent::DeliverySeen(self.seen),
            WebhookAction::ClaimDelivery { delivery_id, .. } => WebhookEvent::DeliveryClaimed(
                if self.claim_fails {
                    Err(WaveFlowError::Conflict(format!("duplicate delivery {delivery_id}")))
                } else {
                    Ok(())
                },
            ),
            WebhookAction::ParseBody => WebhookEvent::BodyParsed(if self.json_ok {
                Ok(PayloadFacts { github_repo: Some("org/repo".into()), pr_number: Some(101) })
            } else {
                Err("expected value at line 1 column 1".into())
            }),
            WebhookAction::DecodePullRequest => WebhookEvent::PullRequestDecoded(
                self.pr.take().ok_or_else(|| "missing field `action`".to_string()),
            ),
            WebhookAction::ResolveProgram { .. } => WebhookEvent::ProgramResolved(
                self.program.ok_or_else(|| WaveFlowError::NotFound("no active program for repo org/repo".into())),
            ),
            WebhookAction::LoadProgramStatus { .. } => {
                WebhookEvent::ProgramStatusLoaded(Ok(self.status.to_string()))
            }
            WebhookAction::CheckPayoutExists { .. } => WebhookEvent::PayoutChecked(Ok(self.payout_exists)),
            WebhookAction::FetchPayoutId { .. } => WebhookEvent::PayoutIdFetched(Ok(Some(555))),
            WebhookAction::ResolveContributor { .. } => WebhookEvent::ContributorResolved(
                self.contributor
                    .map(|a| a.to_string())
                    .ok_or_else(|| WaveFlowError::NotFound("contributor alice not registered".into())),
            ),
            WebhookAction::LoadRewardPerPoint { .. } => WebhookEvent::RewardLoaded(Ok(self.reward)),
            WebhookAction::PersistPayout { .. } => WebhookEvent::PayoutPersisted(if self.persist_fails {
                Err(WaveFlowError::Database("connection reset".into()))
            } else {
                Ok(999)
            }),
            WebhookAction::IncrementMilestoneSpent { .. } => WebhookEvent::MilestoneUpdated(Ok(())),
            WebhookAction::CheckEscrowAlert { .. } => WebhookEvent::AlertChecked(Ok(())),
            WebhookAction::Respond(_) => panic!("a response is not answered"),
        }
    }
}

fn run(cfg: &AppConfig, request: WebhookRequest, body: &[u8], host: &mut Host) -> (WebhookResponse, Vec<WebhookAction>) {
    let (mut flow, mut action) = WebhookFlow::start(cfg, request, body);
    let mut actions = Vec::new();
    for _ in 0..20 {
        if let WebhookAction::Respond(resp) = action {
            assert!(flow.is_finished());
            return (resp, actions);
        }
        let event = host.answer(&action);
        assert!(flow.accepts(&event));
        actions.push(action);
        let (next, next_action) = flow.step(event);
        flow = next;
        action = next_action;
    }
    panic!("the flow did not answer");
}

fn request(sig: Option<String>, event: &str, delivery: Option<&str>) -> WebhookRequest {
    WebhookRequest {
        signature: sig,
        event_type: Some(event.into()),
        delivery_id: delivery.map(|d| d.to_string()),
    }
}

#[test]
fn merged_pr_is_paid_and_recorded() {
    let mut host = Host::happy();
    let (resp, actions) = run(&config(false), request(Some(signature(BODY)), "pull_request", Some("d-1")), BODY, &mut host);
    assert_eq!(resp.status, 200);
    match resp.body {
        ResponseBody::Processed { payout_id, tx_hash, program_id } => {
            assert_eq!(payout_id, 999);
            assert_eq!(tx_hash, "dry-run-5-101");
            assert_eq!(program_id, 77);
        }
        other => panic!("unexpected body {other:?}"),
    }
    let persisted = actions.iter().find_map(|a| match a {
        WebhookAction::PersistPayout { amount, stellar_address, merge, .. } => Some((*amount, stellar_address.clone(), merge.points)),
        _ => None,
    });
    assert_eq!(persisted, Some((300, "GADDRESS".to_string(), 3)));
    match actions.last().unwrap() {
        WebhookAction::RecordEvent(rec) => {
            assert_eq!(rec.status, EventStatus::Processed);
            assert_eq!(rec.github_repo, "org/repo");
            assert_eq!(rec.pr_number, Some(101));
        }
        other => panic!("unexpected action {other:?}"),
    }
}

#[test]
fn chain_configured_submission_reference() {
    let mut host = Host::happy();
    let (resp, _) = run(&config(true), request(Some(signature(BODY)), "pull_request", None), BODY, &mut host);
    match resp.body {
        ResponseBody::Processed { tx_hash, .. } => assert_eq!(tx_hash, "simulated-tx-5-101"),
        other => panic!("unexpected body {other:?}"),
    }
}

#[test]
fn bad_signature_is_recorded_and_refused() {
    let mut host = Host::happy();
    let (resp, actions) = run(&config(false), request(Some("sha256=00".into()), "pull_request", Some("d-2")), BODY, &mut host);
    assert_eq!(resp.status, 401);
    assert_eq!(actions.len(), 1);
    match &actions[0] {
        WebhookAction::RecordEvent(rec) => {
            assert_eq!(rec.status, EventStatus::Rejected);
            assert_eq!(rec.payload, PayloadKind::RawBody);
            assert_eq!(rec.error_message.as_deref(), Some("invalid webhook signature"));
        }
        other => panic!("unexpected action {other:?}"),
    }
    let (resp, _) = run(&config(false), request(None, "pull_request", None), BODY, &mut Host::happy());
    assert_eq!(resp.status, 400);
}

#[test]
fn duplicate_delivery_is_answered_without_processing() {
    let mut host = Host::happy();
    host.seen = true;
    let (resp, actions) = run(&config(false), request(Some(signature(BODY)), "pull_request", Some("d-3")), BODY, &mut host);
    assert_eq!(resp.status, 200);
    assert!(matches!(resp.body, ResponseBody::DuplicateDelivery { ref delivery_id } if delivery_id == "d-3"));
    assert_eq!(actions.len(), 1);
}

#[test]
fn failed_claim_and_bad_json_are_errors() {
    let mut host = Host::happy();
    host.claim_fails = true;
    let (resp, _) = run(&config(false), request(Some(signature(BODY)), "pull_request", Some("d-4")), BODY, &mut host);
    assert_eq!(resp.status, 409);
    let mut host = Host::happy();
    host.json_ok = false;
    let (resp, _) = run(&config(false), request(Some(signature(BODY)), "pull_request", None), BODY, &mut host);
    assert_eq!(resp.status, 400);
    assert!(matches!(resp.body, ResponseBody::Error { ref message } if message == "webhook error: invalid JSON: expected value at line 1 column 1"));
}

#[test]
fn other_events_are_ignored() {
    let (resp, actions) = run(&config(false), request(Some(signature(BODY)), "push", None), BODY, &mut Host::happy());
    assert_eq!(resp.status, 200);
    assert!(matches!(resp.body, ResponseBody::Ignored));
    assert!(matches!(actions.last(), Some(WebhookAction::RecordEvent(rec)) if rec.status == EventStatus::Ignored));
}

#[test]
fn unmerged_pr_and_paused_program_are_ignored() {
    let mut host = Host::happy();
    host.pr = Some(pr_event("closed", false));
    let (resp, _) = run(&config(false), request(Some(signature(BODY)), "pull_request", None), BODY, &mut host);
    assert_eq!(resp.status, 200);
    assert!(matches!(resp.body, ResponseBody::IgnoredBecause { ref reason } if reason == "validation error: PR not merged"));

    let mut host = Host::happy();
    host.status = "paused";
    let (resp, actions) = run(&config(false), request(Some(signature(BODY)), "pull_request", None), BODY, &mut host);
    assert!(matches!(resp.body, ResponseBody::IgnoredBecause { ref reason } if reason == "validation error: program is paused"));
    assert!(!actions.iter().any(|a| matches!(a, WebhookAction::PersistPayout { .. })));
}

#[test]
fn already_processed_pr_is_not_paid_again() {
    let mut host = Host::happy();
    host.payout_exists = true;
    let (resp, actions) = run(&config(false), request(Some(signature(BODY)), "pull_request", None), BODY, &mut host);
    assert_eq!(resp.status, 200);
    assert!(matches!(resp.body, ResponseBody::AlreadyProcessed { payout_id: Some(555), program_id: 77, pr_number: 101 }));
    assert!(!actions.iter().any(|a| matches!(a, WebhookAction::PersistPayout { .. })));
}

#[test]
fn missing_contributor_and_failed_persist_are_recorded_failures() {
    let mut host = Host::happy();
    host.contributor = None;
    let (resp, actions) = run(&config(false), request(Some(signature(BODY)), "pull_request", None), BODY, &mut host);
    assert_eq!(resp.status, 404);
    assert!(matches!(actions.last(), Some(WebhookAction::RecordEvent(rec)) if rec.status == EventStatus::Failed));

    let mut host = Host::happy();
    host.persist_fails = true;
    let (resp, _) = run(&config(false), request(Some(signature(BODY)), "pull_request", None), BODY, &mut host);
    assert_eq!(resp.status, 500);
    assert!(matches!(resp.body, ResponseBody::Error { ref message } if message == "database error: connection reset"));
}

#[test]
fn undecodable_pull_request_is_an_error() {
    let mut host = Host::happy();
    host.pr = None;
    let (resp, _) = run(&config(false), request(Some(signature(BODY)), "pull_request", None), BODY, &mut host);
    assert_eq!(resp.status, 400);
    assert!(matches!(resp.body, ResponseBody::Error { ref message } if message == "webhook error: invalid pull_request payload: missing field `action`"));
}
