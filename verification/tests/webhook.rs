use hmac::{Hmac, Mac};
use sha2::Sha256;
use waveflow::error::WaveFlowError;
use waveflow::types::{
    GitHubLabel, GitHubPullRequest, GitHubPullRequestEvent, GitHubRef, GitHubRepository, GitHubUser,
};
use waveflow::webhook::{label_to_points, parse_merge_event, verify_github_signature};

type HmacSha256 = Hmac<Sha256>;

fn sample_event(merged: bool, base_ref: &str, default_branch: &str) -> GitHubPullRequestEvent {
    GitHubPullRequestEvent {
        action: "closed".into(),
        number: 101,
        pull_request: GitHubPullRequest {
            merged,
            user: GitHubUser { login: "alice".into() },
            base: GitHubRef { ref_name: base_ref.into() },
            labels: vec![],
        },
        repository: GitHubRepository {
            full_name: "StellarRoute/WaveFlow".into(),
            default_branch: default_branch.into(),
        },
    }
}

fn signature_for(secret: &str, body: &[u8]) -> String {
    let mut mac = HmacSha256::new_from_slice(secret.as_bytes()).unwrap();
    mac.update(body);
    format!("sha256={}", hex::encode(mac.finalize().into_bytes()))
}

#[test]
fn verify_github_signature_accepts_valid_digest() {
    let secret = "test-secret";
    let body = br#"{"action":"closed"}"#;
    let sig = signature_for(secret, body);
    verify_github_signature(secret, body, &sig).expect("valid signature");
}

#[test]
fn verify_github_signature_rejects_invalid_digest() {
    let err = verify_github_signature("secret", b"{}", "sha256=deadbeef").unwrap_err();
    assert!(matches!(err, WaveFlowError::Unauthorized(_)));
}

#[test]
fn verify_github_signature_rejects_missing_sha256_prefix() {
    let err = verify_github_signature("secret", b"{}", "deadbeef").unwrap_err();
    assert!(matches!(err, WaveFlowError::Webhook(_)));
}

#[test]
fn verify_github_signature_rejects_bad_hex() {
    let err = verify_github_signature("secret", b"{}", "sha256=xyz").unwrap_err();
    assert!(matches!(err, WaveFlowError::Webhook(ref m) if m == "invalid signature hex"));
    let err = verify_github_signature("secret", b"{}", "sha256=abc").unwrap_err();
    assert!(matches!(err, WaveFlowError::Webhook(ref m) if m == "invalid signature hex"));
}

#[test]
fn verify_github_signature_rejects_other_body_and_accepts_upper_hex() {
    let secret = "s3cret";
    let sig = signature_for(secret, b"payload");
    assert!(verify_github_signature(secret, b"payload!", &sig).is_err());
    assert!(verify_github_signature("other", b"payload", &sig).is_err());
    let upper = format!("sha256={}", sig["sha256=".len()..].to_uppercase());
    assert!(verify_github_signature(secret, b"payload", &upper).is_ok());
}

#[test]
fn verify_github_signature_known_vector() {
    // RFC 4231 test case 2: key "Jefe", data "what do ya want for nothing?".
    let sig = "sha256=5bdcc146bf60754e6a042426089575c75a003f089d2739839dec58b964ec3843";
    assert!(verify_github_signature("Jefe", b"what do ya want for nothing?", sig).is_ok());
}

#[test]
fn parse_merge_event_accepts_default_branch_merge() {
    let attestation = parse_merge_event(&sample_event(true, "main", "main")).expect("merge");
    assert_eq!(attestation.pr_number, 101);
    assert_eq!(attestation.github_username, "alice");
    assert_eq!(attestation.github_repo, "StellarRoute/WaveFlow");
    assert_eq!(attestation.points, 1);
}

#[test]
fn parse_merge_event_rejects_closed_but_unmerged() {
    let err = parse_merge_event(&sample_event(false, "main", "main")).unwrap_err();
    assert!(matches!(err, WaveFlowError::Validation(_)));
}

#[test]
fn parse_merge_event_rejects_non_closed_action() {
    let mut event = sample_event(true, "main", "main");
    event.action = "opened".into();
    let err = parse_merge_event(&event).unwrap_err();
    assert!(matches!(err, WaveFlowError::Validation(_)));
}

#[test]
fn parse_merge_event_rejects_other_branch() {
    let err = parse_merge_event(&sample_event(true, "dev", "main")).unwrap_err();
    assert!(matches!(err, WaveFlowError::Validation(ref m) if m == "PR not merged to default branch"));
}

fn labels(names: &[&str]) -> Vec<GitHubLabel> {
    names.iter().map(|n| GitHubLabel { name: n.to_string() }).collect()
}

#[test]
fn labels_map_to_complexity_points() {
    assert_eq!(label_to_points(&labels(&[])), 1);
    assert_eq!(label_to_points(&labels(&["bug", "complexity:high"])), 5);
    assert_eq!(label_to_points(&labels(&["complexity:medium"])), 3);
    assert_eq!(label_to_points(&labels(&["complexity:low"])), 1);
    assert_eq!(label_to_points(&labels(&["complexity:medium", "complexity:high"])), 3);
    assert_eq!(label_to_points(&labels(&["Complexity:High", "docs"])), 1);

    let mut event = sample_event(true, "main", "main");
    event.pull_request.labels = labels(&["complexity:high"]);
    assert_eq!(parse_merge_event(&event).unwrap().points, 5);
}
