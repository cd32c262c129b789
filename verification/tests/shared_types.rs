use waveflow::types::{validate_github_repo, validate_stellar_address, MergeIdempotencyKey};

#[test]
fn validates_repo_slug() {
    assert!(validate_github_repo("StellarRoute/WaveFlow"));
    assert!(!validate_github_repo("invalid"));
    assert!(!validate_github_repo("owner/"));
}

#[test]
fn validates_stellar_public_key() {
    let valid = "GAAAAAAAAAAAAAAAAAAAAAAAAAAAAAAAAAAAAAAAAAAAAAAAAAAAAWHF";
    assert!(validate_stellar_address(valid));
    assert!(!validate_stellar_address("not-an-address"));
    assert!(!validate_stellar_address("MXXXXXXXXXXXXXXXXXXXXXXXXXXXXXXXXXXXXXXXXXXXXXXXXXXXXXXX"));
}

#[test]
fn repo_slug_edge_cases() {
    assert!(!validate_github_repo("/name"));
    assert!(!validate_github_repo("a/b/c"));
    assert!(!validate_github_repo("own er/name"));
    assert!(!validate_github_repo(""));
    assert!(validate_github_repo("a/b"));
}

#[test]
fn stellar_key_edge_cases() {
    // Lower case, the digits 0, 1, 8, 9 and a wrong length are all refused.
    assert!(!validate_stellar_address("gAAAAAAAAAAAAAAAAAAAAAAAAAAAAAAAAAAAAAAAAAAAAAAAAAAAAWHF"));
    assert!(!validate_stellar_address("GAAAAAAAAAAAAAAAAAAAAAAAAAAAAAAAAAAAAAAAAAAAAAAAAAAAAWH8"));
    assert!(!validate_stellar_address("GAAAAAAAAAAAAAAAAAAAAAAAAAAAAAAAAAAAAAAAAAAAAAAAAAAAAWH"));
    assert!(validate_stellar_address("G234567ABCDEFGHIJKLMNOPQRSTUVWXYZ234567ABCDEFGHIJKLMNOPQ"));
}

#[test]
fn idempotency_key_holds_its_parts() {
    let k = MergeIdempotencyKey::new(7, 42);
    assert_eq!(k.program_id, 7);
    assert_eq!(k.pr_number, 42);
    assert_eq!(k, MergeIdempotencyKey::new(7, 42));
}
