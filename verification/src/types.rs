//! Domain types shared by the gateway, the API and the escrow contract, with the
//! validators for repository slugs and Stellar account keys.

use vstd::prelude::*;

use crate::text::str_chars;

verus! {

/// Whether a program accepts merge attestations.
#[derive(Clone, Copy, Debug, PartialEq, Eq, Structural)]
pub enum ProgramStatus {
    Active,
    Paused,
}

/// What the gateway asks the escrow contract to record for one merged PR.
#[derive(Debug)]
pub struct AttestationRequest {
    pub program_id: u64,
    pub github_username: String,
    pub pr_number: u64,
    pub points: u32,
}

/// The parts of a GitHub `pull_request` webhook payload that the gateway reads.
#[derive(Debug)]
pub struct GitHubPullRequestEvent {
    pub action: String,
    pub number: u64,
    pub pull_request: GitHubPullRequest,
    pub repository: GitHubRepository,
}

#[derive(Debug)]
pub struct GitHubPullRequest {
    pub merged: bool,
    pub user: GitHubUser,
    pub base: GitHubRef,
    pub labels: Vec<GitHubLabel>,
}

#[derive(Debug)]
pub struct GitHubLabel {
    pub name: String,
}

#[derive(Debug)]
pub struct GitHubRef {
    pub ref_name: String,
}

#[derive(Debug)]
pub struct GitHubUser {
    pub login: String,
}

#[derive(Debug)]
pub struct GitHubRepository {
    pub full_name: String,
    pub default_branch: String,
}

/// Idempotency key for merge attestations: a program (by its 128-bit UUID value)
/// and a pull request number.
#[derive(Clone, Copy, Debug, PartialEq, Eq, Structural)]
pub struct MergeIdempotencyKey {
    pub program_id: u128,
    pub pr_number: u64,
}

impl MergeIdempotencyKey {
    pub fn new(program_id: u128, pr_number: u64) -> (r: Self)
        ensures
            r.program_id == program_id,
            r.pr_number == pr_number,
    {
        MergeIdempotencyKey { program_id, pr_number }
    }
}

/// A repository slug `owner/name`: exactly one `/`, with a non-empty part on each
/// side, and no space anywhere.
pub open spec fn is_repo_slug(s: Seq<char>) -> bool {
    &&& forall|j: int| 0 <= j < s.len() ==> s[j] != ' '
    &&& exists|i: int|
        0 < i < s.len() - 1 && s[i] == '/' && forall|j: int|
            0 <= j < s.len() && j != i ==> s[j] != '/'
}

/// Validates GitHub repo slug format `owner/name`.
pub fn validate_github_repo(repo: &str) -> (r: bool)
    ensures
        r == is_repo_slug(repo@),
{
    let cs = str_chars(repo);
    let n = cs.len();
    let mut slash: Option<usize> = None;
    let mut i: usize = 0;
    while i < n
        invariant
            cs@ == repo@,
            n == cs@.len(),
            i <= n,
            forall|j: int| 0 <= j < i ==> cs@[j] != ' ',
            match slash {
                None => forall|j: int| 0 <= j < i ==> cs@[j] != '/',
                Some(k) => k < i && cs@[k as int] == '/' && forall|j: int|
                    0 <= j < i && j != k ==> cs@[j] != '/',
            },
        decreases n - i,
    {
        let c = cs[i];
        if c == ' ' {
            return false;
        }
        if c == '/' {
            if slash.is_some() {
                assert(!is_repo_slug(repo@));
                return false;
            }
            slash = Some(i);
        }
        i = i + 1;
    }
    match slash {
        None => false,
        Some(k) => {
            if k > 0 && k + 1 < n {
                assert(is_repo_slug(repo@));
                true
            } else {
                false
            }
        },
    }
}

/// A character of the Stellar public-key alphabet (RFC 4648 base32: `A`-`Z`, `2`-`7`).
pub open spec fn is_base32_char(c: char) -> bool {
    ('A' <= c && c <= 'Z') || ('2' <= c && c <= '7')
}

/// A Stellar account public key: 56 base32 characters, the first of them `G`.
pub open spec fn is_stellar_address(s: Seq<char>) -> bool {
    &&& s.len() == 56
    &&& s[0] == 'G'
    &&& forall|j: int| 0 <= j < s.len() ==> is_base32_char(#[trigger] s[j])
}

/// Validates Stellar account public key format (G + 55 base32 chars).
pub fn validate_stellar_address(address: &str) -> (r: bool)
    ensures
        r == is_stellar_address(address@),
{
    let cs = str_chars(address);
    if cs.len() != 56 {
        return false;
    }
    if cs[0] != 'G' {
        return false;
    }
    let mut i: usize = 0;
    while i < cs.len()
        invariant
            cs@ == address@,
            cs@.len() == 56,
            i <= cs@.len(),
            forall|j: int| 0 <= j < i ==> is_base32_char(#[trigger] cs@[j]),
        decreases cs@.len() - i,
    {
        let c = cs[i];
        if !(('A' <= c && c <= 'Z') || ('2' <= c && c <= '7')) {
            assert(!is_base32_char(cs@[i as int]));
            return false;
        }
        i = i + 1;
    }
    true
}

} // verus!
