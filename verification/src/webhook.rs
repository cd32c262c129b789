//! GitHub webhook signature verification and merge event parsing.

use vstd::prelude::*;
use vstd::string::{StringExecFns, StringSliceAdditionalSpecFns};

use crate::crypto::{ct_eq_bytes, hex_decode, hex_decoded, hmac_sha256, hmac_sha256_tag, is_hex_text};
use crate::error::{detail_of, WaveFlowError};
use crate::text::{str_chars, str_eq};
use crate::types::{GitHubLabel, GitHubPullRequestEvent};

verus! {

/// The prefix of GitHub's `X-Hub-Signature-256` header value.
pub open spec fn sha256_prefix() -> Seq<char> {
    seq!['s', 'h', 'a', '2', '5', '6', '=']
}

/// The outcome of checking a signature header against a body.
pub enum SignatureCheck {
    MissingPrefix,
    BadHex,
    Mismatch,
    Valid,
}

/// How a signature header is judged: it must start with `sha256=`, the rest must
/// be hex, and the bytes it stands for must equal the HMAC-SHA256 of the body
/// under the webhook secret.
pub open spec fn signature_check(secret: Seq<char>, body: Seq<u8>, header: Seq<char>) -> SignatureCheck {
    if !(header.len() >= 7 && header.subrange(0, 7) == sha256_prefix()) {
        SignatureCheck::MissingPrefix
    } else {
        let text = header.subrange(7, header.len() as int);
        let hex_bytes = vstd::utf8::encode_utf8(text);
        if !is_hex_text(hex_bytes) {
            SignatureCheck::BadHex
        } else if hex_decoded(hex_bytes) != hmac_sha256(vstd::utf8::encode_utf8(secret), body) {
            SignatureCheck::Mismatch
        } else {
            SignatureCheck::Valid
        }
    }
}

/// Verify GitHub webhook signature (`X-Hub-Signature-256` header).
pub fn verify_github_signature(secret: &str, body: &[u8], signature_header: &str) -> (r: Result<
    (),
    WaveFlowError,
>)
    ensures
        match signature_check(secret@, body@, signature_header@) {
            SignatureCheck::Valid => r is Ok,
            SignatureCheck::MissingPrefix => r matches Err(e) && e is Webhook && detail_of(e)
                == "missing sha256 prefix"@,
            SignatureCheck::BadHex => r matches Err(e) && e is Webhook && detail_of(e)
                == "invalid signature hex"@,
            SignatureCheck::Mismatch => r matches Err(e) && e is Unauthorized && detail_of(e)
                == "invalid webhook signature"@,
        },
{
    let cs = str_chars(signature_header);
    let n = cs.len();
    if n < 7 || cs[0] != 's' || cs[1] != 'h' || cs[2] != 'a' || cs[3] != '2' || cs[4] != '5'
        || cs[5] != '6' || cs[6] != '=' {
        proof {
            if n >= 7 && signature_header@.subrange(0, 7) == sha256_prefix() {
                assert(signature_header@.subrange(0, 7)[0] == cs@[0]);
                assert(signature_header@.subrange(0, 7)[1] == cs@[1]);
                assert(signature_header@.subrange(0, 7)[2] == cs@[2]);
                assert(signature_header@.subrange(0, 7)[3] == cs@[3]);
                assert(signature_header@.subrange(0, 7)[4] == cs@[4]);
                assert(signature_header@.subrange(0, 7)[5] == cs@[5]);
                assert(signature_header@.subrange(0, 7)[6] == cs@[6]);
            }
        }
        return Err(WaveFlowError::Webhook(String::from_str("missing sha256 prefix")));
    }
    assert(signature_header@.subrange(0, 7) =~= sha256_prefix());
    let provided_hex = signature_header.substring_char(7, n);
    let provided = match hex_decode(provided_hex.as_bytes()) {
        Some(v) => v,
        None => return Err(WaveFlowError::Webhook(String::from_str("invalid signature hex"))),
    };
    let expected = match hmac_sha256_tag(secret.as_bytes(), body) {
        Some(t) => t,
        None => return Err(WaveFlowError::Webhook(String::from_str("invalid webhook secret"))),
    };
    if provided.len() != expected.len() || !ct_eq_bytes(provided.as_slice(), expected.as_slice()) {
        return Err(WaveFlowError::Unauthorized(String::from_str("invalid webhook signature")));
    }
    Ok(())
}

/// What a merged PR to the default branch asks the escrow to pay for.
#[derive(Debug)]
pub struct MergeAttestation {
    pub github_repo: String,
    pub github_username: String,
    pub pr_number: u64,
    pub points: u32,
}

impl MergeAttestation {
    /// A field-by-field copy.
    pub fn duplicate(&self) -> (r: MergeAttestation)
        ensures
            r == *self,
    {
        MergeAttestation {
            github_repo: self.github_repo.clone(),
            github_username: self.github_username.clone(),
            pr_number: self.pr_number,
            points: self.points,
        }
    }
}

/// Complexity points of a PR from its labels, by the Drips Wave convention: the
/// first label among `complexity:high` (5), `complexity:medium` (3) and
/// `complexity:low` (1) decides; with none of them a PR is worth 1 point.
pub open spec fn label_points(labels: Seq<GitHubLabel>) -> u32
    decreases labels.len(),
{
    if labels.len() == 0 {
        1
    } else if labels[0].name@ == "complexity:high"@ {
        5
    } else if labels[0].name@ == "complexity:medium"@ {
        3
    } else if labels[0].name@ == "complexity:low"@ {
        1
    } else {
        label_points(labels.drop_first())
    }
}

/// Map GitHub PR labels to Wave complexity points.
/// Labels follow Drips Wave convention: complexity:low=1, complexity:medium=3, complexity:high=5.
pub fn label_to_points(labels: &Vec<GitHubLabel>) -> (r: u32)
    ensures
        r == label_points(labels@),
{
    let mut i: usize = 0;
    assert(labels@.subrange(0, labels@.len() as int) =~= labels@);
    while i < labels.len()
        invariant
            i <= labels@.len(),
            label_points(labels@) == label_points(labels@.subrange(i as int, labels@.len() as int)),
        decreases labels@.len() - i,
    {
        let ghost rest = labels@.subrange(i as int, labels@.len() as int);
        assert(rest[0] == labels@[i as int]);
        assert(rest.drop_first() =~= labels@.subrange(i + 1, labels@.len() as int));
        let name = labels[i].name.as_str();
        if str_eq(name, "complexity:high") {
            return 5;
        }
        if str_eq(name, "complexity:medium") {
            return 3;
        }
        if str_eq(name, "complexity:low") {
            return 1;
        }
        i = i + 1;
    }
    1
}

/// Why a pull-request event is not a payable merge, if it is not.
pub open spec fn merge_event_refusal(payload: GitHubPullRequestEvent) -> Option<Seq<char>> {
    if payload.action@ != "closed"@ {
        Some("ignored non-closed action"@)
    } else if !payload.pull_request.merged {
        Some("PR not merged"@)
    } else if payload.pull_request.base.ref_name@ != payload.repository.default_branch@ {
        Some("PR not merged to default branch"@)
    } else {
        None
    }
}

/// Returns attestation inputs when the payload is a merged PR on the default branch.
pub fn parse_merge_event(payload: &GitHubPullRequestEvent) -> (r: Result<
    MergeAttestation,
    WaveFlowError,
>)
    ensures
        match merge_event_refusal(*payload) {
            Some(reason) => r matches Err(e) && e is Validation && detail_of(e) == reason,
            None => r matches Ok(m) && m.github_repo == payload.repository.full_name
                && m.github_username == payload.pull_request.user.login && m.pr_number
                == payload.number && m.points == label_points(payload.pull_request.labels@),
        },
{
    if !str_eq(payload.action.as_str(), "closed") {
        return Err(WaveFlowError::Validation(String::from_str("ignored non-closed action")));
    }
    if !payload.pull_request.merged {
        return Err(WaveFlowError::Validation(String::from_str("PR not merged")));
    }
    if !str_eq(
        payload.pull_request.base.ref_name.as_str(),
        payload.repository.default_branch.as_str(),
    ) {
        return Err(
            WaveFlowError::Validation(String::from_str("PR not merged to default branch")),
        );
    }
    Ok(
        MergeAttestation {
            github_repo: payload.repository.full_name.clone(),
            github_username: payload.pull_request.user.login.clone(),
            pr_number: payload.number,
            points: label_to_points(&payload.pull_request.labels),
        },
    )
}

/// Which pull-request events are payable merges: exactly the closed, merged ones
/// whose base branch is the repository's own default branch, whatever that
/// branch is named. A merge into another branch is refused as not merged to the
/// default branch, and only then.
pub proof fn law_merge_to_default_branch_is_payable(payload: GitHubPullRequestEvent)
    ensures
        (merge_event_refusal(payload) is None) == (payload.action@ == "closed"@
            && payload.pull_request.merged && payload.pull_request.base.ref_name@
            == payload.repository.default_branch@),
        (merge_event_refusal(payload) == Some("PR not merged to default branch"@)) == (
        payload.action@ == "closed"@ && payload.pull_request.merged
            && payload.pull_request.base.ref_name@ != payload.repository.default_branch@),
{
    reveal_strlit("ignored non-closed action");
    reveal_strlit("PR not merged");
    reveal_strlit("PR not merged to default branch");
    assert("ignored non-closed action"@.len() != "PR not merged to default branch"@.len());
    assert("PR not merged"@.len() != "PR not merged to default branch"@.len());
}

} // verus!
