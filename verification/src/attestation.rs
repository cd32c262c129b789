//! Building merge attestations, naming their chain submissions, and the value
//! conversions and checks that go with persisting payouts.

use vstd::prelude::*;
use vstd::string::StringExecFns;

use crate::error::{detail_of, WaveFlowError};
use crate::text::{decimal, push_decimal, str_eq};
use crate::types::{AttestationRequest, ProgramStatus};
use crate::webhook::MergeAttestation;

verus! {

pub fn build_attestation(on_chain_program_id: u64, merge: &MergeAttestation) -> (r:
    AttestationRequest)
    ensures
        r.program_id == on_chain_program_id,
        r.github_username == merge.github_username,
        r.pr_number == merge.pr_number,
        r.points == merge.points,
{
    AttestationRequest {
        program_id: on_chain_program_id,
        github_username: merge.github_username.clone(),
        pr_number: merge.pr_number,
        points: merge.points,
    }
}

/// The transaction reference of a submitted attestation: `simulated-tx-P-N` when
/// a contract id and a gateway key are both configured, `dry-run-P-N` otherwise,
/// where P is the on-chain program id and N the PR number.
pub open spec fn submission_reference(
    configured: bool,
    program_id: u64,
    pr_number: u64,
) -> Seq<char> {
    (if configured {
        "simulated-tx-"@
    } else {
        "dry-run-"@
    }) + decimal(program_id as nat) + "-"@ + decimal(pr_number as nat)
}

/// Submit attestation to Soroban RPC when configured; otherwise simulate for local dev.
pub fn submit_attestation(
    rpc_url: &str,
    contract_id: Option<&str>,
    secret_key: Option<&str>,
    attestation: &AttestationRequest,
) -> (r: Result<String, WaveFlowError>)
    ensures
        r matches Ok(s) && s@ == submission_reference(
            contract_id is Some && secret_key is Some,
            attestation.program_id,
            attestation.pr_number,
        ),
{
    let mut s = match (contract_id, secret_key) {
        (Some(_), Some(_)) => String::from_str("simulated-tx-"),
        _ => String::from_str("dry-run-"),
    };
    push_decimal(&mut s, attestation.program_id);
    s.append("-");
    push_decimal(&mut s, attestation.pr_number);
    Ok(s)
}

/// A payout amount as the database stores it (`BIGINT`).
pub fn amount_to_i64(amount: i128) -> (r: Result<i64, WaveFlowError>)
    ensures
        i64::MIN <= amount <= i64::MAX ==> r == Ok::<i64, WaveFlowError>(amount as i64),
        !(i64::MIN <= amount <= i64::MAX) ==> (r matches Err(e) && e is Internal && detail_of(e)
            == "amount overflow"@),
{
    if amount < i64::MIN as i128 || amount > i64::MAX as i128 {
        return Err(WaveFlowError::Internal(String::from_str("amount overflow")));
    }
    Ok(amount as i64)
}

/// A PR number as a database key: its value, or `i64::MAX` when it does not fit.
pub fn pr_number_key(pr_number: u64) -> (r: i64)
    ensures
        r == if pr_number <= i64::MAX {
            pr_number as i64
        } else {
            i64::MAX
        },
{
    if pr_number <= i64::MAX as u64 {
        pr_number as i64
    } else {
        i64::MAX
    }
}

/// The column values of a payout row.
pub struct PayoutColumns {
    pub pr_number: i64,
    pub points: i32,
    pub amount: i64,
}

/// The column values of a payout row for `merge` paying `amount`: the amount and
/// the PR number must fit in `BIGINT` (the amount is checked first); points that
/// do not fit in `INTEGER` are stored as 1.
pub fn payout_columns(merge: &MergeAttestation, amount: i128) -> (r: Result<
    PayoutColumns,
    WaveFlowError,
>)
    ensures
        !(i64::MIN <= amount <= i64::MAX) ==> (r matches Err(e) && e is Internal && detail_of(e)
            == "amount overflow"@),
        (i64::MIN <= amount <= i64::MAX) && merge.pr_number > i64::MAX ==> (r matches Err(e)
            && e is Internal && detail_of(e) == "pr_number overflow"@),
        (i64::MIN <= amount <= i64::MAX) && merge.pr_number <= i64::MAX ==> (r matches Ok(c)
            && c.amount == amount && c.pr_number == merge.pr_number && c.points == if merge.points
            <= i32::MAX {
            merge.points as i32
        } else {
            1i32
        }),
{
    let amount = match amount_to_i64(amount) {
        Ok(a) => a,
        Err(e) => return Err(e),
    };
    if merge.pr_number > i64::MAX as u64 {
        return Err(WaveFlowError::Internal(String::from_str("pr_number overflow")));
    }
    let points: i32 = if merge.points <= i32::MAX as u32 {
        merge.points as i32
    } else {
        1
    };
    Ok(PayoutColumns { pr_number: merge.pr_number as i64, points, amount })
}

/// The amount a merge pays: its points times the program's reward per point.
pub fn payout_amount(points: u32, reward_per_point: i64) -> (r: i128)
    ensures
        r == points as int * reward_per_point as int,
{
    proof {
        assert(-0x8000_0000_0000_0000_0000_0000 <= points as int * reward_per_point as int
            <= 0x7fff_ffff_ffff_ffff_ffff_ffff) by (nonlinear_arith)
            requires
                0 <= points <= 0xffff_ffff,
                -0x8000_0000_0000_0000 <= reward_per_point <= 0x7fff_ffff_ffff_ffff,
        ;
    }
    (points as i128) * (reward_per_point as i128)
}

/// Whether a program's escrow balance calls for a low-balance alert: only when
/// alerting is on (a positive threshold) and the balance is below it.
pub fn escrow_below_threshold(balance: i64, threshold: i64) -> (r: bool)
    ensures
        r == (threshold > 0 && balance < threshold),
{
    threshold > 0 && balance < threshold
}

/// Whether the low-balance check runs at all.
pub fn escrow_alert_enabled(threshold: i64) -> (r: bool)
    ensures
        r == (threshold > 0),
{
    threshold > 0
}

/// A program's status as the database spells it: `paused`, or active otherwise.
pub fn program_status_from_db(status: &str) -> (r: ProgramStatus)
    ensures
        r == if status@ == "paused"@ {
            ProgramStatus::Paused
        } else {
            ProgramStatus::Active
        },
{
    if str_eq(status, "paused") {
        ProgramStatus::Paused
    } else {
        ProgramStatus::Active
    }
}

} // verus!
