//! Laws of the escrow contract, proved over the state machine of `escrow_model`
//! that every entry point of `escrow::WaveFlowEscrow` follows.

use vstd::prelude::*;

use crate::escrow_model::{
    create_program_result, fresh_program, fund_result, initialize_result, paid_program, pause_result,
    payout_of, record_merge_result, register_result, resume_result, set_ratio_result,
    withdraw_result, EscrowModel,
};
use crate::escrow_types::{Address, ContractError, Program, TokenTransfer};
use crate::types::ProgramStatus;

verus! {

/// One call of an entry point that changes the contract, with its arguments.
pub enum EscrowCall {
    Initialize { admin: Address, gateway: Address, token: Address },
    CreateProgram {
        maintainer: Address,
        github_repo: String,
        reward_per_point: i128,
        milestone_cap: Option<i128>,
    },
    Fund { program_id: u64, from: Address, amount: i128 },
    RegisterContributor {
        program_id: u64,
        caller: Address,
        github_username: String,
        stellar_address: Address,
    },
    RecordMerge {
        gateway: Address,
        program_id: u64,
        github_username: String,
        pr_number: u64,
        points: u32,
    },
    Pause { program_id: u64, maintainer: Address },
    Resume { program_id: u64, maintainer: Address },
    SetRatio { program_id: u64, maintainer: Address, reward_per_point: i128 },
    WithdrawRemaining { program_id: u64, maintainer: Address },
    /// The host changes who authorizes the calls that follow: every address where
    /// `all` holds, else exactly `signers`.
    SetSigners { all: bool, signers: Vec<Address> },
}

/// The state after `call`, and whether the call was refused.
pub open spec fn apply(s: EscrowModel, call: EscrowCall) -> (EscrowModel, bool) {
    match call {
        EscrowCall::Initialize { admin, gateway, token } => {
            let r = initialize_result(s, admin, gateway, token);
            (r.0, r.1 is Err)
        },
        EscrowCall::CreateProgram { maintainer, github_repo, reward_per_point, milestone_cap } => {
            let r = create_program_result(
                s,
                maintainer,
                github_repo,
                reward_per_point,
                milestone_cap,
            );
            (r.0, r.1 is Err)
        },
        EscrowCall::Fund { program_id, from, amount } => {
            let r = fund_result(s, program_id, from, amount);
            (r.0, r.1 is Err)
        },
        EscrowCall::RegisterContributor {
            program_id,
            caller,
            github_username,
            stellar_address,
        } => {
            let r = register_result(s, program_id, caller, github_username, stellar_address);
            (r.0, r.1 is Err)
        },
        EscrowCall::RecordMerge { gateway, program_id, github_username, pr_number, points } => {
            let r = record_merge_result(s, gateway, program_id, github_username, pr_number, points);
            (r.0, r.1 is Err)
        },
        EscrowCall::Pause { program_id, maintainer } => {
            let r = pause_result(s, program_id, maintainer);
            (r.0, r.1 is Err)
        },
        EscrowCall::Resume { program_id, maintainer } => {
            let r = resume_result(s, program_id, maintainer);
            (r.0, r.1 is Err)
        },
        EscrowCall::SetRatio { program_id, maintainer, reward_per_point } => {
            let r = set_ratio_result(s, program_id, maintainer, reward_per_point);
            (r.0, r.1 is Err)
        },
        EscrowCall::WithdrawRemaining { program_id, maintainer } => {
            let r = withdraw_result(s, program_id, maintainer);
            (r.0, r.1 is Err)
        },
        EscrowCall::SetSigners { all, signers } => (
            EscrowModel { signed_by_all: all, signers: signers@, ..s },
            false,
        ),
    }
}

/// The error a refused call answers with, or `None` where the call goes through.
pub open spec fn refusal_of(s: EscrowModel, call: EscrowCall) -> Option<ContractError> {
    match call {
        EscrowCall::Initialize { admin, gateway, token } => error_of(
            initialize_result(s, admin, gateway, token).1,
        ),
        EscrowCall::CreateProgram { maintainer, github_repo, reward_per_point, milestone_cap } =>
            error_of(
            create_program_result(s, maintainer, github_repo, reward_per_point, milestone_cap).1,
        ),
        EscrowCall::Fund { program_id, from, amount } => error_of(
            fund_result(s, program_id, from, amount).1,
        ),
        EscrowCall::RegisterContributor {
            program_id,
            caller,
            github_username,
            stellar_address,
        } => error_of(register_result(s, program_id, caller, github_username, stellar_address).1),
        EscrowCall::RecordMerge { gateway, program_id, github_username, pr_number, points } =>
            error_of(
            record_merge_result(s, gateway, program_id, github_username, pr_number, points).1,
        ),
        EscrowCall::Pause { program_id, maintainer } => error_of(
            pause_result(s, program_id, maintainer).1,
        ),
        EscrowCall::Resume { program_id, maintainer } => error_of(
            resume_result(s, program_id, maintainer).1,
        ),
        EscrowCall::SetRatio { program_id, maintainer, reward_per_point } => error_of(
            set_ratio_result(s, program_id, maintainer, reward_per_point).1,
        ),
        EscrowCall::WithdrawRemaining { program_id, maintainer } => error_of(
            withdraw_result(s, program_id, maintainer).1,
        ),
        EscrowCall::SetSigners { .. } => None,
    }
}

/// The error of a result, if it is one.
pub open spec fn error_of<T>(r: Result<T, ContractError>) -> Option<ContractError> {
    match r {
        Ok(_) => None,
        Err(e) => Some(e),
    }
}

/// The party on whose behalf `call` acts, and who must authorize it: the admin
/// of `initialize`, the maintainer, funder or caller of the program calls, and
/// the gateway of `record_merge`.
pub open spec fn acting_party(call: EscrowCall) -> Option<Address> {
    match call {
        EscrowCall::Initialize { admin, .. } => Some(admin),
        EscrowCall::CreateProgram { maintainer, .. } => Some(maintainer),
        EscrowCall::Fund { from, .. } => Some(from),
        EscrowCall::RegisterContributor { caller, .. } => Some(caller),
        EscrowCall::RecordMerge { gateway, .. } => Some(gateway),
        EscrowCall::Pause { maintainer, .. } => Some(maintainer),
        EscrowCall::Resume { maintainer, .. } => Some(maintainer),
        EscrowCall::SetRatio { maintainer, .. } => Some(maintainer),
        EscrowCall::WithdrawRemaining { maintainer, .. } => Some(maintainer),
        EscrowCall::SetSigners { .. } => None,
    }
}

/// The state after a sequence of calls, in order.
pub open spec fn apply_all(s: EscrowModel, calls: Seq<EscrowCall>) -> EscrowModel
    decreases calls.len(),
{
    if calls.len() == 0 {
        s
    } else {
        apply(apply_all(s, calls.drop_last()), calls.last()).0
    }
}

/// Tokens held in escrow, over all programs.
pub open spec fn total_escrow(ps: Seq<Program>) -> int
    decreases ps.len(),
{
    if ps.len() == 0 {
        0
    } else {
        total_escrow(ps.drop_last()) + ps.last().escrow_balance
    }
}

/// What one transfer moves into account `c` (negative when it moves tokens out).
pub open spec fn inflow(t: TokenTransfer, c: Address) -> int {
    (if t.to == c {
        t.amount as int
    } else {
        0
    }) - (if t.from == c {
        t.amount as int
    } else {
        0
    })
}

/// What a sequence of transfers moves into account `c`, in total.
pub open spec fn net_inflow(ts: Seq<TokenTransfer>, c: Address) -> int
    decreases ts.len(),
{
    if ts.len() == 0 {
        0
    } else {
        net_inflow(ts.drop_last(), c) + inflow(ts.last(), c)
    }
}

/// Whether `call` names the contract's own address as the other side of a token
/// transfer: funding from it, or paying a contributor registered at it.
pub open spec fn call_moves_tokens_to_itself(s: EscrowModel, call: EscrowCall) -> bool {
    match call {
        EscrowCall::Fund { from, .. } => from == s.contract_address,
        EscrowCall::RecordMerge { program_id, github_username, .. } => s.contributors.contains_key(
            (program_id, github_username@),
        ) && s.contributors[(program_id, github_username@)] == s.contract_address,
        _ => false,
    }
}

/// What `call` releases from escrow without a token transfer: the amount that a
/// successful `withdraw_remaining` hands back to the maintainer, and 0 for every
/// other call.
pub open spec fn released_by(s: EscrowModel, call: EscrowCall) -> int {
    match call {
        EscrowCall::WithdrawRemaining { program_id, maintainer } => {
            match withdraw_result(s, program_id, maintainer).1 {
                Ok(amount) => amount as int,
                Err(_) => 0,
            }
        },
        _ => 0,
    }
}

/// What a sequence of calls, made in order from `s`, releases from escrow without
/// a token transfer, in total.
pub open spec fn released_total(s: EscrowModel, calls: Seq<EscrowCall>) -> int
    decreases calls.len(),
{
    if calls.len() == 0 {
        0
    } else {
        released_total(s, calls.drop_last()) + released_by(
            apply_all(s, calls.drop_last()),
            calls.last(),
        )
    }
}

/// What every program keeps: a positive reward per point, an escrow that is never
/// negative, a spent amount that is never negative, stays zero without a milestone
/// cap, and stays within the cap once anything has been spent; and contributors
/// and paid PRs only ever refer to programs that exist.
pub open spec fn program_wf(p: Program) -> bool {
    &&& p.reward_per_point > 0
    &&& p.escrow_balance >= 0
    &&& p.milestone_spent >= 0
    &&& match p.milestone_cap {
        None => p.milestone_spent == 0,
        Some(cap) => p.milestone_spent == 0 || p.milestone_spent <= cap,
    }
}

pub open spec fn escrow_wf(s: EscrowModel) -> bool {
    &&& forall|i: int| 0 <= i < s.programs.len() ==> program_wf(#[trigger] s.programs[i])
    &&& forall|k: (u64, Seq<char>)| #[trigger]
        s.contributors.contains_key(k) ==> s.program(k.0) is Some
    &&& forall|k: (u64, u64)| #[trigger] s.processed.contains(k) ==> s.program(k.0) is Some
}

// ------------------------------------------------------------------ lemmas

proof fn lemma_total_escrow_push(ps: Seq<Program>, p: Program)
    ensures
        total_escrow(ps.push(p)) == total_escrow(ps) + p.escrow_balance,
{
    assert(ps.push(p).drop_last() =~= ps);
}

proof fn lemma_total_escrow_update(ps: Seq<Program>, i: int, p: Program)
    requires
        0 <= i < ps.len(),
    ensures
        total_escrow(ps.update(i, p)) == total_escrow(ps) - ps[i].escrow_balance + p.escrow_balance,
    decreases ps.len(),
{
    if i == ps.len() - 1 {
        assert(ps.update(i, p).drop_last() =~= ps.drop_last());
    } else {
        lemma_total_escrow_update(ps.drop_last(), i, p);
        assert(ps.update(i, p).drop_last() =~= ps.drop_last().update(i, p));
    }
}

proof fn lemma_net_inflow_push(ts: Seq<TokenTransfer>, t: TokenTransfer, c: Address)
    ensures
        net_inflow(ts.push(t), c) == net_inflow(ts, c) + inflow(t, c),
{
    assert(ts.push(t).drop_last() =~= ts);
}

// -------------------------------------------------------------------- laws

/// A refused call leaves the contract exactly as it was.
pub proof fn law_refused_call_changes_nothing(s: EscrowModel, call: EscrowCall)
    ensures
        apply(s, call).1 ==> apply(s, call).0 == s,
{
}

/// Every call acts on behalf of the party it names, and that party must have
/// authorized it: a call its party has not authorized is refused, before any
/// other check but that of a repeated `initialize`, with `MissingAuthorization`,
/// and changes nothing; every call that goes through was authorized by its party.
pub proof fn law_calls_need_authorization(s: EscrowModel, call: EscrowCall)
    ensures
        (acting_party(call) is Some && !s.signed(acting_party(call).unwrap())) ==> {
            &&& apply(s, call).1
            &&& apply(s, call).0 == s
            &&& refusal_of(s, call) == Some(
                if call is Initialize && s.config is Some {
                    ContractError::AlreadyInitialized
                } else {
                    ContractError::MissingAuthorization
                },
            )
        },
        (acting_party(call) is Some && !apply(s, call).1) ==> s.signed(
            acting_party(call).unwrap(),
        ),
{
}

/// Events and requested transfers are only ever appended to: no call rewrites
/// what the contract has already published or asked its host to move.
pub proof fn law_effects_only_grow(s: EscrowModel, call: EscrowCall)
    ensures
        s.events.is_prefix_of(apply(s, call).0.events),
        s.transfers.is_prefix_of(apply(s, call).0.transfers),
        apply(s, call).0.transfers.len() <= s.transfers.len() + 1,
        apply(s, call).0.contract_address == s.contract_address,
{
    let t = apply(s, call).0;
    match call {
        EscrowCall::Fund { .. } => {
            assert(s.events.is_prefix_of(t.events));
            assert(s.transfers.is_prefix_of(t.transfers));
        },
        EscrowCall::RecordMerge { .. } => {
            assert(s.events.is_prefix_of(t.events));
            assert(s.transfers.is_prefix_of(t.transfers));
        },
        _ => {
            assert(s.events.is_prefix_of(t.events));
            assert(s.transfers.is_prefix_of(t.transfers));
        },
    }
}

/// Conservation of escrowed funds: for every call, the tokens held in escrow over
/// all programs change by exactly what the call's requested transfers move into
/// the contract's own account, less what the call releases to a maintainer by
/// `withdraw_remaining`. (A call that names the contract's own address as the
/// other side of a transfer is left out: such a transfer moves nothing.)
pub proof fn law_escrow_follows_token_flow(s: EscrowModel, call: EscrowCall)
    requires
        !call_moves_tokens_to_itself(s, call),
    ensures
        total_escrow(apply(s, call).0.programs) - total_escrow(s.programs) == net_inflow(
            apply(s, call).0.transfers,
            s.contract_address,
        ) - net_inflow(s.transfers, s.contract_address) - released_by(s, call),
        released_by(s, call) >= 0,
{
    let c = s.contract_address;
    let r = apply(s, call);
    if r.1 {
        return ;
    }
    match call {
        EscrowCall::CreateProgram { maintainer, github_repo, reward_per_point, milestone_cap } => {
            lemma_total_escrow_push(
                s.programs,
                fresh_program(maintainer, github_repo, reward_per_point, milestone_cap),
            );
        },
        EscrowCall::Fund { program_id, from, amount } => {
            let p = s.program(program_id).unwrap();
            let np = Program { escrow_balance: (p.escrow_balance + amount) as i128, ..p };
            lemma_total_escrow_update(s.programs, program_id - 1, np);
            let t = TokenTransfer { token: s.config.unwrap().token, from, to: c, amount };
            lemma_net_inflow_push(s.transfers, t, c);
        },
        EscrowCall::RecordMerge { gateway, program_id, github_username, pr_number, points } => {
            let p = s.program(program_id).unwrap();
            let payout = payout_of(points, p.reward_per_point) as i128;
            lemma_total_escrow_update(s.programs, program_id - 1, paid_program(p, payout as int));
            let t = TokenTransfer {
                token: s.config.unwrap().token,
                from: c,
                to: s.contributors[(program_id, github_username@)],
                amount: payout,
            };
            lemma_net_inflow_push(s.transfers, t, c);
        },
        EscrowCall::Pause { program_id, maintainer } => {
            let p = s.program(program_id).unwrap();
            lemma_total_escrow_update(
                s.programs,
                program_id - 1,
                Program { status: ProgramStatus::Paused, ..p },
            );
        },
        EscrowCall::Resume { program_id, maintainer } => {
            let p = s.program(program_id).unwrap();
            lemma_total_escrow_update(
                s.programs,
                program_id - 1,
                Program { status: ProgramStatus::Active, ..p },
            );
        },
        EscrowCall::SetRatio { program_id, maintainer, reward_per_point } => {
            let p = s.program(program_id).unwrap();
            lemma_total_escrow_update(s.programs, program_id - 1, Program { reward_per_point, ..p });
        },
        EscrowCall::WithdrawRemaining { program_id, maintainer } => {
            let p = s.program(program_id).unwrap();
            if p.escrow_balance > 0 {
                lemma_total_escrow_update(
                    s.programs,
                    program_id - 1,
                    Program { escrow_balance: 0, ..p },
                );
            }
        },
        _ => {},
    }
}

/// Every call keeps the contract well formed (see `escrow_wf`): escrow balances
/// never go negative, and a program with a milestone cap never spends beyond it.
pub proof fn law_calls_keep_escrow_wf(s: EscrowModel, call: EscrowCall)
    requires
        escrow_wf(s),
    ensures
        escrow_wf(apply(s, call).0),
{
    let r = apply(s, call).0;
    if apply(s, call).1 {
        return ;
    }
    match call {
        EscrowCall::CreateProgram { .. } => {
            assert forall|i: int| 0 <= i < r.programs.len() implies program_wf(
                #[trigger] r.programs[i],
            ) by {
                if i < s.programs.len() {
                    assert(r.programs[i] == s.programs[i]);
                }
            }
        },
        EscrowCall::RegisterContributor { .. } => {},
        _ => {
            assert forall|i: int| 0 <= i < r.programs.len() implies program_wf(
                #[trigger] r.programs[i],
            ) by {
                assert(s.programs.len() == r.programs.len());
                assert(program_wf(s.programs[i]));
            }
        },
    }
}

/// The well-formedness of a fresh contract.
pub proof fn law_fresh_contract_is_wf(s: EscrowModel)
    requires
        s.programs.len() == 0,
        s.contributors.is_empty(),
        s.processed.is_empty(),
    ensures
        escrow_wf(s),
{
}

/// A paid PR stays paid: no call ever removes a `(program, PR)` pair from the set
/// of processed merges.
pub proof fn law_processed_only_grows(s: EscrowModel, calls: Seq<EscrowCall>, k: (u64, u64))
    requires
        s.processed.contains(k),
    ensures
        apply_all(s, calls).processed.contains(k),
    decreases calls.len(),
{
    if calls.len() > 0 {
        law_processed_only_grows(s, calls.drop_last(), k);
    }
}

/// A merged PR is paid at most once: once a merge of PR `pr_number` has been
/// recorded for a program, every later attestation of the same PR for that
/// program, after any calls whatever, is refused (with `PrAlreadyProcessed` where
/// the configured gateway, having authorized the call, asks with points).
pub proof fn law_pr_paid_at_most_once(
    s: EscrowModel,
    gateway: Address,
    program_id: u64,
    github_username: String,
    pr_number: u64,
    points: u32,
    later: Seq<EscrowCall>,
    gateway2: Address,
    github_username2: String,
    points2: u32,
)
    requires
        record_merge_result(s, gateway, program_id, github_username, pr_number, points).1 is Ok,
    ensures
        ({
            let t = apply_all(
                record_merge_result(s, gateway, program_id, github_username, pr_number, points).0,
                later,
            );
            record_merge_result(t, gateway2, program_id, github_username2, pr_number, points2).1
                is Err
        }),
        ({
            let t = apply_all(
                record_merge_result(s, gateway, program_id, github_username, pr_number, points).0,
                later,
            );
            (t.config == s.config && gateway2 == gateway && t.signed(gateway2) && points2 > 0)
                ==> record_merge_result(
                t,
                gateway2,
                program_id,
                github_username2,
                pr_number,
                points2,
            ).1 == Err::<i128, ContractError>(ContractError::PrAlreadyProcessed)
        }),
{
    let first = record_merge_result(s, gateway, program_id, github_username, pr_number, points).0;
    law_processed_only_grows(first, later, (program_id, pr_number));
}

/// A recorded merge pays `points * reward_per_point` to the address registered for
/// the contributor, out of the program's escrow, and only when the configured
/// gateway asked for it.
pub proof fn law_merge_pays_registered_contributor(
    s: EscrowModel,
    gateway: Address,
    program_id: u64,
    github_username: String,
    pr_number: u64,
    points: u32,
)
    requires
        record_merge_result(s, gateway, program_id, github_username, pr_number, points).1 is Ok,
    ensures
        ({
            let (t, r) = record_merge_result(
                s,
                gateway,
                program_id,
                github_username,
                pr_number,
                points,
            );
            let p = s.program(program_id).unwrap();
            let payout = r.unwrap();
            &&& s.config.unwrap().gateway == gateway
            &&& p.status == ProgramStatus::Active
            &&& payout == points as int * p.reward_per_point as int
            &&& payout <= p.escrow_balance
            &&& t.program(program_id).unwrap().escrow_balance == p.escrow_balance - payout
            &&& t.transfers.last() == TokenTransfer {
                token: s.config.unwrap().token,
                from: s.contract_address,
                to: s.contributors[(program_id, github_username@)],
                amount: payout,
            }
            &&& t.processed.contains((program_id, pr_number))
        }),
{
}

/// A paused program pays nothing.
pub proof fn law_paused_program_pays_nothing(
    s: EscrowModel,
    gateway: Address,
    program_id: u64,
    github_username: String,
    pr_number: u64,
    points: u32,
)
    requires
        s.program(program_id) is Some,
        s.program(program_id).unwrap().status == ProgramStatus::Paused,
    ensures
        record_merge_result(s, gateway, program_id, github_username, pr_number, points).1 is Err,
{
}

/// Only a program's maintainer can fund, configure, pause, resume or empty it, or
/// register contributors to it.
pub proof fn law_only_maintainer_manages(s: EscrowModel, call: EscrowCall)
    requires
        !apply(s, call).1,
    ensures
        match call {
            EscrowCall::Fund { program_id, from, .. } => s.program(program_id).unwrap().maintainer
                == from,
            EscrowCall::RegisterContributor { program_id, caller, .. } => s.program(
                program_id,
            ).unwrap().maintainer == caller,
            EscrowCall::Pause { program_id, maintainer } => s.program(program_id).unwrap().maintainer
                == maintainer,
            EscrowCall::Resume { program_id, maintainer } => s.program(
                program_id,
            ).unwrap().maintainer == maintainer,
            EscrowCall::SetRatio { program_id, maintainer, .. } => s.program(
                program_id,
            ).unwrap().maintainer == maintainer,
            EscrowCall::WithdrawRemaining { program_id, maintainer } => s.program(
                program_id,
            ).unwrap().maintainer == maintainer,
            EscrowCall::RecordMerge { gateway, .. } => s.config.unwrap().gateway == gateway,
            _ => true,
        },
{
}

/// Resuming a program that was just paused gives back the program as it was
/// before the pause.
pub proof fn law_resume_undoes_pause(s: EscrowModel, program_id: u64, maintainer: Address)
    requires
        pause_result(s, program_id, maintainer).1 is Ok,
        s.program(program_id).unwrap().status == ProgramStatus::Active,
    ensures
        resume_result(pause_result(s, program_id, maintainer).0, program_id, maintainer).0.programs
            == s.programs,
        resume_result(pause_result(s, program_id, maintainer).0, program_id, maintainer).1 is Ok,
{
    let p = s.program(program_id).unwrap();
    let paused = pause_result(s, program_id, maintainer).0;
    assert(paused.program(program_id).unwrap() == Program { status: ProgramStatus::Paused, ..p });
    assert(Program { status: ProgramStatus::Active, ..Program { status: ProgramStatus::Paused, ..p } }
        == p);
    assert(paused.programs.update(program_id - 1, p) =~= s.programs);
}

/// Withdrawing from a paused program returns its whole escrow and leaves the
/// escrow empty; it asks for no token transfer and publishes no event.
pub proof fn law_withdraw_empties_escrow(s: EscrowModel, program_id: u64, maintainer: Address)
    requires
        withdraw_result(s, program_id, maintainer).1 is Ok,
        s.program(program_id).unwrap().escrow_balance > 0,
    ensures
        ({
            let (t, r) = withdraw_result(s, program_id, maintainer);
            let p = s.program(program_id).unwrap();
            &&& r == Ok::<i128, ContractError>(p.escrow_balance)
            &&& t.program(program_id).unwrap().escrow_balance == 0
            &&& t.transfers == s.transfers
            &&& t.events == s.events
        }),
{
}

/// Whether `call` is a `resume` of program `program_id`.
pub open spec fn resumes(call: EscrowCall, program_id: u64) -> bool {
    match call {
        EscrowCall::Resume { program_id: id, .. } => id == program_id,
        _ => false,
    }
}

proof fn lemma_call_keeps_registration(s: EscrowModel, call: EscrowCall, k: (u64, Seq<char>))
    requires
        s.contributors.contains_key(k),
    ensures
        apply(s, call).0.contributors.contains_key(k),
        apply(s, call).0.contributors[k] == s.contributors[k],
{
}

proof fn lemma_registration_kept(s: EscrowModel, calls: Seq<EscrowCall>, k: (u64, Seq<char>))
    requires
        s.contributors.contains_key(k),
    ensures
        apply_all(s, calls).contributors.contains_key(k),
        apply_all(s, calls).contributors[k] == s.contributors[k],
    decreases calls.len(),
{
    if calls.len() > 0 {
        lemma_registration_kept(s, calls.drop_last(), k);
        lemma_call_keeps_registration(apply_all(s, calls.drop_last()), calls.last(), k);
    }
}

proof fn lemma_call_keeps_pause(s: EscrowModel, call: EscrowCall, program_id: u64)
    requires
        s.program(program_id) is Some,
        s.program(program_id).unwrap().status == ProgramStatus::Paused,
        !resumes(call, program_id),
    ensures
        apply(s, call).0.program(program_id) is Some,
        apply(s, call).0.program(program_id).unwrap().status == ProgramStatus::Paused,
{
}

proof fn lemma_pause_kept(s: EscrowModel, calls: Seq<EscrowCall>, program_id: u64)
    requires
        s.program(program_id) is Some,
        s.program(program_id).unwrap().status == ProgramStatus::Paused,
        forall|i: int| 0 <= i < calls.len() ==> !resumes(#[trigger] calls[i], program_id),
    ensures
        apply_all(s, calls).program(program_id) is Some,
        apply_all(s, calls).program(program_id).unwrap().status == ProgramStatus::Paused,
    decreases calls.len(),
{
    if calls.len() > 0 {
        assert(!resumes(calls[calls.len() - 1], program_id));
        lemma_pause_kept(s, calls.drop_last(), program_id);
        lemma_call_keeps_pause(apply_all(s, calls.drop_last()), calls.last(), program_id);
    }
}

/// A registration lasts: once `register_contributor` has registered a GitHub
/// username for a program at an address, that address stays registered for it
/// through any later calls, every later registration of the same username for
/// that program is refused, and every merge of that contributor recorded later
/// for the program pays the registered address.
pub proof fn law_registration_lasts(
    s: EscrowModel,
    program_id: u64,
    caller: Address,
    github_username: String,
    stellar_address: Address,
    later: Seq<EscrowCall>,
    caller2: Address,
    stellar_address2: Address,
    gateway: Address,
    pr_number: u64,
    points: u32,
)
    requires
        register_result(s, program_id, caller, github_username, stellar_address).1 is Ok,
    ensures
        ({
            let t = apply_all(
                register_result(s, program_id, caller, github_username, stellar_address).0,
                later,
            );
            &&& t.contributors.contains_key((program_id, github_username@))
            &&& t.contributors[(program_id, github_username@)] == stellar_address
            &&& register_result(t, program_id, caller2, github_username, stellar_address2).1 is Err
            &&& (t.signed(caller2) && t.program(program_id) is Some && t.program(
                program_id,
            ).unwrap().maintainer == caller2) ==> register_result(
                t,
                program_id,
                caller2,
                github_username,
                stellar_address2,
            ).1 == Err::<(), ContractError>(ContractError::ContributorAlreadyRegistered)
        }),
        ({
            let t = apply_all(
                register_result(s, program_id, caller, github_username, stellar_address).0,
                later,
            );
            let (u, r) = record_merge_result(
                t,
                gateway,
                program_id,
                github_username,
                pr_number,
                points,
            );
            r is Ok ==> u.transfers.last() == TokenTransfer {
                token: t.config.unwrap().token,
                from: t.contract_address,
                to: stellar_address,
                amount: r.unwrap(),
            }
        }),
{
    let first = register_result(s, program_id, caller, github_username, stellar_address).0;
    lemma_registration_kept(first, later, (program_id, github_username@));
}

/// A paused program stays paused until it is resumed: after `pause` succeeds,
/// any later calls that hold no `resume` of that program leave it paused, and
/// every merge then recorded for it is refused (with `ProgramPaused` where the
/// configured gateway, having authorized the call, asks for a PR not yet paid,
/// with points).
pub proof fn law_paused_until_resumed(
    s: EscrowModel,
    program_id: u64,
    maintainer: Address,
    later: Seq<EscrowCall>,
    gateway: Address,
    github_username: String,
    pr_number: u64,
    points: u32,
)
    requires
        pause_result(s, program_id, maintainer).1 is Ok,
        forall|i: int| 0 <= i < later.len() ==> !resumes(#[trigger] later[i], program_id),
    ensures
        ({
            let t = apply_all(pause_result(s, program_id, maintainer).0, later);
            &&& t.program(program_id) is Some
            &&& t.program(program_id).unwrap().status == ProgramStatus::Paused
            &&& record_merge_result(t, gateway, program_id, github_username, pr_number, points).1
                is Err
            &&& (t.signed(gateway) && t.config is Some && t.config.unwrap().gateway == gateway
                && points > 0 && !t.processed.contains((program_id, pr_number))) ==> record_merge_result(
                t,
                gateway,
                program_id,
                github_username,
                pr_number,
                points,
            ).1 == Err::<i128, ContractError>(ContractError::ProgramPaused)
        }),
{
    let first = pause_result(s, program_id, maintainer).0;
    let p = s.program(program_id).unwrap();
    assert(first.program(program_id).unwrap() == Program { status: ProgramStatus::Paused, ..p });
    lemma_pause_kept(first, later, program_id);
}

/// Programs are numbered 1, 2, 3, ... in the order they are created, and a new
/// program starts active with an empty escrow.
pub proof fn law_program_ids_are_sequential(
    s: EscrowModel,
    maintainer: Address,
    github_repo: String,
    reward_per_point: i128,
    milestone_cap: Option<i128>,
)
    requires
        create_program_result(s, maintainer, github_repo, reward_per_point, milestone_cap).1 is Ok,
    ensures
        ({
            let (t, r) = create_program_result(
                s,
                maintainer,
                github_repo,
                reward_per_point,
                milestone_cap,
            );
            &&& r == Ok::<u64, ContractError>((s.programs.len() + 1) as u64)
            &&& t.program(r.unwrap()) == Some(
                fresh_program(maintainer, github_repo, reward_per_point, milestone_cap),
            )
            &&& t.program(r.unwrap()).unwrap().escrow_balance == 0
            &&& t.program(r.unwrap()).unwrap().status == ProgramStatus::Active
        }),
{
}


/// Whether no call of `calls`, made in order from `s`, names the contract's own
/// address as the other side of a transfer.
pub open spec fn no_self_transfers(s: EscrowModel, calls: Seq<EscrowCall>) -> bool
    decreases calls.len(),
{
    if calls.len() == 0 {
        true
    } else {
        no_self_transfers(s, calls.drop_last()) && !call_moves_tokens_to_itself(
            apply_all(s, calls.drop_last()),
            calls.last(),
        )
    }
}

/// The escrow accounts for every token it was sent: after any sequence of calls
/// on a freshly deployed contract, the tokens held in escrow over all programs,
/// together with what `withdraw_remaining` has released to maintainers, are
/// exactly what the requested transfers moved into the contract less what they
/// moved out, and neither part is ever negative: the contract is never asked to
/// pay out more than it was given.
pub proof fn law_escrow_accounts_for_all_transfers(s: EscrowModel, calls: Seq<EscrowCall>)
    requires
        s.programs.len() == 0,
        s.contributors.is_empty(),
        s.processed.is_empty(),
        s.transfers.len() == 0,
        no_self_transfers(s, calls),
    ensures
        total_escrow(apply_all(s, calls).programs) + released_total(s, calls) == net_inflow(
            apply_all(s, calls).transfers,
            s.contract_address,
        ),
        total_escrow(apply_all(s, calls).programs) >= 0,
        released_total(s, calls) >= 0,
        escrow_wf(apply_all(s, calls)),
    decreases calls.len(),
{
    if calls.len() == 0 {
        law_fresh_contract_is_wf(s);
    } else {
        let before = apply_all(s, calls.drop_last());
        law_escrow_accounts_for_all_transfers(s, calls.drop_last());
        lemma_contract_address_kept(s, calls.drop_last());
        law_escrow_follows_token_flow(before, calls.last());
        law_calls_keep_escrow_wf(before, calls.last());
        law_effects_only_grow(before, calls.last());
        lemma_total_escrow_nonneg(apply_all(s, calls).programs);
    }
}

proof fn lemma_contract_address_kept(s: EscrowModel, calls: Seq<EscrowCall>)
    ensures
        apply_all(s, calls).contract_address == s.contract_address,
    decreases calls.len(),
{
    if calls.len() > 0 {
        lemma_contract_address_kept(s, calls.drop_last());
        law_effects_only_grow(apply_all(s, calls.drop_last()), calls.last());
    }
}

proof fn lemma_total_escrow_nonneg(ps: Seq<Program>)
    requires
        forall|i: int| 0 <= i < ps.len() ==> program_wf(#[trigger] ps[i]),
    ensures
        total_escrow(ps) >= 0,
    decreases ps.len(),
{
    if ps.len() > 0 {
        assert(program_wf(ps[ps.len() - 1]));
        assert forall|i: int| 0 <= i < ps.drop_last().len() implies program_wf(
            #[trigger] ps.drop_last()[i],
        ) by {
            assert(ps.drop_last()[i] == ps[i]);
        }
        lemma_total_escrow_nonneg(ps.drop_last());
    }
}

/// A merge is paid whenever nothing stands against it: when the configured
/// gateway has signed the call, the points are positive, the PR has not been
/// paid, the program is active, the contributor is registered, and the payout
/// `points * reward_per_point` fits in an `i128`, is covered by the escrow and
/// keeps the milestone spent total within the cap (reaching the cap exactly is
/// allowed). The call then answers with that payout, takes it out of the escrow,
/// adds it to the spent total where a cap is set, and pays the registered address.
pub proof fn law_covered_merge_is_paid(
    s: EscrowModel,
    gateway: Address,
    program_id: u64,
    github_username: String,
    pr_number: u64,
    points: u32,
)
    requires
        s.config is Some,
        s.config.unwrap().gateway == gateway,
        s.signed(gateway),
        points > 0,
        !s.processed.contains((program_id, pr_number)),
        s.program(program_id) is Some,
        program_wf(s.program(program_id).unwrap()),
        s.program(program_id).unwrap().status == ProgramStatus::Active,
        s.contributors.contains_key((program_id, github_username@)),
        ({
            let p = s.program(program_id).unwrap();
            let payout = points as int * p.reward_per_point as int;
            &&& payout <= i128::MAX
            &&& payout <= p.escrow_balance
            &&& p.milestone_cap matches Some(cap) ==> p.milestone_spent + payout <= cap
        }),
    ensures
        ({
            let p = s.program(program_id).unwrap();
            let payout = points as int * p.reward_per_point as int;
            let (t, r) = record_merge_result(
                s,
                gateway,
                program_id,
                github_username,
                pr_number,
                points,
            );
            &&& r == Ok::<i128, ContractError>(payout as i128)
            &&& t.program(program_id) is Some
            &&& t.program(program_id).unwrap().escrow_balance == p.escrow_balance - payout
            &&& t.program(program_id).unwrap().milestone_spent == if p.milestone_cap is Some {
                p.milestone_spent + payout
            } else {
                p.milestone_spent as int
            }
            &&& t.processed.contains((program_id, pr_number))
            &&& t.transfers == s.transfers.push(
                TokenTransfer {
                    token: s.config.unwrap().token,
                    from: s.contract_address,
                    to: s.contributors[(program_id, github_username@)],
                    amount: payout as i128,
                },
            )
        }),
{
    let p = s.program(program_id).unwrap();
    let payout = points as int * p.reward_per_point as int;
    assert(payout >= p.reward_per_point) by (nonlinear_arith)
        requires
            points as int >= 1,
            p.reward_per_point > 0,
            payout == points as int * p.reward_per_point as int,
    ;
}

/// A merge that the escrow cannot cover, or that would take the milestone spent
/// total beyond the cap, is refused and changes nothing: with everything else in
/// order, a payout above the escrow is refused with `InsufficientEscrow`, and a
/// covered payout that would bring the spent total above the cap (and within
/// the `i128` range, beyond which the sum is refused as an overflow) with
/// `MilestoneCapExceeded`.
pub proof fn law_uncovered_merge_is_refused(
    s: EscrowModel,
    gateway: Address,
    program_id: u64,
    github_username: String,
    pr_number: u64,
    points: u32,
)
    requires
        s.config is Some,
        s.config.unwrap().gateway == gateway,
        s.signed(gateway),
        points > 0,
        !s.processed.contains((program_id, pr_number)),
        s.program(program_id) is Some,
        program_wf(s.program(program_id).unwrap()),
        s.program(program_id).unwrap().status == ProgramStatus::Active,
        s.contributors.contains_key((program_id, github_username@)),
        points as int * s.program(program_id).unwrap().reward_per_point as int <= i128::MAX,
    ensures
        ({
            let p = s.program(program_id).unwrap();
            let payout = points as int * p.reward_per_point as int;
            let (t, r) = record_merge_result(
                s,
                gateway,
                program_id,
                github_username,
                pr_number,
                points,
            );
            &&& payout > p.escrow_balance ==> r == Err::<i128, ContractError>(
                ContractError::InsufficientEscrow,
            ) && t == s
            &&& (payout <= p.escrow_balance && p.milestone_cap is Some
                && p.milestone_cap.unwrap() < p.milestone_spent + payout <= i128::MAX) ==> r == Err::<
                i128,
                ContractError,
            >(ContractError::MilestoneCapExceeded) && t == s
        }),
{
    let p = s.program(program_id).unwrap();
    let payout = points as int * p.reward_per_point as int;
    assert(payout >= p.reward_per_point) by (nonlinear_arith)
        requires
            points as int >= 1,
            p.reward_per_point > 0,
            payout == points as int * p.reward_per_point as int,
    ;
}

/// Registering a contributor depends on the program's maintainer and on the
/// username being free, not on the program's status: when the maintainer has
/// signed the call and the username is not yet registered for an existing
/// program, active or paused, the registration succeeds and maps exactly that
/// username to the given address, leaving the programs as they were.
pub proof fn law_free_username_is_registered(
    s: EscrowModel,
    program_id: u64,
    caller: Address,
    github_username: String,
    stellar_address: Address,
)
    requires
        s.signed(caller),
        s.program(program_id) is Some,
        s.program(program_id).unwrap().maintainer == caller,
        !s.contributors.contains_key((program_id, github_username@)),
    ensures
        ({
            let (t, r) = register_result(s, program_id, caller, github_username, stellar_address);
            &&& r is Ok
            &&& t.contributors == s.contributors.insert(
                (program_id, github_username@),
                stellar_address,
            )
            &&& t.programs == s.programs
            &&& t.transfers == s.transfers
        }),
{
}

} // verus!
