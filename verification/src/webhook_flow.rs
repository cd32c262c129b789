//! The decisions of the gateway's GitHub webhook handler, as a state machine.
//!
//! A delivery is handled in steps. The flow names the next piece of outside work
//! as a `WebhookAction` (a database query, parsing the body, recording the
//! delivery, answering the request); the host performs it and hands the outcome
//! back as a `WebhookEvent`. The flow decides everything else: signature
//! verification, duplicate suppression, which pull-request events are payable
//! merges, the payout amount, the chain submission reference, what is recorded
//! about each delivery, and the HTTP answer.

use vstd::prelude::*;
use vstd::string::StringExecFns;

use crate::attestation::{build_attestation, payout_amount, submission_reference, submit_attestation};
use crate::config::AppConfig;
use crate::error::{detail_of, message_of, status_of, WaveFlowError};
use crate::text::str_eq;
use crate::types::GitHubPullRequestEvent;
use crate::webhook::{
    label_points, merge_event_refusal, parse_merge_event, signature_check, verify_github_signature,
    MergeAttestation, SignatureCheck,
};

verus! {

/// The request headers that the handler reads, each `None` when absent or not
/// readable as text.
#[derive(Debug)]
pub struct WebhookRequest {
    /// `X-Hub-Signature-256`
    pub signature: Option<String>,
    /// `X-GitHub-Event`
    pub event_type: Option<String>,
    /// `X-GitHub-Delivery`
    pub delivery_id: Option<String>,
}

/// What the handler needs of the configuration after the signature check.
#[derive(Debug)]
pub struct FlowSettings {
    pub soroban_rpc_url: String,
    pub escrow_contract_id: Option<String>,
    pub gateway_secret_key: Option<String>,
    pub escrow_low_balance_threshold: i64,
}

/// Whether chain submission is configured (contract id and gateway key both set).
pub open spec fn chain_configured(s: FlowSettings) -> bool {
    s.escrow_contract_id is Some && s.gateway_secret_key is Some
}

/// What the host read from the JSON body about the repository and PR number.
#[derive(Debug)]
pub struct PayloadFacts {
    /// `repository.full_name`, when present and a string.
    pub github_repo: Option<String>,
    /// `number`, when present and an unsigned integer.
    pub pr_number: Option<u64>,
}

/// Which payload a delivery record stores: the raw body (when the signature was
/// rejected) or the parsed JSON.
#[derive(Clone, Copy, Debug, PartialEq, Eq, Structural)]
pub enum PayloadKind {
    RawBody,
    Parsed,
}

/// The status a delivery is recorded with.
#[derive(Clone, Copy, Debug, PartialEq, Eq, Structural)]
pub enum EventStatus {
    Rejected,
    Ignored,
    Failed,
    Processed,
}

/// A row for the `webhook_events` table.
#[derive(Debug)]
pub struct EventRecord {
    pub delivery_id: Option<String>,
    pub event_type: String,
    pub github_repo: String,
    pub pr_number: Option<u64>,
    pub payload: PayloadKind,
    pub status: EventStatus,
    pub error_message: Option<String>,
}

/// The body of the HTTP answer.
#[derive(Debug)]
pub enum ResponseBody {
    /// `{"error": message}`
    Error { message: String },
    /// `{"status": "duplicate_delivery", "delivery_id": ...}`
    DuplicateDelivery { delivery_id: String },
    /// `{"status": "ignored"}`
    Ignored,
    /// `{"status": "ignored", "reason": ...}`
    IgnoredBecause { reason: String },
    /// `{"status": "already_processed", "payout_id", "program_id", "pr_number"}`
    AlreadyProcessed { payout_id: Option<u128>, program_id: u128, pr_number: u64 },
    /// `{"status": "processed", "payout_id", "tx_hash", "program_id"}`
    Processed { payout_id: u128, tx_hash: String, program_id: u128 },
}

#[derive(Debug)]
pub struct WebhookResponse {
    pub status: u16,
    pub body: ResponseBody,
}

/// The outside work that the flow asks the host to do next.
#[derive(Debug)]
pub enum WebhookAction {
    /// Insert a `webhook_events` row; answer with `EventRecorded`.
    RecordEvent(EventRecord),
    /// Look the delivery id up; answer with `DeliverySeen` (a failed query counts as not seen).
    CheckDeliverySeen { delivery_id: String },
    /// Reserve the delivery id; answer with `DeliveryClaimed`.
    ClaimDelivery { delivery_id: String, event_type: String },
    /// Parse the body as JSON; answer with `BodyParsed`.
    ParseBody,
    /// Read the parsed JSON as a pull-request event; answer with `PullRequestDecoded`.
    DecodePullRequest,
    /// Find the active program for a repository; answer with `ProgramResolved`.
    ResolveProgram { github_repo: String },
    /// Read a program's status; answer with `ProgramStatusLoaded`.
    LoadProgramStatus { program: u128 },
    /// Ask whether a payout exists for the PR; answer with `PayoutChecked`.
    CheckPayoutExists { program: u128, pr_number: u64 },
    /// Read the existing payout's id; answer with `PayoutIdFetched`.
    FetchPayoutId { program: u128, pr_number: u64 },
    /// Find the contributor's Stellar address; answer with `ContributorResolved`.
    ResolveContributor { program: u128, github_username: String },
    /// Read the program's reward per point; answer with `RewardLoaded`.
    LoadRewardPerPoint { program: u128 },
    /// Insert the payout row; answer with `PayoutPersisted`.
    PersistPayout {
        program: u128,
        merge: MergeAttestation,
        stellar_address: String,
        amount: i128,
        tx_hash: String,
    },
    /// Add the amount to the program's spent total; answer with `MilestoneUpdated`.
    IncrementMilestoneSpent { program: u128, amount: i128 },
    /// Run the low-balance alert check; answer with `AlertChecked`.
    CheckEscrowAlert { program: u128, threshold: i64 },
    /// Answer the HTTP request. The flow is then finished.
    Respond(WebhookResponse),
}

/// The outcome of the outside work the flow asked for.
#[derive(Debug)]
pub enum WebhookEvent {
    EventRecorded(Result<(), WaveFlowError>),
    DeliverySeen(bool),
    DeliveryClaimed(Result<(), WaveFlowError>),
    /// The JSON facts, or the parser's error text.
    BodyParsed(Result<PayloadFacts, String>),
    /// The pull-request event, or the decoder's error text.
    PullRequestDecoded(Result<GitHubPullRequestEvent, String>),
    /// The program's UUID (as a number) and its on-chain id.
    ProgramResolved(Result<(u128, u64), WaveFlowError>),
    ProgramStatusLoaded(Result<String, WaveFlowError>),
    PayoutChecked(Result<bool, WaveFlowError>),
    PayoutIdFetched(Result<Option<u128>, WaveFlowError>),
    ContributorResolved(Result<String, WaveFlowError>),
    RewardLoaded(Result<i64, WaveFlowError>),
    PayoutPersisted(Result<u128, WaveFlowError>),
    MilestoneUpdated(Result<(), WaveFlowError>),
    AlertChecked(Result<(), WaveFlowError>),
}

/// A merge being processed, with what is needed to record a failure.
#[derive(Debug)]
pub struct MergeContext {
    pub delivery_id: Option<String>,
    pub payload: PayloadFacts,
    pub merge: MergeAttestation,
}

/// Where the flow stands, and what the next event is the outcome of.
#[derive(Debug)]
pub enum Stage {
    /// The signature was refused and the delivery is being recorded as rejected.
    Rejecting { error: WaveFlowError },
    CheckingDelivery { event_type: String, delivery_id: String },
    ClaimingDelivery { event_type: String, delivery_id: String },
    ParsingBody { event_type: String, delivery_id: Option<String> },
    /// An event other than `pull_request` is being recorded as ignored.
    IgnoringEvent,
    DecodingPullRequest { delivery_id: Option<String>, payload: PayloadFacts },
    ResolvingProgram { ctx: MergeContext },
    LoadingStatus { ctx: MergeContext, program: u128, on_chain_id: u64 },
    CheckingPayout { ctx: MergeContext, program: u128, on_chain_id: u64 },
    FetchingPayoutId { ctx: MergeContext, program: u128 },
    ResolvingContributor { ctx: MergeContext, program: u128, on_chain_id: u64 },
    LoadingReward {
        ctx: MergeContext,
        program: u128,
        on_chain_id: u64,
        stellar_address: String,
        tx_hash: String,
    },
    PersistingPayout { ctx: MergeContext, program: u128, tx_hash: String, amount: i128 },
    UpdatingMilestone {
        ctx: MergeContext,
        program: u128,
        tx_hash: String,
        amount: i128,
        payout_id: u128,
    },
    CheckingAlert { ctx: MergeContext, program: u128, tx_hash: String, payout_id: u128 },
    RecordingProcessed { ctx: MergeContext, program: u128, tx_hash: String, payout_id: u128 },
    /// Processing failed; the delivery is being recorded as ignored or failed.
    RecordingFailure { error: WaveFlowError },
    Finished,
}

/// What the flow has learned so far, from the request and from each outcome the
/// host handed back.
pub struct FlowFacts {
    pub signature_valid: bool,
    pub event_type: Seq<char>,
    pub has_delivery_id: bool,
    pub delivery_seen: Option<bool>,
    pub delivery_claimed: bool,
    pub pull_request: Option<GitHubPullRequestEvent>,
    pub program: Option<(u128, u64)>,
    pub program_status: Option<Seq<char>>,
    pub payout_exists: Option<bool>,
    pub contributor: Option<Seq<char>>,
    pub reward_per_point: Option<i64>,
}

/// The facts after an outcome: each successful outcome is noted.
pub open spec fn record_fact(f: FlowFacts, e: WebhookEvent) -> FlowFacts {
    match e {
        WebhookEvent::DeliverySeen(b) => FlowFacts { delivery_seen: Some(b), ..f },
        WebhookEvent::DeliveryClaimed(Ok(_)) => FlowFacts { delivery_claimed: true, ..f },
        WebhookEvent::PullRequestDecoded(Ok(ev)) => FlowFacts { pull_request: Some(ev), ..f },
        WebhookEvent::ProgramResolved(Ok(p)) => FlowFacts { program: Some(p), ..f },
        WebhookEvent::ProgramStatusLoaded(Ok(s)) => FlowFacts { program_status: Some(s@), ..f },
        WebhookEvent::PayoutChecked(Ok(b)) => FlowFacts { payout_exists: Some(b), ..f },
        WebhookEvent::ContributorResolved(Ok(a)) => FlowFacts { contributor: Some(a@), ..f },
        WebhookEvent::RewardLoaded(Ok(r)) => FlowFacts { reward_per_point: Some(r), ..f },
        _ => f,
    }
}

// ------------------------------------------------------------ answer shapes

/// The answer to a failed request: the error's status and message.
pub open spec fn is_error_answer(a: WebhookAction, e: WaveFlowError) -> bool {
    a is Respond && a->Respond_0.status == status_of(e) && a->Respond_0.body is Error && a->Respond_0.body->message@
        == message_of(e)
}

/// The answer to a request refused as a bad webhook, with `detail`.
pub open spec fn is_webhook_error_answer(a: WebhookAction, detail: Seq<char>) -> bool {
    a is Respond && a->Respond_0.status == 400 && a->Respond_0.body is Error && a->Respond_0.body->message@
        == "webhook error: "@ + detail
}

/// Whether `g` is the merge attestation of the pull-request event `ev`.
pub open spec fn attests(g: MergeAttestation, ev: GitHubPullRequestEvent) -> bool {
    &&& g.github_repo == ev.repository.full_name
    &&& g.github_username == ev.pull_request.user.login
    &&& g.pr_number == ev.number
    &&& g.points == label_points(ev.pull_request.labels@)
}

/// The record of a delivery whose processing failed with `e`: ignored for a
/// validation error, failed otherwise, with the repository and PR number read
/// from the payload.
pub open spec fn is_failure_record(a: WebhookAction, ctx: MergeContext, e: WaveFlowError) -> bool {
    a matches WebhookAction::RecordEvent(rec) && {
        &&& rec.delivery_id == ctx.delivery_id
        &&& rec.event_type@ == "pull_request"@
        &&& rec.github_repo@ == match ctx.payload.github_repo {
            Some(r) => r@,
            None => "unknown"@,
        }
        &&& rec.pr_number == ctx.payload.pr_number
        &&& rec.payload == PayloadKind::Parsed
        &&& rec.status == if e is Validation {
            EventStatus::Ignored
        } else {
            EventStatus::Failed
        }
        &&& rec.error_message is Some
        &&& rec.error_message.unwrap()@ == message_of(e)
    }
}

pub open spec fn fails_with(t: Stage, a: WebhookAction, ctx: MergeContext, e: WaveFlowError) -> bool {
    t == Stage::RecordingFailure { error: e } && is_failure_record(a, ctx, e)
}

/// The transition table: from stage `s`, on outcome `e`, the flow moves to `t`
/// and asks for `a`.
pub open spec fn step_answer(
    settings: FlowSettings,
    s: Stage,
    e: WebhookEvent,
    t: Stage,
    a: WebhookAction,
) -> bool {
    match (s, e) {
        (Stage::Rejecting { error }, WebhookEvent::EventRecorded(_)) => t is Finished
            && is_error_answer(a, error),
        (Stage::CheckingDelivery { event_type, delivery_id }, WebhookEvent::DeliverySeen(seen)) => if seen {
            t is Finished && a is Respond && a->Respond_0.status == 200 && a->Respond_0.body
                == (ResponseBody::DuplicateDelivery { delivery_id })
        } else {
            t == (Stage::ClaimingDelivery { event_type, delivery_id }) && a
                == (WebhookAction::ClaimDelivery { delivery_id, event_type })
        },
        (Stage::ClaimingDelivery { event_type, delivery_id }, WebhookEvent::DeliveryClaimed(r)) => match r {
            Err(err) => t is Finished && is_error_answer(a, err),
            Ok(_) => t == (Stage::ParsingBody { event_type, delivery_id: Some(delivery_id) }) && a
                is ParseBody,
        },
        (Stage::ParsingBody { event_type, delivery_id }, WebhookEvent::BodyParsed(r)) => match r {
            Err(msg) => t is Finished && is_webhook_error_answer(a, "invalid JSON: "@ + msg@),
            Ok(facts) => if event_type@ != "pull_request"@ {
                t is IgnoringEvent && a is RecordEvent && a->RecordEvent_0.delivery_id == delivery_id
                    && a->RecordEvent_0.event_type == event_type && a->RecordEvent_0.github_repo@ == "unknown"@
                    && a->RecordEvent_0.pr_number is None && a->RecordEvent_0.payload == PayloadKind::Parsed && a->RecordEvent_0.status
                    == EventStatus::Ignored && a->RecordEvent_0.error_message is Some
                    && a->RecordEvent_0.error_message.unwrap()@ == "unsupported event type"@
            } else {
                t == (Stage::DecodingPullRequest { delivery_id, payload: facts }) && a
                    is DecodePullRequest
            },
        },
        (Stage::IgnoringEvent, WebhookEvent::EventRecorded(_)) => t is Finished && a is Respond
            && a->Respond_0.status == 200 && a->Respond_0.body is Ignored,
        (
            Stage::DecodingPullRequest { delivery_id, payload },
            WebhookEvent::PullRequestDecoded(r),
        ) => match r {
            Err(msg) => t is Finished && is_webhook_error_answer(
                a,
                "invalid pull_request payload: "@ + msg@,
            ),
            Ok(ev) => match merge_event_refusal(ev) {
                Some(reason) => t matches Stage::RecordingFailure { error } && error is Validation
                    && detail_of(error) == reason && is_failure_record(
                    a,
                    MergeContext { delivery_id, payload, merge: arbitrary() },
                    error,
                ),
                None => t matches Stage::ResolvingProgram { ctx } && ctx.delivery_id == delivery_id
                    && ctx.payload == payload && attests(ctx.merge, ev) && a
                    == (WebhookAction::ResolveProgram { github_repo: ev.repository.full_name }),
            },
        },
        (Stage::ResolvingProgram { ctx }, WebhookEvent::ProgramResolved(r)) => match r {
            Err(err) => fails_with(t, a, ctx, err),
            Ok((program, on_chain_id)) => t == (Stage::LoadingStatus { ctx, program, on_chain_id })
                && a == (WebhookAction::LoadProgramStatus { program }),
        },
        (
            Stage::LoadingStatus { ctx, program, on_chain_id },
            WebhookEvent::ProgramStatusLoaded(r),
        ) => match r {
            Err(err) => fails_with(t, a, ctx, err),
            Ok(status) => if status@ == "paused"@ {
                t matches Stage::RecordingFailure { error } && error is Validation && detail_of(
                    error,
                ) == "program is paused"@ && is_failure_record(a, ctx, error)
            } else {
                t == (Stage::CheckingPayout { ctx, program, on_chain_id }) && a
                    == (WebhookAction::CheckPayoutExists { program, pr_number: ctx.merge.pr_number })
            },
        },
        (Stage::CheckingPayout { ctx, program, on_chain_id }, WebhookEvent::PayoutChecked(r)) => match r {
            Err(err) => fails_with(t, a, ctx, err),
            Ok(true) => t == (Stage::FetchingPayoutId { ctx, program }) && a
                == (WebhookAction::FetchPayoutId { program, pr_number: ctx.merge.pr_number }),
            Ok(false) => t == (Stage::ResolvingContributor { ctx, program, on_chain_id }) && a
                == (WebhookAction::ResolveContributor {
                program,
                github_username: ctx.merge.github_username,
            }),
        },
        (Stage::FetchingPayoutId { ctx, program }, WebhookEvent::PayoutIdFetched(r)) => match r {
            Err(err) => fails_with(t, a, ctx, err),
            Ok(payout_id) => t is Finished && a is Respond && a->Respond_0.status == 200 && a->Respond_0.body
                == (ResponseBody::AlreadyProcessed {
                payout_id,
                program_id: program,
                pr_number: ctx.merge.pr_number,
            }),
        },
        (
            Stage::ResolvingContributor { ctx, program, on_chain_id },
            WebhookEvent::ContributorResolved(r),
        ) => match r {
            Err(err) => fails_with(t, a, ctx, err),
            Ok(address) => t matches Stage::LoadingReward {
                ctx: c2,
                program: p2,
                on_chain_id: o2,
                stellar_address,
                tx_hash,
            } && c2 == ctx && p2 == program && o2 == on_chain_id && stellar_address == address
                && tx_hash@ == submission_reference(
                chain_configured(settings),
                on_chain_id,
                ctx.merge.pr_number,
            ) && a == (WebhookAction::LoadRewardPerPoint { program }),
        },
        (
            Stage::LoadingReward { ctx, program, on_chain_id, stellar_address, tx_hash },
            WebhookEvent::RewardLoaded(r),
        ) => match r {
            Err(err) => fails_with(t, a, ctx, err),
            Ok(reward) => t matches Stage::PersistingPayout {
                ctx: c2,
                program: p2,
                tx_hash: h2,
                amount,
            } && c2 == ctx && p2 == program && h2 == tx_hash && amount == ctx.merge.points as int
                * reward as int && a == (WebhookAction::PersistPayout {
                program,
                merge: ctx.merge,
                stellar_address,
                amount,
                tx_hash,
            }),
        },
        (
            Stage::PersistingPayout { ctx, program, tx_hash, amount },
            WebhookEvent::PayoutPersisted(r),
        ) => match r {
            Err(err) => fails_with(t, a, ctx, err),
            Ok(payout_id) => t == (Stage::UpdatingMilestone {
                ctx,
                program,
                tx_hash,
                amount,
                payout_id,
            }) && a == (WebhookAction::IncrementMilestoneSpent { program, amount }),
        },
        (
            Stage::UpdatingMilestone { ctx, program, tx_hash, amount, payout_id },
            WebhookEvent::MilestoneUpdated(r),
        ) => match r {
            Err(err) => fails_with(t, a, ctx, err),
            Ok(_) => t == (Stage::CheckingAlert { ctx, program, tx_hash, payout_id }) && a
                == (WebhookAction::CheckEscrowAlert {
                program,
                threshold: settings.escrow_low_balance_threshold,
            }),
        },
        (
            Stage::CheckingAlert { ctx, program, tx_hash, payout_id },
            WebhookEvent::AlertChecked(r),
        ) => match r {
            Err(err) => fails_with(t, a, ctx, err),
            Ok(_) => t matches Stage::RecordingProcessed {
                ctx: c2,
                program: p2,
                tx_hash: h2,
                payout_id: i2,
            } && c2 == ctx && p2 == program && h2 == tx_hash && i2 == payout_id && a is RecordEvent
                && a->RecordEvent_0.delivery_id == ctx.delivery_id && a->RecordEvent_0.event_type@ == "pull_request"@
                && a->RecordEvent_0.github_repo == ctx.merge.github_repo && a->RecordEvent_0.pr_number == Some(
                ctx.merge.pr_number,
            ) && a->RecordEvent_0.payload == PayloadKind::Parsed && a->RecordEvent_0.status == EventStatus::Processed
                && a->RecordEvent_0.error_message is None,
        },
        (
            Stage::RecordingProcessed { ctx, program, tx_hash, payout_id },
            WebhookEvent::EventRecorded(r),
        ) => match r {
            Err(err) => fails_with(t, a, ctx, err),
            Ok(_) => t is Finished && a is Respond && a->Respond_0.status == 200 && a->Respond_0.body
                == (ResponseBody::Processed {
                payout_id,
                tx_hash,
                program_id: program,
            }),
        },
        (Stage::RecordingFailure { error }, WebhookEvent::EventRecorded(_)) => t is Finished && if error is Validation {
            a is Respond && a->Respond_0.status == 200 && a->Respond_0.body is IgnoredBecause
                && a->Respond_0.body->reason@ == message_of(error)
        } else {
            is_error_answer(a, error)
        },
        _ => false,
    }
}

/// Which outcome each stage waits for.
pub open spec fn accepts_event(s: Stage, e: WebhookEvent) -> bool {
    match (s, e) {
        (Stage::Rejecting { .. }, WebhookEvent::EventRecorded(_)) => true,
        (Stage::CheckingDelivery { .. }, WebhookEvent::DeliverySeen(_)) => true,
        (Stage::ClaimingDelivery { .. }, WebhookEvent::DeliveryClaimed(_)) => true,
        (Stage::ParsingBody { .. }, WebhookEvent::BodyParsed(_)) => true,
        (Stage::IgnoringEvent, WebhookEvent::EventRecorded(_)) => true,
        (Stage::DecodingPullRequest { .. }, WebhookEvent::PullRequestDecoded(_)) => true,
        (Stage::ResolvingProgram { .. }, WebhookEvent::ProgramResolved(_)) => true,
        (Stage::LoadingStatus { .. }, WebhookEvent::ProgramStatusLoaded(_)) => true,
        (Stage::CheckingPayout { .. }, WebhookEvent::PayoutChecked(_)) => true,
        (Stage::FetchingPayoutId { .. }, WebhookEvent::PayoutIdFetched(_)) => true,
        (Stage::ResolvingContributor { .. }, WebhookEvent::ContributorResolved(_)) => true,
        (Stage::LoadingReward { .. }, WebhookEvent::RewardLoaded(_)) => true,
        (Stage::PersistingPayout { .. }, WebhookEvent::PayoutPersisted(_)) => true,
        (Stage::UpdatingMilestone { .. }, WebhookEvent::MilestoneUpdated(_)) => true,
        (Stage::CheckingAlert { .. }, WebhookEvent::AlertChecked(_)) => true,
        (Stage::RecordingProcessed { .. }, WebhookEvent::EventRecorded(_)) => true,
        (Stage::RecordingFailure { .. }, WebhookEvent::EventRecorded(_)) => true,
        _ => false,
    }
}

/// An upper bound on the steps left before the flow answers.
pub open spec fn steps_left(s: Stage) -> nat {
    match s {
        Stage::Finished => 0,
        Stage::Rejecting { .. } => 1,
        Stage::IgnoringEvent => 1,
        Stage::RecordingFailure { .. } => 1,
        Stage::RecordingProcessed { .. } => 2,
        Stage::FetchingPayoutId { .. } => 2,
        Stage::CheckingAlert { .. } => 3,
        Stage::UpdatingMilestone { .. } => 4,
        Stage::PersistingPayout { .. } => 5,
        Stage::LoadingReward { .. } => 6,
        Stage::ResolvingContributor { .. } => 7,
        Stage::CheckingPayout { .. } => 8,
        Stage::LoadingStatus { .. } => 9,
        Stage::ResolvingProgram { .. } => 10,
        Stage::DecodingPullRequest { .. } => 11,
        Stage::ParsingBody { .. } => 12,
        Stage::ClaimingDelivery { .. } => 13,
        Stage::CheckingDelivery { .. } => 14,
    }
}

/// Whether the recorded delivery checks let processing go on: either there was
/// no delivery id, or it had not been seen and was claimed.
pub open spec fn delivery_cleared(f: FlowFacts) -> bool {
    !f.has_delivery_id || (f.delivery_seen == Some(false) && f.delivery_claimed)
}

/// What a payout rests on: a valid signature, a cleared delivery, a
/// `pull_request` event that is a merge to the default branch, an active
/// program, no earlier payout for the PR, a registered contributor, the amount
/// `points * reward_per_point`, and the chain submission reference.
pub open spec fn payout_authorized(
    f: FlowFacts,
    settings: FlowSettings,
    program: u128,
    merge: MergeAttestation,
    stellar_address: String,
    amount: i128,
    tx_hash: String,
) -> bool {
    &&& f.signature_valid
    &&& delivery_cleared(f)
    &&& f.event_type == "pull_request"@
    &&& f.pull_request matches Some(ev) && merge_event_refusal(ev) is None && attests(merge, ev)
    &&& f.program matches Some(p) && p.0 == program && tx_hash@ == submission_reference(
        chain_configured(settings),
        p.1,
        merge.pr_number,
    )
    &&& f.program_status matches Some(status) && status != "paused"@
    &&& f.payout_exists == Some(false)
    &&& f.contributor == Some(stellar_address@)
    &&& f.reward_per_point matches Some(r) && amount == merge.points as int * r as int
}

/// The flow of one webhook delivery.
pub struct WebhookFlow {
    settings: FlowSettings,
    stage: Stage,
    facts: Ghost<FlowFacts>,
}

/// How the facts fit each stage.
pub open spec fn facts_fit(settings: FlowSettings, s: Stage, f: FlowFacts) -> bool {
    match s {
        Stage::CheckingDelivery { event_type, .. } => f.signature_valid && f.event_type
            == event_type@ && f.has_delivery_id && f.delivery_seen is None,
        Stage::ClaimingDelivery { event_type, .. } => f.signature_valid && f.event_type
            == event_type@ && f.has_delivery_id && f.delivery_seen == Some(false),
        Stage::ParsingBody { event_type, delivery_id } => f.signature_valid && f.event_type
            == event_type@ && delivery_cleared(f),
        Stage::DecodingPullRequest { .. } => f.signature_valid && f.event_type == "pull_request"@
            && delivery_cleared(f),
        Stage::ResolvingProgram { ctx } => merge_cleared(f, ctx.merge),
        Stage::LoadingStatus { ctx, program, on_chain_id } => merge_cleared(f, ctx.merge)
            && f.program == Some((program, on_chain_id)),
        Stage::CheckingPayout { ctx, program, on_chain_id } => merge_cleared(f, ctx.merge)
            && f.program == Some((program, on_chain_id)) && program_active(f),
        Stage::ResolvingContributor { ctx, program, on_chain_id } => merge_cleared(f, ctx.merge)
            && f.program == Some((program, on_chain_id)) && program_active(f) && f.payout_exists
            == Some(false),
        Stage::LoadingReward { ctx, program, on_chain_id, stellar_address, tx_hash } =>
            merge_cleared(f, ctx.merge) && f.program == Some((program, on_chain_id))
            && program_active(f) && f.payout_exists == Some(false) && f.contributor == Some(
            stellar_address@,
        ) && tx_hash@ == submission_reference(
            chain_configured(settings),
            on_chain_id,
            ctx.merge.pr_number,
        ),
        _ => true,
    }
}

pub open spec fn merge_cleared(f: FlowFacts, merge: MergeAttestation) -> bool {
    &&& f.signature_valid
    &&& delivery_cleared(f)
    &&& f.event_type == "pull_request"@
    &&& f.pull_request matches Some(ev) && merge_event_refusal(ev) is None && attests(merge, ev)
}

pub open spec fn program_active(f: FlowFacts) -> bool {
    f.program_status matches Some(status) && status != "paused"@
}

impl WebhookFlow {
    #[verifier::type_invariant]
    spec fn facts_hold(self) -> bool {
        facts_fit(self.settings, self.stage, self.facts@)
    }

    pub closed spec fn stage(&self) -> Stage {
        self.stage
    }

    pub closed spec fn facts(&self) -> FlowFacts {
        self.facts@
    }

    pub closed spec fn settings(&self) -> FlowSettings {
        self.settings
    }
}

// --------------------------------------------------------------- executable

fn unknown() -> (r: String)
    ensures
        r@ == "unknown"@,
{
    String::from_str("unknown")
}

fn clone_opt(s: &Option<String>) -> (r: Option<String>)
    ensures
        r == *s,
{
    match s {
        Some(x) => Some(x.clone()),
        None => None,
    }
}

fn error_answer(error: &WaveFlowError) -> (r: WebhookAction)
    ensures
        is_error_answer(r, *error),
{
    WebhookAction::Respond(
        WebhookResponse {
            status: error.http_status_code(),
            body: ResponseBody::Error { message: error.message() },
        },
    )
}

fn webhook_error_answer(what: &str, detail: &String) -> (r: WebhookAction)
    ensures
        is_webhook_error_answer(r, what@ + detail@),
{
    let mut text = String::from_str(what);
    text.append(detail.as_str());
    let error = WaveFlowError::Webhook(text);
    error_answer(&error)
}

fn failure_record(delivery_id: &Option<String>, payload: &PayloadFacts, error: &WaveFlowError) -> (r:
    WebhookAction)
    ensures
        is_failure_record(
            r,
            MergeContext { delivery_id: *delivery_id, payload: *payload, merge: arbitrary() },
            *error,
        ),
{
    let github_repo = match &payload.github_repo {
        Some(r) => r.clone(),
        None => unknown(),
    };
    let status = if error.is_validation() {
        EventStatus::Ignored
    } else {
        EventStatus::Failed
    };
    WebhookAction::RecordEvent(
        EventRecord {
            delivery_id: clone_opt(delivery_id),
            event_type: String::from_str("pull_request"),
            github_repo,
            pr_number: payload.pr_number,
            payload: PayloadKind::Parsed,
            status,
            error_message: Some(error.message()),
        },
    )
}

fn fail(ctx: &MergeContext, error: WaveFlowError) -> (r: (Stage, WebhookAction))
    ensures
        fails_with(r.0, r.1, *ctx, error),
{
    let action = failure_record(&ctx.delivery_id, &ctx.payload, &error);
    (Stage::RecordingFailure { error }, action)
}

impl WebhookFlow {
    /// Starts handling a delivery: checks its signature against the webhook
    /// secret, then either records the rejection, or asks for the duplicate check
    /// (when the delivery has an id) or for the body to be parsed.
    pub fn start(config: &AppConfig, request: WebhookRequest, body: &[u8]) -> (r: (
        WebhookFlow,
        WebhookAction,
    ))
        ensures
            ({
                let header = match request.signature {
                    Some(s) => s@,
                    None => Seq::empty(),
                };
                let check = signature_check(config.github_webhook_secret@, body@, header);
                let event_type = match request.event_type {
                    Some(s) => s@,
                    None => "unknown"@,
                };
                let (flow, a) = r;
                &&& flow.settings().soroban_rpc_url == config.soroban_rpc_url
                &&& flow.settings().escrow_contract_id == config.escrow_contract_id
                &&& flow.settings().gateway_secret_key == config.gateway_secret_key
                &&& flow.settings().escrow_low_balance_threshold
                    == config.escrow_low_balance_threshold
                &&& flow.facts().signature_valid == (check is Valid)
                &&& flow.facts().event_type == event_type
                &&& flow.facts().has_delivery_id == (request.delivery_id is Some)
                &&& if !(check is Valid) {
                    &&& flow.stage() matches Stage::Rejecting { error } && (match check {
                        SignatureCheck::MissingPrefix => error is Webhook && detail_of(error)
                            == "missing sha256 prefix"@,
                        SignatureCheck::BadHex => error is Webhook && detail_of(error)
                            == "invalid signature hex"@,
                        _ => error is Unauthorized && detail_of(error)
                            == "invalid webhook signature"@,
                    })
                    &&& a is RecordEvent && a->RecordEvent_0.delivery_id == request.delivery_id
                        && a->RecordEvent_0.event_type@ == event_type && a->RecordEvent_0.github_repo@ == "unknown"@
                        && a->RecordEvent_0.pr_number is None && a->RecordEvent_0.payload == PayloadKind::RawBody
                        && a->RecordEvent_0.status == EventStatus::Rejected && a->RecordEvent_0.error_message is Some
                        && a->RecordEvent_0.error_message.unwrap()@ == "invalid webhook signature"@
                } else {
                    match request.delivery_id {
                        Some(d) => flow.stage() matches Stage::CheckingDelivery {
                            event_type: et,
                            delivery_id,
                        } && et@ == event_type && delivery_id == d && a
                            == (WebhookAction::CheckDeliverySeen { delivery_id: d }),
                        None => flow.stage() matches Stage::ParsingBody { event_type: et, delivery_id }
                            && et@ == event_type && delivery_id is None && a is ParseBody,
                    }
                }
            }),
    {
        let settings = FlowSettings {
            soroban_rpc_url: config.soroban_rpc_url.clone(),
            escrow_contract_id: clone_opt(&config.escrow_contract_id),
            gateway_secret_key: clone_opt(&config.gateway_secret_key),
            escrow_low_balance_threshold: config.escrow_low_balance_threshold,
        };
        let signature = match request.signature {
            Some(s) => s,
            None => String::new(),
        };
        let event_type = match request.event_type {
            Some(s) => s,
            None => unknown(),
        };
        let verdict = verify_github_signature(
            config.github_webhook_secret.as_str(),
            body,
            signature.as_str(),
        );
        let ghost facts = FlowFacts {
            signature_valid: verdict is Ok,
            event_type: event_type@,
            has_delivery_id: request.delivery_id is Some,
            delivery_seen: None,
            delivery_claimed: false,
            pull_request: None,
            program: None,
            program_status: None,
            payout_exists: None,
            contributor: None,
            reward_per_point: None,
        };
        match verdict {
            Err(error) => {
                let action = WebhookAction::RecordEvent(
                    EventRecord {
                        delivery_id: request.delivery_id,
                        event_type,
                        github_repo: unknown(),
                        pr_number: None,
                        payload: PayloadKind::RawBody,
                        status: EventStatus::Rejected,
                        error_message: Some(String::from_str("invalid webhook signature")),
                    },
                );
                (
                    WebhookFlow {
                        settings,
                        stage: Stage::Rejecting { error },
                        facts: Ghost(facts),
                    },
                    action,
                )
            },
            Ok(()) => match request.delivery_id {
                Some(d) => {
                    let action = WebhookAction::CheckDeliverySeen { delivery_id: d.clone() };
                    (
                        WebhookFlow {
                            settings,
                            stage: Stage::CheckingDelivery { event_type, delivery_id: d },
                            facts: Ghost(facts),
                        },
                        action,
                    )
                },
                None => (
                    WebhookFlow {
                        settings,
                        stage: Stage::ParsingBody { event_type, delivery_id: None },
                        facts: Ghost(facts),
                    },
                    WebhookAction::ParseBody,
                ),
            },
        }
    }

    /// Whether this flow is waiting for an outcome of `event`'s kind.
    pub fn accepts(&self, event: &WebhookEvent) -> (r: bool)
        ensures
            r == accepts_event(self.stage(), *event),
    {
        match (&self.stage, event) {
            (Stage::Rejecting { .. }, WebhookEvent::EventRecorded(_)) => true,
            (Stage::CheckingDelivery { .. }, WebhookEvent::DeliverySeen(_)) => true,
            (Stage::ClaimingDelivery { .. }, WebhookEvent::DeliveryClaimed(_)) => true,
            (Stage::ParsingBody { .. }, WebhookEvent::BodyParsed(_)) => true,
            (Stage::IgnoringEvent, WebhookEvent::EventRecorded(_)) => true,
            (Stage::DecodingPullRequest { .. }, WebhookEvent::PullRequestDecoded(_)) => true,
            (Stage::ResolvingProgram { .. }, WebhookEvent::ProgramResolved(_)) => true,
            (Stage::LoadingStatus { .. }, WebhookEvent::ProgramStatusLoaded(_)) => true,
            (Stage::CheckingPayout { .. }, WebhookEvent::PayoutChecked(_)) => true,
            (Stage::FetchingPayoutId { .. }, WebhookEvent::PayoutIdFetched(_)) => true,
            (Stage::ResolvingContributor { .. }, WebhookEvent::ContributorResolved(_)) => true,
            (Stage::LoadingReward { .. }, WebhookEvent::RewardLoaded(_)) => true,
            (Stage::PersistingPayout { .. }, WebhookEvent::PayoutPersisted(_)) => true,
            (Stage::UpdatingMilestone { .. }, WebhookEvent::MilestoneUpdated(_)) => true,
            (Stage::CheckingAlert { .. }, WebhookEvent::AlertChecked(_)) => true,
            (Stage::RecordingProcessed { .. }, WebhookEvent::EventRecorded(_)) => true,
            (Stage::RecordingFailure { .. }, WebhookEvent::EventRecorded(_)) => true,
            _ => false,
        }
    }

    /// Whether the flow has answered the request.
    pub fn is_finished(&self) -> (r: bool)
        ensures
            r == (self.stage() is Finished),
    {
        match self.stage {
            Stage::Finished => true,
            _ => false,
        }
    }

    /// Takes the outcome of the last action and decides what comes next.
    pub fn step(self, event: WebhookEvent) -> (r: (WebhookFlow, WebhookAction))
        requires
            accepts_event(self.stage(), event),
        ensures
            step_answer(self.settings(), self.stage(), event, r.0.stage(), r.1),
            r.0.settings() == self.settings(),
            r.0.facts() == record_fact(self.facts(), event),
            steps_left(r.0.stage()) < steps_left(self.stage()),
            (r.1 is Respond) == (r.0.stage() is Finished),
            r.1 matches WebhookAction::PersistPayout {
                program,
                merge,
                stellar_address,
                amount,
                tx_hash,
            } ==> payout_authorized(
                r.0.facts(),
                r.0.settings(),
                program,
                merge,
                stellar_address,
                amount,
                tx_hash,
            ),
    {
        proof {
            use_type_invariant(&self);
        }
        let ghost old_facts = self.facts@;
        let ghost facts = record_fact(old_facts, event);
        let WebhookFlow { settings, stage, facts: _ } = self;
        let (next, action) = Self::decide(&settings, stage, event, Ghost(old_facts));
        (WebhookFlow { settings, stage: next, facts: Ghost(facts) }, action)
    }

    /// The transition table, executed.
    fn decide(settings: &FlowSettings, stage: Stage, event: WebhookEvent, Ghost(f): Ghost<FlowFacts>) -> (r: (Stage, WebhookAction))
        requires
            accepts_event(stage, event),
            facts_fit(*settings, stage, f),
        ensures
            step_answer(*settings, stage, event, r.0, r.1),
            facts_fit(*settings, r.0, record_fact(f, event)),
            steps_left(r.0) < steps_left(stage),
            (r.1 is Respond) == (r.0 is Finished),
            r.1 matches WebhookAction::PersistPayout {
                program,
                merge,
                stellar_address,
                amount,
                tx_hash,
            } ==> payout_authorized(
                record_fact(f, event),
                *settings,
                program,
                merge,
                stellar_address,
                amount,
                tx_hash,
            ),
    {
        match stage {
            Stage::Rejecting { error } => {
                let action = error_answer(&error);
                (Stage::Finished, action)
            },
            Stage::CheckingDelivery { event_type, delivery_id } => match event {
                WebhookEvent::DeliverySeen(seen) => {
                    if seen {
                        (
                            Stage::Finished,
                            WebhookAction::Respond(
                                WebhookResponse {
                                    status: 200,
                                    body: ResponseBody::DuplicateDelivery { delivery_id },
                                },
                            ),
                        )
                    } else {
                        let action = WebhookAction::ClaimDelivery {
                            delivery_id: delivery_id.clone(),
                            event_type: event_type.clone(),
                        };
                        (Stage::ClaimingDelivery { event_type, delivery_id }, action)
                    }
                },
                _ => (Stage::Finished, WebhookAction::ParseBody),
            },
            Stage::ClaimingDelivery { event_type, delivery_id } => match event {
                WebhookEvent::DeliveryClaimed(Err(error)) => {
                    let action = error_answer(&error);
                    (Stage::Finished, action)
                },
                WebhookEvent::DeliveryClaimed(Ok(())) => (
                    Stage::ParsingBody { event_type, delivery_id: Some(delivery_id) },
                    WebhookAction::ParseBody,
                ),
                _ => (Stage::Finished, WebhookAction::ParseBody),
            },
            Stage::ParsingBody { event_type, delivery_id } => match event {
                WebhookEvent::BodyParsed(Err(msg)) => {
                    let action = webhook_error_answer("invalid JSON: ", &msg);
                    (Stage::Finished, action)
                },
                WebhookEvent::BodyParsed(Ok(payload)) => {
                    if !str_eq(event_type.as_str(), "pull_request") {
                        let action = WebhookAction::RecordEvent(
                            EventRecord {
                                delivery_id,
                                event_type,
                                github_repo: unknown(),
                                pr_number: None,
                                payload: PayloadKind::Parsed,
                                status: EventStatus::Ignored,
                                error_message: Some(String::from_str("unsupported event type")),
                            },
                        );
                        (Stage::IgnoringEvent, action)
                    } else {
                        (
                            Stage::DecodingPullRequest { delivery_id, payload },
                            WebhookAction::DecodePullRequest,
                        )
                    }
                },
                _ => (Stage::Finished, WebhookAction::ParseBody),
            },
            Stage::IgnoringEvent => (
                Stage::Finished,
                WebhookAction::Respond(WebhookResponse { status: 200, body: ResponseBody::Ignored }),
            ),
            Stage::DecodingPullRequest { delivery_id, payload } => match event {
                WebhookEvent::PullRequestDecoded(Err(msg)) => {
                    let action = webhook_error_answer("invalid pull_request payload: ", &msg);
                    (Stage::Finished, action)
                },
                WebhookEvent::PullRequestDecoded(Ok(ev)) => match parse_merge_event(&ev) {
                    Err(error) => {
                        let action = failure_record(&delivery_id, &payload, &error);
                        (Stage::RecordingFailure { error }, action)
                    },
                    Ok(merge) => {
                        let action = WebhookAction::ResolveProgram {
                            github_repo: merge.github_repo.clone(),
                        };
                        (
                            Stage::ResolvingProgram {
                                ctx: MergeContext { delivery_id, payload, merge },
                            },
                            action,
                        )
                    },
                },
                _ => (Stage::Finished, WebhookAction::ParseBody),
            },
            Stage::ResolvingProgram { ctx } => match event {
                WebhookEvent::ProgramResolved(Err(error)) => fail(&ctx, error),
                WebhookEvent::ProgramResolved(Ok((program, on_chain_id))) => (
                    Stage::LoadingStatus { ctx, program, on_chain_id },
                    WebhookAction::LoadProgramStatus { program },
                ),
                _ => (Stage::Finished, WebhookAction::ParseBody),
            },
            Stage::LoadingStatus { ctx, program, on_chain_id } => match event {
                WebhookEvent::ProgramStatusLoaded(Err(error)) => fail(&ctx, error),
                WebhookEvent::ProgramStatusLoaded(Ok(status)) => {
                    if str_eq(status.as_str(), "paused") {
                        fail(&ctx, WaveFlowError::Validation(String::from_str("program is paused")))
                    } else {
                        let pr_number = ctx.merge.pr_number;
                        (
                            Stage::CheckingPayout { ctx, program, on_chain_id },
                            WebhookAction::CheckPayoutExists { program, pr_number },
                        )
                    }
                },
                _ => (Stage::Finished, WebhookAction::ParseBody),
            },
            Stage::CheckingPayout { ctx, program, on_chain_id } => match event {
                WebhookEvent::PayoutChecked(Err(error)) => fail(&ctx, error),
                WebhookEvent::PayoutChecked(Ok(exists)) => {
                    if exists {
                        let pr_number = ctx.merge.pr_number;
                        (
                            Stage::FetchingPayoutId { ctx, program },
                            WebhookAction::FetchPayoutId { program, pr_number },
                        )
                    } else {
                        let action = WebhookAction::ResolveContributor {
                            program,
                            github_username: ctx.merge.github_username.clone(),
                        };
                        (Stage::ResolvingContributor { ctx, program, on_chain_id }, action)
                    }
                },
                _ => (Stage::Finished, WebhookAction::ParseBody),
            },
            Stage::FetchingPayoutId { ctx, program } => match event {
                WebhookEvent::PayoutIdFetched(Err(error)) => fail(&ctx, error),
                WebhookEvent::PayoutIdFetched(Ok(payout_id)) => (
                    Stage::Finished,
                    WebhookAction::Respond(
                        WebhookResponse {
                            status: 200,
                            body: ResponseBody::AlreadyProcessed {
                                payout_id,
                                program_id: program,
                                pr_number: ctx.merge.pr_number,
                            },
                        },
                    ),
                ),
                _ => (Stage::Finished, WebhookAction::ParseBody),
            },
            Stage::ResolvingContributor { ctx, program, on_chain_id } => match event {
                WebhookEvent::ContributorResolved(Err(error)) => fail(&ctx, error),
                WebhookEvent::ContributorResolved(Ok(stellar_address)) => {
                    let attestation = build_attestation(on_chain_id, &ctx.merge);
                    let contract_id = match &settings.escrow_contract_id {
                        Some(c) => Some(c.as_str()),
                        None => None,
                    };
                    let secret_key = match &settings.gateway_secret_key {
                        Some(k) => Some(k.as_str()),
                        None => None,
                    };
                    let tx_hash = match submit_attestation(
                        settings.soroban_rpc_url.as_str(),
                        contract_id,
                        secret_key,
                        &attestation,
                    ) {
                        Ok(h) => h,
                        Err(error) => return fail(&ctx, error),
                    };
                    (
                        Stage::LoadingReward { ctx, program, on_chain_id, stellar_address, tx_hash },
                        WebhookAction::LoadRewardPerPoint { program },
                    )
                },
                _ => (Stage::Finished, WebhookAction::ParseBody),
            },
            Stage::LoadingReward { ctx, program, on_chain_id, stellar_address, tx_hash } => match event {
                WebhookEvent::RewardLoaded(Err(error)) => fail(&ctx, error),
                WebhookEvent::RewardLoaded(Ok(reward)) => {
                    let amount = payout_amount(ctx.merge.points, reward);
                    let action = WebhookAction::PersistPayout {
                        program,
                        merge: ctx.merge.duplicate(),
                        stellar_address,
                        amount,
                        tx_hash: tx_hash.clone(),
                    };
                    (Stage::PersistingPayout { ctx, program, tx_hash, amount }, action)
                },
                _ => (Stage::Finished, WebhookAction::ParseBody),
            },
            Stage::PersistingPayout { ctx, program, tx_hash, amount } => match event {
                WebhookEvent::PayoutPersisted(Err(error)) => fail(&ctx, error),
                WebhookEvent::PayoutPersisted(Ok(payout_id)) => (
                    Stage::UpdatingMilestone { ctx, program, tx_hash, amount, payout_id },
                    WebhookAction::IncrementMilestoneSpent { program, amount },
                ),
                _ => (Stage::Finished, WebhookAction::ParseBody),
            },
            Stage::UpdatingMilestone { ctx, program, tx_hash, amount, payout_id } => match event {
                WebhookEvent::MilestoneUpdated(Err(error)) => fail(&ctx, error),
                WebhookEvent::MilestoneUpdated(Ok(())) => (
                    Stage::CheckingAlert { ctx, program, tx_hash, payout_id },
                    WebhookAction::CheckEscrowAlert {
                        program,
                        threshold: settings.escrow_low_balance_threshold,
                    },
                ),
                _ => (Stage::Finished, WebhookAction::ParseBody),
            },
            Stage::CheckingAlert { ctx, program, tx_hash, payout_id } => match event {
                WebhookEvent::AlertChecked(Err(error)) => fail(&ctx, error),
                WebhookEvent::AlertChecked(Ok(())) => {
                    let action = WebhookAction::RecordEvent(
                        EventRecord {
                            delivery_id: clone_opt(&ctx.delivery_id),
                            event_type: String::from_str("pull_request"),
                            github_repo: ctx.merge.github_repo.clone(),
                            pr_number: Some(ctx.merge.pr_number),
                            payload: PayloadKind::Parsed,
                            status: EventStatus::Processed,
                            error_message: None,
                        },
                    );
                    (Stage::RecordingProcessed { ctx, program, tx_hash, payout_id }, action)
                },
                _ => (Stage::Finished, WebhookAction::ParseBody),
            },
            Stage::RecordingProcessed { ctx, program, tx_hash, payout_id } => match event {
                WebhookEvent::EventRecorded(Err(error)) => fail(&ctx, error),
                WebhookEvent::EventRecorded(Ok(())) => (
                    Stage::Finished,
                    WebhookAction::Respond(
                        WebhookResponse {
                            status: 200,
                            body: ResponseBody::Processed { payout_id, tx_hash, program_id: program },
                        },
                    ),
                ),
                _ => (Stage::Finished, WebhookAction::ParseBody),
            },
            Stage::RecordingFailure { error } => {
                if error.is_validation() {
                    (
                        Stage::Finished,
                        WebhookAction::Respond(
                            WebhookResponse {
                                status: 200,
                                body: ResponseBody::IgnoredBecause { reason: error.message() },
                            },
                        ),
                    )
                } else {
                    let action = error_answer(&error);
                    (Stage::Finished, action)
                }
            },
            Stage::Finished => (Stage::Finished, WebhookAction::ParseBody),
        }
    }
}


// --------------------------------------------------------------------- laws

/// Every delivery is answered: a run of the flow from any stage, where each step
/// leaves fewer steps to go (as `step` ensures), has at most 15 stages, so the
/// request is answered after at most 14 outcomes from the host.
pub proof fn law_every_delivery_is_answered(run: Seq<Stage>)
    requires
        forall|i: int| 0 <= i < run.len() - 1 ==> steps_left(#[trigger] run[i + 1]) < steps_left(
            run[i],
        ),
    ensures
        run.len() <= 15,
{
    if run.len() > 15 {
        assert forall|k: int| 0 <= k < run.len() implies steps_left(#[trigger] run[k]) + k <= 14 by {
            lemma_steps_left_fall(run, k);
        }
        assert(steps_left(run[15]) + 15 <= 14);
    }
}

proof fn lemma_steps_left_fall(run: Seq<Stage>, k: int)
    requires
        0 <= k < run.len(),
        forall|i: int| 0 <= i < run.len() - 1 ==> steps_left(#[trigger] run[i + 1]) < steps_left(
            run[i],
        ),
    ensures
        steps_left(run[k]) + k <= 14,
    decreases k,
{
    if k > 0 {
        lemma_steps_left_fall(run, k - 1);
        assert(steps_left(run[(k - 1) + 1]) < steps_left(run[k - 1]));
    }
}

/// A delivery whose signature was refused is recorded once and answered with the
/// refusal: nothing else happens to it, whatever the host reports.
pub proof fn law_rejected_delivery_is_only_recorded(
    settings: FlowSettings,
    error: WaveFlowError,
    e: WebhookEvent,
    t: Stage,
    a: WebhookAction,
)
    requires
        step_answer(settings, Stage::Rejecting { error }, e, t, a),
    ensures
        t is Finished,
        is_error_answer(a, error),
{
}

/// A duplicate delivery is answered without any processing.
pub proof fn law_duplicate_delivery_is_answered(
    settings: FlowSettings,
    event_type: String,
    delivery_id: String,
    t: Stage,
    a: WebhookAction,
)
    requires
        step_answer(
            settings,
            Stage::CheckingDelivery { event_type, delivery_id },
            WebhookEvent::DeliverySeen(true),
            t,
            a,
        ),
    ensures
        t is Finished,
        a is Respond,
{
}

/// The milestone bookkeeping moves by what was paid: when the flow has asked to
/// persist a payout and the host reports it persisted, the flow next asks to add
/// to the spent total of the same program exactly the amount of that payout,
/// which is the merge's points times the reward per point that was loaded.
pub proof fn law_milestone_moves_by_the_payout(
    settings: FlowSettings,
    s: Stage,
    e: WebhookEvent,
    t: Stage,
    a: WebhookAction,
    payout_id: u128,
    t2: Stage,
    a2: WebhookAction,
)
    requires
        step_answer(settings, s, e, t, a),
        a is PersistPayout,
        step_answer(settings, t, WebhookEvent::PayoutPersisted(Ok(payout_id)), t2, a2),
    ensures
        a matches WebhookAction::PersistPayout { program, amount, merge, .. } ==> {
            &&& a2 == (WebhookAction::IncrementMilestoneSpent { program, amount })
            &&& e matches WebhookEvent::RewardLoaded(Ok(reward))
            &&& amount == merge.points as int * reward as int
        },
{
}

} // verus!
