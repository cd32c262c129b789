//! Events that the escrow contract publishes for program lifecycle and payout auditing.

use vstd::prelude::*;

use crate::escrow_types::Address;

verus! {

pub struct ProgramCreatedEvent {
    pub program_id: u64,
    pub maintainer: Address,
    pub github_repo: String,
    pub reward_per_point: i128,
}

#[derive(Clone, Copy, Debug, PartialEq, Eq, Structural)]
pub struct FundedEvent {
    pub program_id: u64,
    pub amount: i128,
    pub new_balance: i128,
}

pub struct ContributorRegisteredEvent {
    pub program_id: u64,
    pub github_username: String,
    pub stellar_address: Address,
}

pub struct MergeRecordedEvent {
    pub program_id: u64,
    pub github_username: String,
    pub pr_number: u64,
    pub points: u32,
    pub payout_amount: i128,
}

#[derive(Clone, Copy, Debug, PartialEq, Eq, Structural)]
pub struct RatioUpdatedEvent {
    pub program_id: u64,
    pub reward_per_point: i128,
}

#[derive(Clone, Copy, Debug, PartialEq, Eq, Structural)]
pub struct ProgramPausedEvent {
    pub program_id: u64,
}

#[derive(Clone, Copy, Debug, PartialEq, Eq, Structural)]
pub struct ProgramResumedEvent {
    pub program_id: u64,
}

/// One published event, tagged by its kind.
pub enum ContractEvent {
    ProgramCreated(ProgramCreatedEvent),
    Funded(FundedEvent),
    ContributorRegistered(ContributorRegisteredEvent),
    MergeRecorded(MergeRecordedEvent),
    RatioUpdated(RatioUpdatedEvent),
    ProgramPaused(ProgramPausedEvent),
    ProgramResumed(ProgramResumedEvent),
}

/// The topic symbol under which each kind of event is published.
pub open spec fn topic_of(e: ContractEvent) -> Seq<char> {
    match e {
        ContractEvent::ProgramCreated(_) => "prog_new"@,
        ContractEvent::Funded(_) => "funded"@,
        ContractEvent::ContributorRegistered(_) => "contrib"@,
        ContractEvent::MergeRecorded(_) => "merge"@,
        ContractEvent::RatioUpdated(_) => "ratio_upd"@,
        ContractEvent::ProgramPaused(_) => "paused"@,
        ContractEvent::ProgramResumed(_) => "resumed"@,
    }
}

impl ContractEvent {
    /// The topic symbol of this event.
    pub fn topic(&self) -> (r: &'static str)
        ensures
            r@ == topic_of(*self),
    {
        match self {
            ContractEvent::ProgramCreated(_) => "prog_new",
            ContractEvent::Funded(_) => "funded",
            ContractEvent::ContributorRegistered(_) => "contrib",
            ContractEvent::MergeRecorded(_) => "merge",
            ContractEvent::RatioUpdated(_) => "ratio_upd",
            ContractEvent::ProgramPaused(_) => "paused",
            ContractEvent::ProgramResumed(_) => "resumed",
        }
    }
}

} // verus!
