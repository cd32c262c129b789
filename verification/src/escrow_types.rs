//! Values that the escrow contract stores and exchanges with its host.

use vstd::prelude::*;

use crate::types::ProgramStatus;

verus! {

/// An account or contract on the ledger, by the number the host gives it.
#[derive(Clone, Copy, Debug, PartialEq, Eq, Structural)]
pub struct Address(pub u64);

/// Why the escrow contract refused a call. A refused call changes nothing.
#[derive(Clone, Copy, Debug, PartialEq, Eq, Structural)]
pub enum ContractError {
    /// The party that a call names as acting (the admin, maintainer, funder,
    /// caller or gateway) did not authorize it: the host refuses the call before
    /// the contract does anything.
    MissingAuthorization,
    AlreadyInitialized,
    NotInitialized,
    Unauthorized,
    InvalidRatio,
    InvalidRepo,
    InsufficientDeposit,
    Overflow,
    ProgramNotFound,
    ProgramPaused,
    ProgramNotPaused,
    ContributorAlreadyRegistered,
    ContributorNotFound,
    PrAlreadyProcessed,
    InsufficientEscrow,
    MilestoneCapExceeded,
}

/// The addresses fixed at initialization: the admin, the gateway oracle that may
/// record merges, and the payout token.
#[derive(Clone, Copy, Debug, PartialEq, Eq, Structural)]
pub struct ContractConfig {
    pub admin: Address,
    pub gateway: Address,
    pub token: Address,
}

/// A bounty program as the contract stores it.
#[derive(Debug)]
pub struct Program {
    pub maintainer: Address,
    pub github_repo: String,
    pub reward_per_point: i128,
    pub escrow_balance: i128,
    pub milestone_cap: Option<i128>,
    pub milestone_spent: i128,
    pub status: ProgramStatus,
}

impl Program {
    /// A field-by-field copy.
    pub fn duplicate(&self) -> (r: Program)
        ensures
            r == *self,
    {
        Program {
            maintainer: self.maintainer,
            github_repo: self.github_repo.clone(),
            reward_per_point: self.reward_per_point,
            escrow_balance: self.escrow_balance,
            milestone_cap: self.milestone_cap,
            milestone_spent: self.milestone_spent,
            status: self.status,
        }
    }
}

/// A token transfer that the contract asks its host to carry out on the payout
/// token, as part of the call that requested it.
#[derive(Clone, Copy, Debug, PartialEq, Eq, Structural)]
pub struct TokenTransfer {
    pub token: Address,
    pub from: Address,
    pub to: Address,
    pub amount: i128,
}

/// A registered contributor: a GitHub username within a program, and the address
/// that its payouts go to.
#[derive(Debug)]
pub struct ContributorEntry {
    pub program_id: u64,
    pub github_username: String,
    pub stellar_address: Address,
}

} // verus!
