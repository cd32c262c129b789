//! The escrow contract as a mathematical state machine: its state, and for each
//! entry point the state it leads to and the answer it gives. The executable
//! contract in `escrow` is proved to follow these definitions exactly.

use vstd::prelude::*;

use crate::escrow_types::{Address, ContractConfig, ContractError, Program, TokenTransfer};
use crate::events::{
    ContractEvent, ContributorRegisteredEvent, FundedEvent, MergeRecordedEvent,
    ProgramCreatedEvent, ProgramPausedEvent, ProgramResumedEvent, RatioUpdatedEvent,
};
use crate::types::{is_repo_slug, ProgramStatus};

verus! {

/// The whole contract state. Program `id` (counted from 1) is `programs[id - 1]`.
/// A contributor is keyed by program id and GitHub username. `processed` holds the
/// `(program id, PR number)` pairs already paid. `events` and `transfers` are what
/// the contract has published and asked its host to move, oldest first.
/// `signers` are the addresses that authorize the calls now made, or every
/// address where `signed_by_all` holds.
#[verifier::ext_equal]
pub struct EscrowModel {
    pub contract_address: Address,
    pub signed_by_all: bool,
    pub signers: Seq<Address>,
    pub config: Option<ContractConfig>,
    pub programs: Seq<Program>,
    pub contributors: Map<(u64, Seq<char>), Address>,
    pub processed: Set<(u64, u64)>,
    pub events: Seq<ContractEvent>,
    pub transfers: Seq<TokenTransfer>,
}

impl EscrowModel {
    /// Whether `a` has authorized the call now made.
    pub open spec fn signed(self, a: Address) -> bool {
        self.signed_by_all || self.signers.contains(a)
    }

    pub open spec fn program(self, id: u64) -> Option<Program> {
        if 1 <= id && id <= self.programs.len() {
            Some(self.programs[id - 1])
        } else {
            None
        }
    }

    pub open spec fn with_program(self, id: u64, p: Program) -> EscrowModel {
        EscrowModel { programs: self.programs.update(id - 1, p), ..self }
    }

    pub open spec fn publish(self, e: ContractEvent) -> EscrowModel {
        EscrowModel { events: self.events.push(e), ..self }
    }

    pub open spec fn request(self, t: TokenTransfer) -> EscrowModel {
        EscrowModel { transfers: self.transfers.push(t), ..self }
    }
}

pub open spec fn fits_i128(x: int) -> bool {
    i128::MIN <= x <= i128::MAX
}

// ---------------------------------------------------------------- initialize

pub open spec fn initialize_result(
    s: EscrowModel,
    admin: Address,
    gateway: Address,
    token: Address,
) -> (EscrowModel, Result<(), ContractError>) {
    if s.config is Some {
        (s, Err(ContractError::AlreadyInitialized))
    } else if !s.signed(admin) {
        (s, Err(ContractError::MissingAuthorization))
    } else {
        (
            EscrowModel { config: Some(ContractConfig { admin, gateway, token }), ..s },
            Ok(()),
        )
    }
}

// ------------------------------------------------------------ create_program

pub open spec fn create_program_refusal(
    s: EscrowModel,
    github_repo: Seq<char>,
    reward_per_point: i128,
) -> Option<ContractError> {
    if reward_per_point <= 0 {
        Some(ContractError::InvalidRatio)
    } else if !is_repo_slug(github_repo) {
        Some(ContractError::InvalidRepo)
    } else if s.programs.len() >= u64::MAX {
        Some(ContractError::Overflow)
    } else {
        None
    }
}

pub open spec fn fresh_program(
    maintainer: Address,
    github_repo: String,
    reward_per_point: i128,
    milestone_cap: Option<i128>,
) -> Program {
    Program {
        maintainer,
        github_repo,
        reward_per_point,
        escrow_balance: 0,
        milestone_cap,
        milestone_spent: 0,
        status: ProgramStatus::Active,
    }
}

pub open spec fn create_program_result(
    s: EscrowModel,
    maintainer: Address,
    github_repo: String,
    reward_per_point: i128,
    milestone_cap: Option<i128>,
) -> (EscrowModel, Result<u64, ContractError>) {
    if !s.signed(maintainer) {
        (s, Err(ContractError::MissingAuthorization))
    } else {
        match create_program_refusal(s, github_repo@, reward_per_point) {
            Some(e) => (s, Err(e)),
            None => {
                let id = (s.programs.len() + 1) as u64;
                let created = EscrowModel {
                    programs: s.programs.push(
                        fresh_program(maintainer, github_repo, reward_per_point, milestone_cap),
                    ),
                    ..s
                };
                (
                    created.publish(
                        ContractEvent::ProgramCreated(
                            ProgramCreatedEvent {
                                program_id: id,
                                maintainer,
                                github_repo,
                                reward_per_point,
                            },
                        ),
                    ),
                    Ok(id),
                )
            },
        }
    }
}

// ---------------------------------------------------------------------- fund

pub open spec fn fund_refusal(s: EscrowModel, program_id: u64, from: Address, amount: i128) -> Option<
    ContractError,
> {
    if amount < 1 {
        Some(ContractError::InsufficientDeposit)
    } else {
        match s.program(program_id) {
            None => Some(ContractError::ProgramNotFound),
            Some(p) => if p.maintainer != from {
                Some(ContractError::Unauthorized)
            } else if s.config is None {
                Some(ContractError::NotInitialized)
            } else if !fits_i128(p.escrow_balance + amount) {
                Some(ContractError::Overflow)
            } else {
                None
            },
        }
    }
}

pub open spec fn fund_result(s: EscrowModel, program_id: u64, from: Address, amount: i128) -> (
    EscrowModel,
    Result<(), ContractError>,
) {
    if !s.signed(from) {
        (s, Err(ContractError::MissingAuthorization))
    } else {
        match fund_refusal(s, program_id, from, amount) {
            Some(e) => (s, Err(e)),
            None => {
                let p = s.program(program_id).unwrap();
                let balance = (p.escrow_balance + amount) as i128;
                let t = TokenTransfer {
                    token: s.config.unwrap().token,
                    from,
                    to: s.contract_address,
                    amount,
                };
                let e = ContractEvent::Funded(FundedEvent { program_id, amount, new_balance: balance });
                (
                    s.with_program(program_id, Program { escrow_balance: balance, ..p }).request(
                        t,
                    ).publish(e),
                    Ok(()),
                )
            },
        }
    }
}

// ------------------------------------------------------ register_contributor

pub open spec fn register_refusal(
    s: EscrowModel,
    program_id: u64,
    caller: Address,
    github_username: Seq<char>,
) -> Option<ContractError> {
    match s.program(program_id) {
        None => Some(ContractError::ProgramNotFound),
        Some(p) => if p.maintainer != caller {
            Some(ContractError::Unauthorized)
        } else if s.contributors.contains_key((program_id, github_username)) {
            Some(ContractError::ContributorAlreadyRegistered)
        } else {
            None
        },
    }
}

pub open spec fn register_result(
    s: EscrowModel,
    program_id: u64,
    caller: Address,
    github_username: String,
    stellar_address: Address,
) -> (EscrowModel, Result<(), ContractError>) {
    if !s.signed(caller) {
        (s, Err(ContractError::MissingAuthorization))
    } else {
        match register_refusal(s, program_id, caller, github_username@) {
            Some(e) => (s, Err(e)),
            None => {
                let registered = EscrowModel {
                    contributors: s.contributors.insert(
                        (program_id, github_username@),
                        stellar_address,
                    ),
                    ..s
                };
                (
                    registered.publish(
                        ContractEvent::ContributorRegistered(
                            ContributorRegisteredEvent { program_id, github_username, stellar_address },
                        ),
                    ),
                    Ok(()),
                )
            },
        }
    }
}

// -------------------------------------------------------------- record_merge

/// What a merge worth `points` pays at `reward_per_point` tokens per point.
pub open spec fn payout_of(points: u32, reward_per_point: i128) -> int {
    points as int * reward_per_point as int
}

/// The checks that a payout of `payout` from program `p` must pass.
pub open spec fn payout_refusal(p: Program, payout: int) -> Option<ContractError> {
    if !fits_i128(payout) {
        Some(ContractError::Overflow)
    } else if p.escrow_balance < payout {
        Some(ContractError::InsufficientEscrow)
    } else {
        match p.milestone_cap {
            Some(cap) => if !fits_i128(p.milestone_spent + payout) {
                Some(ContractError::Overflow)
            } else if p.milestone_spent + payout > cap {
                Some(ContractError::MilestoneCapExceeded)
            } else if !fits_i128(p.escrow_balance - payout) {
                Some(ContractError::Overflow)
            } else {
                None
            },
            None => if !fits_i128(p.escrow_balance - payout) {
                Some(ContractError::Overflow)
            } else {
                None
            },
        }
    }
}

pub open spec fn record_merge_refusal(
    s: EscrowModel,
    gateway: Address,
    program_id: u64,
    github_username: Seq<char>,
    pr_number: u64,
    points: u32,
) -> Option<ContractError> {
    match s.config {
        None => Some(ContractError::NotInitialized),
        Some(c) => if c.gateway != gateway {
            Some(ContractError::Unauthorized)
        } else if points == 0 {
            Some(ContractError::InvalidRatio)
        } else if s.processed.contains((program_id, pr_number)) {
            Some(ContractError::PrAlreadyProcessed)
        } else {
            match s.program(program_id) {
                None => Some(ContractError::ProgramNotFound),
                Some(p) => if p.status == ProgramStatus::Paused {
                    Some(ContractError::ProgramPaused)
                } else if !s.contributors.contains_key((program_id, github_username)) {
                    Some(ContractError::ContributorNotFound)
                } else {
                    payout_refusal(p, payout_of(points, p.reward_per_point))
                },
            }
        },
    }
}

/// The program after paying `payout`: the escrow shrinks by it, and where a
/// milestone cap is set the spent amount grows by it.
pub open spec fn paid_program(p: Program, payout: int) -> Program {
    Program {
        escrow_balance: (p.escrow_balance - payout) as i128,
        milestone_spent: match p.milestone_cap {
            Some(_) => (p.milestone_spent + payout) as i128,
            None => p.milestone_spent,
        },
        ..p
    }
}

pub open spec fn record_merge_result(
    s: EscrowModel,
    gateway: Address,
    program_id: u64,
    github_username: String,
    pr_number: u64,
    points: u32,
) -> (EscrowModel, Result<i128, ContractError>) {
    if !s.signed(gateway) {
        (s, Err(ContractError::MissingAuthorization))
    } else {
        match record_merge_refusal(s, gateway, program_id, github_username@, pr_number, points) {
            Some(e) => (s, Err(e)),
            None => {
                let p = s.program(program_id).unwrap();
                let payout = payout_of(points, p.reward_per_point) as i128;
                let t = TokenTransfer {
                    token: s.config.unwrap().token,
                    from: s.contract_address,
                    to: s.contributors[(program_id, github_username@)],
                    amount: payout,
                };
                let paid = EscrowModel {
                    processed: s.processed.insert((program_id, pr_number)),
                    ..s.with_program(program_id, paid_program(p, payout as int))
                };
                let e = ContractEvent::MergeRecorded(
                    MergeRecordedEvent {
                        program_id,
                        github_username,
                        pr_number,
                        points,
                        payout_amount: payout,
                    },
                );
                (paid.request(t).publish(e), Ok(payout))
            },
        }
    }
}

// --------------------------------------------------- pause, resume, set_ratio

/// Refusal shared by the maintainer-only calls: the program must exist and the
/// caller must be its maintainer.
pub open spec fn maintainer_refusal(s: EscrowModel, program_id: u64, maintainer: Address) -> Option<
    ContractError,
> {
    match s.program(program_id) {
        None => Some(ContractError::ProgramNotFound),
        Some(p) => if p.maintainer != maintainer {
            Some(ContractError::Unauthorized)
        } else {
            None
        },
    }
}

pub open spec fn pause_result(s: EscrowModel, program_id: u64, maintainer: Address) -> (
    EscrowModel,
    Result<(), ContractError>,
) {
    if !s.signed(maintainer) {
        (s, Err(ContractError::MissingAuthorization))
    } else {
        match maintainer_refusal(s, program_id, maintainer) {
            Some(e) => (s, Err(e)),
            None => {
                let p = s.program(program_id).unwrap();
                (
                    s.with_program(program_id, Program { status: ProgramStatus::Paused, ..p }).publish(
                        ContractEvent::ProgramPaused(ProgramPausedEvent { program_id }),
                    ),
                    Ok(()),
                )
            },
        }
    }
}

pub open spec fn resume_result(s: EscrowModel, program_id: u64, maintainer: Address) -> (
    EscrowModel,
    Result<(), ContractError>,
) {
    if !s.signed(maintainer) {
        (s, Err(ContractError::MissingAuthorization))
    } else {
        match maintainer_refusal(s, program_id, maintainer) {
            Some(e) => (s, Err(e)),
            None => {
                let p = s.program(program_id).unwrap();
                (
                    s.with_program(program_id, Program { status: ProgramStatus::Active, ..p }).publish(
                        ContractEvent::ProgramResumed(ProgramResumedEvent { program_id }),
                    ),
                    Ok(()),
                )
            },
        }
    }
}

pub open spec fn set_ratio_result(
    s: EscrowModel,
    program_id: u64,
    maintainer: Address,
    reward_per_point: i128,
) -> (EscrowModel, Result<(), ContractError>) {
    if !s.signed(maintainer) {
        (s, Err(ContractError::MissingAuthorization))
    } else {
        if reward_per_point <= 0 {
            (s, Err(ContractError::InvalidRatio))
        } else {
            match maintainer_refusal(s, program_id, maintainer) {
                Some(e) => (s, Err(e)),
                None => {
                    let p = s.program(program_id).unwrap();
                    (
                        s.with_program(program_id, Program { reward_per_point, ..p }).publish(
                            ContractEvent::RatioUpdated(
                                RatioUpdatedEvent { program_id, reward_per_point },
                            ),
                        ),
                        Ok(()),
                    )
                },
            }
        }
    }
}

// -------------------------------------------------------- withdraw_remaining

pub open spec fn withdraw_result(s: EscrowModel, program_id: u64, maintainer: Address) -> (
    EscrowModel,
    Result<i128, ContractError>,
) {
    if !s.signed(maintainer) {
        (s, Err(ContractError::MissingAuthorization))
    } else {
        match maintainer_refusal(s, program_id, maintainer) {
            Some(e) => (s, Err(e)),
            None => {
                let p = s.program(program_id).unwrap();
                if p.status != ProgramStatus::Paused {
                    (s, Err(ContractError::ProgramNotPaused))
                } else if p.escrow_balance <= 0 {
                    (s, Ok(0))
                } else if s.config is None {
                    (s, Err(ContractError::NotInitialized))
                } else {
                    (
                        s.with_program(program_id, Program { escrow_balance: 0, ..p }),
                        Ok(p.escrow_balance),
                    )
                }
            },
        }
    }
}

} // verus!
