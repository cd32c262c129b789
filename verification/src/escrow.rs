//! The WaveFlow escrow contract: programs funded by maintainers, contributors
//! registered by GitHub username, and merge attestations from the gateway oracle
//! that pay contributors out of a program's escrow.
//!
//! The contract keeps its own storage. Each entry point acts for the party it
//! names and first checks that this party has signed the call, as the host
//! reports it (`set_signers`, `authorize_all`). Token movements are requested
//! from the host as `TokenTransfer`s, and events are published to an event log;
//! a call that returns an error changes nothing. Each entry point is proved to follow
//! the state machine of `escrow_model` exactly.

use vstd::prelude::*;

use crate::escrow_model::{
    create_program_result, fund_result, initialize_result, pause_result, payout_of,
    record_merge_result, register_result, resume_result, set_ratio_result, withdraw_result,
    EscrowModel,
};
use crate::escrow_types::{
    Address, ContractConfig, ContractError, ContributorEntry, Program, TokenTransfer,
};
use crate::events::{
    ContractEvent, ContributorRegisteredEvent, FundedEvent, MergeRecordedEvent,
    ProgramCreatedEvent, ProgramPausedEvent, ProgramResumedEvent, RatioUpdatedEvent,
};
use crate::types::{validate_github_repo, ProgramStatus};

verus! {

/// The contributor registered last under `(program_id, github_username)`.
pub open spec fn contributor_lookup(
    entries: Seq<ContributorEntry>,
    program_id: u64,
    github_username: Seq<char>,
) -> Option<Address>
    decreases entries.len(),
{
    if entries.len() == 0 {
        None
    } else if entries.last().program_id == program_id && entries.last().github_username@
        == github_username {
        Some(entries.last().stellar_address)
    } else {
        contributor_lookup(entries.drop_last(), program_id, github_username)
    }
}

pub open spec fn contributor_map(entries: Seq<ContributorEntry>) -> Map<(u64, Seq<char>), Address> {
    Map::new(
        |k: (u64, Seq<char>)| contributor_lookup(entries, k.0, k.1) is Some,
        |k: (u64, Seq<char>)| contributor_lookup(entries, k.0, k.1).unwrap(),
    )
}

proof fn lemma_contributor_map_push(entries: Seq<ContributorEntry>, e: ContributorEntry)
    ensures
        contributor_map(entries.push(e)) =~= contributor_map(entries).insert(
            (e.program_id, e.github_username@),
            e.stellar_address,
        ),
{
    assert(entries.push(e).drop_last() =~= entries);
}

proof fn lemma_processed_push(s: Seq<(u64, u64)>, k: (u64, u64))
    ensures
        Set::new(|x: (u64, u64)| s.push(k).contains(x)) =~= Set::new(
            |x: (u64, u64)| s.contains(x),
        ).insert(k),
{
    let a = Set::new(|x: (u64, u64)| s.push(k).contains(x));
    let b = Set::new(|x: (u64, u64)| s.contains(x)).insert(k);
    assert forall|x: (u64, u64)| a.contains(x) <==> b.contains(x) by {
        if s.contains(x) {
            let j = choose|j: int| 0 <= j < s.len() && s[j] == x;
            assert(s.push(k)[j] == x);
        }
        if x == k {
            assert(s.push(k)[s.len() as int] == x);
        }
        if s.push(k).contains(x) {
            let j = choose|j: int| 0 <= j < s.push(k).len() && s.push(k)[j] == x;
            if j < s.len() {
                assert(s[j] == x);
            }
        }
    }
}

/// The escrow contract, with its storage and the effects it has asked for.
pub struct WaveFlowEscrow {
    contract_address: Address,
    signed_by_all: bool,
    signers: Vec<Address>,
    config: Option<ContractConfig>,
    programs: Vec<Program>,
    contributors: Vec<ContributorEntry>,
    processed: Vec<(u64, u64)>,
    events: Vec<ContractEvent>,
    transfers: Vec<TokenTransfer>,
}

impl View for WaveFlowEscrow {
    type V = EscrowModel;

    closed spec fn view(&self) -> EscrowModel {
        EscrowModel {
            contract_address: self.contract_address,
            signed_by_all: self.signed_by_all,
            signers: self.signers@,
            config: self.config,
            programs: self.programs@,
            contributors: contributor_map(self.contributors@),
            processed: Set::new(|k: (u64, u64)| self.processed@.contains(k)),
            events: self.events@,
            transfers: self.transfers@,
        }
    }
}

impl WaveFlowEscrow {
    /// A freshly deployed, uninitialized contract at `contract_address`, with no
    /// call authorized by anyone yet.
    pub fn new(contract_address: Address) -> (r: Self)
        ensures
            r@.contract_address == contract_address,
            !r@.signed_by_all,
            r@.signers.len() == 0,
            r@.config is None,
            r@.programs.len() == 0,
            r@.contributors.is_empty(),
            r@.processed.is_empty(),
            r@.events.len() == 0,
            r@.transfers.len() == 0,
    {
        let r = WaveFlowEscrow {
            contract_address,
            signed_by_all: false,
            signers: Vec::new(),
            config: None,
            programs: Vec::new(),
            contributors: Vec::new(),
            processed: Vec::new(),
            events: Vec::new(),
            transfers: Vec::new(),
        };
        assert(r@.contributors =~= Map::<(u64, Seq<char>), Address>::empty());
        assert(r@.processed =~= Set::<(u64, u64)>::empty());
        r
    }

    /// Authorize every call that follows on behalf of every address, as a host
    /// that signs for all parties does (in tests and simulations).
    pub fn authorize_all(&mut self)
        ensures
            final(self)@ == (EscrowModel { signed_by_all: true, ..old(self)@ }),
    {
        self.signed_by_all = true;
    }

    /// Authorize the calls that follow on behalf of exactly `signers`.
    pub fn set_signers(&mut self, signers: Vec<Address>)
        ensures
            final(self)@ == (EscrowModel {
                signed_by_all: false,
                signers: signers@,
                ..old(self)@
            }),
    {
        self.signed_by_all = false;
        self.signers = signers;
    }

    /// Whether `a` has authorized the call now made.
    fn signed(&self, a: Address) -> (r: bool)
        ensures
            r == self@.signed(a),
    {
        if self.signed_by_all {
            return true;
        }
        let mut i: usize = 0;
        while i < self.signers.len()
            invariant
                i <= self.signers@.len(),
                forall|j: int| 0 <= j < i ==> self.signers@[j] != a,
            decreases self.signers@.len() - i,
        {
            if self.signers[i] == a {
                return true;
            }
            i = i + 1;
        }
        false
    }

    /// The address this contract is deployed at.
    pub fn contract_address(&self) -> (r: Address)
        ensures
            r == self@.contract_address,
    {
        self.contract_address
    }

    /// Every event published so far, oldest first.
    pub fn events(&self) -> (r: &Vec<ContractEvent>)
        ensures
            r@ == self@.events,
    {
        &self.events
    }

    /// Every token transfer requested so far, oldest first.
    pub fn transfers(&self) -> (r: &Vec<TokenTransfer>)
        ensures
            r@ == self@.transfers,
    {
        &self.transfers
    }

    /// The position of program `program_id` in storage, if it exists.
    fn program_index(&self, program_id: u64) -> (r: Option<usize>)
        ensures
            match r {
                Some(i) => self@.program(program_id) is Some && i == program_id - 1 && i
                    < self.programs@.len(),
                None => self@.program(program_id) is None,
            },
    {
        let n = self.programs.len();
        if program_id >= 1 && program_id <= n as u64 {
            Some((program_id - 1) as usize)
        } else {
            None
        }
    }

    fn find_contributor(&self, program_id: u64, github_username: &String) -> (r: Option<Address>)
        ensures
            r == contributor_lookup(self.contributors@, program_id, github_username@),
    {
        let mut i = self.contributors.len();
        assert(self.contributors@.take(i as int) =~= self.contributors@);
        while i > 0
            invariant
                i <= self.contributors@.len(),
                contributor_lookup(self.contributors@, program_id, github_username@)
                    == contributor_lookup(
                    self.contributors@.take(i as int),
                    program_id,
                    github_username@,
                ),
            decreases i,
        {
            let e = &self.contributors[i - 1];
            assert(self.contributors@.take(i as int).last() == self.contributors@[i - 1]);
            assert(self.contributors@.take(i as int).drop_last() =~= self.contributors@.take(
                i - 1,
            ));
            if e.program_id == program_id && e.github_username == *github_username {
                return Some(e.stellar_address);
            }
            i = i - 1;
        }
        None
    }

    /// Whether the merge of PR `pr_number` has already been paid for program `program_id`.
    pub fn is_processed(&self, program_id: u64, pr_number: u64) -> (r: bool)
        ensures
            r == self@.processed.contains((program_id, pr_number)),
    {
        let mut i: usize = 0;
        while i < self.processed.len()
            invariant
                i <= self.processed@.len(),
                forall|j: int| 0 <= j < i ==> self.processed@[j] != (program_id, pr_number),
            decreases self.processed@.len() - i,
        {
            if self.processed[i].0 == program_id && self.processed[i].1 == pr_number {
                return true;
            }
            i = i + 1;
        }
        false
    }

    /// Bootstrap contract with admin, authorized gateway oracle, and payout token.
    pub fn initialize(&mut self, admin: Address, gateway: Address, token: Address) -> (r: Result<
        (),
        ContractError,
    >)
        ensures
            (final(self)@, r) == initialize_result(old(self)@, admin, gateway, token),
    {
        if self.config.is_some() {
            return Err(ContractError::AlreadyInitialized);
        }
        if !self.signed(admin) {
            return Err(ContractError::MissingAuthorization);
        }
        self.config = Some(ContractConfig { admin, gateway, token });
        Ok(())
    }

    /// Create a bounty program linked to a GitHub repo slug.
    pub fn create_program(
        &mut self,
        maintainer: Address,
        github_repo: String,
        reward_per_point: i128,
        milestone_cap: Option<i128>,
    ) -> (r: Result<u64, ContractError>)
        ensures
            (final(self)@, r) == create_program_result(
                old(self)@,
                maintainer,
                github_repo,
                reward_per_point,
                milestone_cap,
            ),
    {
        if !self.signed(maintainer) {
            return Err(ContractError::MissingAuthorization);
        }
        if reward_per_point <= 0 {
            return Err(ContractError::InvalidRatio);
        }
        if !validate_github_repo(github_repo.as_str()) {
            return Err(ContractError::InvalidRepo);
        }
        let n = self.programs.len();
        if n as u64 >= u64::MAX {
            return Err(ContractError::Overflow);
        }
        let program_id = n as u64 + 1;
        let event_repo = github_repo.clone();
        let program = Program {
            maintainer,
            github_repo,
            reward_per_point,
            escrow_balance: 0,
            milestone_cap,
            milestone_spent: 0,
            status: ProgramStatus::Active,
        };
        self.programs.push(program);
        self.events.push(
            ContractEvent::ProgramCreated(
                ProgramCreatedEvent {
                    program_id,
                    maintainer,
                    github_repo: event_repo,
                    reward_per_point,
                },
            ),
        );
        Ok(program_id)
    }

    /// Deposit bounty tokens into a program escrow.
    pub fn fund(&mut self, program_id: u64, from: Address, amount: i128) -> (r: Result<
        (),
        ContractError,
    >)
        ensures
            (final(self)@, r) == fund_result(old(self)@, program_id, from, amount),
    {
        if !self.signed(from) {
            return Err(ContractError::MissingAuthorization);
        }
        if amount < 1 {
            return Err(ContractError::InsufficientDeposit);
        }
        let idx = match self.program_index(program_id) {
            Some(i) => i,
            None => return Err(ContractError::ProgramNotFound),
        };
        if self.programs[idx].maintainer != from {
            return Err(ContractError::Unauthorized);
        }
        let token = match self.config {
            Some(c) => c.token,
            None => return Err(ContractError::NotInitialized),
        };
        let new_balance = match self.programs[idx].escrow_balance.checked_add(amount) {
            Some(b) => b,
            None => return Err(ContractError::Overflow),
        };
        let mut program = self.programs[idx].duplicate();
        program.escrow_balance = new_balance;
        self.programs.set(idx, program);
        let contract = self.contract_address;
        self.transfers.push(TokenTransfer { token, from, to: contract, amount });
        self.events.push(ContractEvent::Funded(FundedEvent { program_id, amount, new_balance }));
        Ok(())
    }

    /// Map a GitHub username to a contributor Stellar address for payouts.
    pub fn register_contributor(
        &mut self,
        program_id: u64,
        caller: Address,
        github_username: String,
        stellar_address: Address,
    ) -> (r: Result<(), ContractError>)
        ensures
            (final(self)@, r) == register_result(
                old(self)@,
                program_id,
                caller,
                github_username,
                stellar_address,
            ),
    {
        if !self.signed(caller) {
            return Err(ContractError::MissingAuthorization);
        }
        let idx = match self.program_index(program_id) {
            Some(i) => i,
            None => return Err(ContractError::ProgramNotFound),
        };
        if self.programs[idx].maintainer != caller {
            return Err(ContractError::Unauthorized);
        }
        if self.find_contributor(program_id, &github_username).is_some() {
            return Err(ContractError::ContributorAlreadyRegistered);
        }
        let entry = ContributorEntry {
            program_id,
            github_username: github_username.clone(),
            stellar_address,
        };
        proof {
            lemma_contributor_map_push(self.contributors@, entry);
        }
        self.contributors.push(entry);
        self.events.push(
            ContractEvent::ContributorRegistered(
                ContributorRegisteredEvent { program_id, github_username, stellar_address },
            ),
        );
        Ok(())
    }

    /// Authorized gateway records a merged PR and pays the contributor.
    pub fn record_merge(
        &mut self,
        gateway: Address,
        program_id: u64,
        github_username: String,
        pr_number: u64,
        points: u32,
    ) -> (r: Result<i128, ContractError>)
        ensures
            (final(self)@, r) == record_merge_result(
                old(self)@,
                gateway,
                program_id,
                github_username,
                pr_number,
                points,
            ),
    {
        if !self.signed(gateway) {
            return Err(ContractError::MissingAuthorization);
        }
        let config = match self.config {
            Some(c) => c,
            None => return Err(ContractError::NotInitialized),
        };
        if config.gateway != gateway {
            return Err(ContractError::Unauthorized);
        }
        if points == 0 {
            return Err(ContractError::InvalidRatio);
        }
        if self.is_processed(program_id, pr_number) {
            return Err(ContractError::PrAlreadyProcessed);
        }
        let idx = match self.program_index(program_id) {
            Some(i) => i,
            None => return Err(ContractError::ProgramNotFound),
        };
        if self.programs[idx].status == ProgramStatus::Paused {
            return Err(ContractError::ProgramPaused);
        }
        let recipient = match self.find_contributor(program_id, &github_username) {
            Some(a) => a,
            None => return Err(ContractError::ContributorNotFound),
        };
        let ratio = self.programs[idx].reward_per_point;
        let payout = match (points as i128).checked_mul(ratio) {
            Some(x) => x,
            None => return Err(ContractError::Overflow),
        };
        assert(payout == payout_of(points, ratio));
        let escrow = self.programs[idx].escrow_balance;
        if escrow < payout {
            return Err(ContractError::InsufficientEscrow);
        }
        let spent = self.programs[idx].milestone_spent;
        let new_spent = match self.programs[idx].milestone_cap {
            Some(cap) => {
                let next = match spent.checked_add(payout) {
                    Some(x) => x,
                    None => return Err(ContractError::Overflow),
                };
                if next > cap {
                    return Err(ContractError::MilestoneCapExceeded);
                }
                next
            },
            None => spent,
        };
        let new_escrow = match escrow.checked_sub(payout) {
            Some(x) => x,
            None => return Err(ContractError::Overflow),
        };
        let mut program = self.programs[idx].duplicate();
        program.escrow_balance = new_escrow;
        program.milestone_spent = new_spent;
        self.programs.set(idx, program);
        proof {
            lemma_processed_push(self.processed@, (program_id, pr_number));
        }
        self.processed.push((program_id, pr_number));
        let contract = self.contract_address;
        self.transfers.push(
            TokenTransfer { token: config.token, from: contract, to: recipient, amount: payout },
        );
        self.events.push(
            ContractEvent::MergeRecorded(
                MergeRecordedEvent {
                    program_id,
                    github_username,
                    pr_number,
                    points,
                    payout_amount: payout,
                },
            ),
        );
        Ok(payout)
    }

    /// Pause further merge attestations for a program.
    pub fn pause(&mut self, program_id: u64, maintainer: Address) -> (r: Result<(), ContractError>)
        ensures
            (final(self)@, r) == pause_result(old(self)@, program_id, maintainer),
    {
        if !self.signed(maintainer) {
            return Err(ContractError::MissingAuthorization);
        }
        let idx = match self.program_index(program_id) {
            Some(i) => i,
            None => return Err(ContractError::ProgramNotFound),
        };
        if self.programs[idx].maintainer != maintainer {
            return Err(ContractError::Unauthorized);
        }
        let mut program = self.programs[idx].duplicate();
        program.status = ProgramStatus::Paused;
        self.programs.set(idx, program);
        self.events.push(ContractEvent::ProgramPaused(ProgramPausedEvent { program_id }));
        Ok(())
    }

    /// Resume merge attestations for a paused program.
    pub fn resume(&mut self, program_id: u64, maintainer: Address) -> (r: Result<(), ContractError>)
        ensures
            (final(self)@, r) == resume_result(old(self)@, program_id, maintainer),
    {
        if !self.signed(maintainer) {
            return Err(ContractError::MissingAuthorization);
        }
        let idx = match self.program_index(program_id) {
            Some(i) => i,
            None => return Err(ContractError::ProgramNotFound),
        };
        if self.programs[idx].maintainer != maintainer {
            return Err(ContractError::Unauthorized);
        }
        let mut program = self.programs[idx].duplicate();
        program.status = ProgramStatus::Active;
        self.programs.set(idx, program);
        self.events.push(ContractEvent::ProgramResumed(ProgramResumedEvent { program_id }));
        Ok(())
    }

    /// Update reward-per-point ratio (maintainer only, must stay positive).
    pub fn set_ratio(&mut self, program_id: u64, maintainer: Address, reward_per_point: i128) -> (r:
        Result<(), ContractError>)
        ensures
            (final(self)@, r) == set_ratio_result(old(self)@, program_id, maintainer, reward_per_point),
    {
        if !self.signed(maintainer) {
            return Err(ContractError::MissingAuthorization);
        }
        if reward_per_point <= 0 {
            return Err(ContractError::InvalidRatio);
        }
        let idx = match self.program_index(program_id) {
            Some(i) => i,
            None => return Err(ContractError::ProgramNotFound),
        };
        if self.programs[idx].maintainer != maintainer {
            return Err(ContractError::Unauthorized);
        }
        let mut program = self.programs[idx].duplicate();
        program.reward_per_point = reward_per_point;
        self.programs.set(idx, program);
        self.events.push(
            ContractEvent::RatioUpdated(RatioUpdatedEvent { program_id, reward_per_point }),
        );
        Ok(())
    }

    /// Release the remaining escrow of a paused program to its maintainer: the
    /// program's escrow drops to zero and the call returns the amount released.
    /// The release is the answer itself: the contract asks its host for no token
    /// transfer here, so the maintainer's token balance is left as it stands.
    pub fn withdraw_remaining(&mut self, program_id: u64, maintainer: Address) -> (r: Result<
        i128,
        ContractError,
    >)
        ensures
            (final(self)@, r) == withdraw_result(old(self)@, program_id, maintainer),
    {
        if !self.signed(maintainer) {
            return Err(ContractError::MissingAuthorization);
        }
        let idx = match self.program_index(program_id) {
            Some(i) => i,
            None => return Err(ContractError::ProgramNotFound),
        };
        if self.programs[idx].maintainer != maintainer {
            return Err(ContractError::Unauthorized);
        }
        if self.programs[idx].status != ProgramStatus::Paused {
            return Err(ContractError::ProgramNotPaused);
        }
        let amount = self.programs[idx].escrow_balance;
        if amount <= 0 {
            return Ok(0);
        }
        if self.config.is_none() {
            return Err(ContractError::NotInitialized);
        }
        let mut program = self.programs[idx].duplicate();
        program.escrow_balance = 0;
        self.programs.set(idx, program);
        Ok(amount)
    }

    /// The stored program `program_id`.
    pub fn get_program(&self, program_id: u64) -> (r: Result<Program, ContractError>)
        ensures
            match self@.program(program_id) {
                Some(p) => r == Ok::<Program, ContractError>(p),
                None => r == Err::<Program, ContractError>(ContractError::ProgramNotFound),
            },
    {
        match self.program_index(program_id) {
            Some(i) => Ok(self.programs[i].duplicate()),
            None => Err(ContractError::ProgramNotFound),
        }
    }

    /// The escrow balance of program `program_id`.
    pub fn get_escrow_balance(&self, program_id: u64) -> (r: Result<i128, ContractError>)
        ensures
            match self@.program(program_id) {
                Some(p) => r == Ok::<i128, ContractError>(p.escrow_balance),
                None => r == Err::<i128, ContractError>(ContractError::ProgramNotFound),
            },
    {
        match self.program_index(program_id) {
            Some(i) => Ok(self.programs[i].escrow_balance),
            None => Err(ContractError::ProgramNotFound),
        }
    }

    /// The admin set at initialization.
    pub fn admin(&self) -> (r: Result<Address, ContractError>)
        ensures
            match self@.config {
                Some(c) => r == Ok::<Address, ContractError>(c.admin),
                None => r == Err::<Address, ContractError>(ContractError::NotInitialized),
            },
    {
        match self.config {
            Some(c) => Ok(c.admin),
            None => Err(ContractError::NotInitialized),
        }
    }
}

} // verus!
