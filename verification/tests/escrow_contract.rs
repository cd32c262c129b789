// Escrow contract scenarios: fund -> register -> record_merge payout loop, and the
// refusals around it. Token balances are followed by applying the transfers that
// the contract asks its host to carry out.
use waveflow::escrow::WaveFlowEscrow;
use waveflow::escrow_types::{Address, ContractError, TokenTransfer};
use waveflow::events::ContractEvent;
use waveflow::types::ProgramStatus;

const CONTRACT: Address = Address(1);
const ADMIN: Address = Address(2);
const GATEWAY: Address = Address(3);
const MAINTAINER: Address = Address(4);
const CONTRIBUTOR_WALLET: Address = Address(5);
const TOKEN: Address = Address(6);
const MINTED: i128 = 10_000;

fn setup() -> WaveFlowEscrow {
    let mut escrow = WaveFlowEscrow::new(CONTRACT);
    escrow.authorize_all();
    escrow.initialize(ADMIN, GATEWAY, TOKEN).expect("initialize");
    escrow
}

/// The token balance of `who`, starting from what the token admin minted to the
/// maintainer and applying every requested transfer in order.
fn token_balance(transfers: &[TokenTransfer], who: Address) -> i128 {
    let mut balance = if who == MAINTAINER { MINTED } else { 0 };
    for t in transfers {
        assert_eq!(t.token, TOKEN);
        if t.from == who {
            balance -= t.amount;
        }
        if t.to == who {
            balance += t.amount;
        }
    }
    balance
}

#[test]
fn record_merge_pays_contributor() {
    let mut client = setup();
    let repo = "StellarRoute/WaveFlow".to_string();
    let program_id = client.create_program(MAINTAINER, repo, 100, None).unwrap();
    client.fund(program_id, MAINTAINER, 5_000).unwrap();

    let username = "alice-dev".to_string();
    client
        .register_contributor(program_id, MAINTAINER, username.clone(), CONTRIBUTOR_WALLET)
        .unwrap();

    let payout = client.record_merge(GATEWAY, program_id, username, 42, 3).unwrap();
    assert_eq!(payout, 300);
    assert_eq!(token_balance(client.transfers(), CONTRIBUTOR_WALLET), 300);
    assert_eq!(client.get_escrow_balance(program_id).unwrap(), 4_700);
    assert!(client.is_processed(program_id, 42));
}

#[test]
fn duplicate_pr_is_rejected() {
    let mut client = setup();
    let program_id = client.create_program(MAINTAINER, "org/repo".to_string(), 10, None).unwrap();
    client.fund(program_id, MAINTAINER, 100).unwrap();
    let username = "bob".to_string();
    client
        .register_contributor(program_id, MAINTAINER, username.clone(), CONTRIBUTOR_WALLET)
        .unwrap();

    client.record_merge(GATEWAY, program_id, username.clone(), 7, 1).unwrap();
    let err = client.record_merge(GATEWAY, program_id, username, 7, 1);
    assert!(err.is_err());
    assert_eq!(err, Err(ContractError::PrAlreadyProcessed));
}

#[test]
fn paused_program_rejects_merge() {
    let mut client = setup();
    let program_id = client.create_program(MAINTAINER, "org/repo".to_string(), 10, None).unwrap();
    client.fund(program_id, MAINTAINER, 100).unwrap();
    let username = "carol".to_string();
    client
        .register_contributor(program_id, MAINTAINER, username.clone(), CONTRIBUTOR_WALLET)
        .unwrap();
    client.pause(program_id, MAINTAINER).unwrap();

    let err = client.record_merge(GATEWAY, program_id, username, 9, 1);
    assert!(err.is_err());
    assert_eq!(err, Err(ContractError::ProgramPaused));
}

#[test]
fn milestone_cap_blocks_excess_payout() {
    let mut client = setup();
    let program_id =
        client.create_program(MAINTAINER, "org/repo".to_string(), 100, Some(150)).unwrap();
    client.fund(program_id, MAINTAINER, 1_000).unwrap();
    let username = "dave".to_string();
    client
        .register_contributor(program_id, MAINTAINER, username.clone(), CONTRIBUTOR_WALLET)
        .unwrap();

    client.record_merge(GATEWAY, program_id, username.clone(), 1, 1).unwrap();
    let err = client.record_merge(GATEWAY, program_id, username, 2, 1);
    assert!(err.is_err());
    assert_eq!(err, Err(ContractError::MilestoneCapExceeded));
}

#[test]
fn invalid_repo_is_rejected() {
    let mut client = setup();
    let err = client.create_program(MAINTAINER, "invalid".to_string(), 10, None);
    assert!(err.is_err());
    assert_eq!(err, Err(ContractError::InvalidRepo));
}

#[test]
fn insufficient_escrow_rejects_payout() {
    let mut client = setup();
    let program_id = client.create_program(MAINTAINER, "org/repo".to_string(), 100, None).unwrap();
    client.fund(program_id, MAINTAINER, 50).unwrap();
    let username = "eve".to_string();
    client
        .register_contributor(program_id, MAINTAINER, username.clone(), CONTRIBUTOR_WALLET)
        .unwrap();

    let err = client.record_merge(GATEWAY, program_id, username, 1, 1);
    assert!(err.is_err());
    assert_eq!(err, Err(ContractError::InsufficientEscrow));
}

#[test]
fn set_ratio_updates_reward_per_point() {
    let mut client = setup();
    let program_id = client.create_program(MAINTAINER, "org/repo".to_string(), 10, None).unwrap();
    client.set_ratio(program_id, MAINTAINER, 50).unwrap();
    let program = client.get_program(program_id).unwrap();
    assert_eq!(program.reward_per_point, 50);
}

#[test]
fn set_ratio_rejects_zero() {
    let mut client = setup();
    let program_id = client.create_program(MAINTAINER, "org/repo".to_string(), 10, None).unwrap();
    let err = client.set_ratio(program_id, MAINTAINER, 0);
    assert!(err.is_err());
}

#[test]
fn set_ratio_rejects_negative() {
    let mut client = setup();
    let program_id = client.create_program(MAINTAINER, "org/repo".to_string(), 10, None).unwrap();
    let err = client.set_ratio(program_id, MAINTAINER, -1);
    assert!(err.is_err());
}

#[test]
fn set_ratio_rejects_non_maintainer() {
    let mut client = setup();
    let program_id = client.create_program(MAINTAINER, "org/repo".to_string(), 10, None).unwrap();
    let err = client.set_ratio(program_id, CONTRIBUTOR_WALLET, 100);
    assert!(err.is_err());
    assert_eq!(err, Err(ContractError::Unauthorized));
}

#[test]
fn withdraw_remaining_fails_when_active() {
    let mut client = setup();
    let program_id = client.create_program(MAINTAINER, "org/repo".to_string(), 10, None).unwrap();
    client.fund(program_id, MAINTAINER, 500).unwrap();
    let err = client.withdraw_remaining(program_id, MAINTAINER);
    assert!(err.is_err());
    assert_eq!(err, Err(ContractError::ProgramNotPaused));
}

#[test]
fn withdraw_remaining_rejects_non_maintainer() {
    let mut client = setup();
    let program_id = client.create_program(MAINTAINER, "org/repo".to_string(), 10, None).unwrap();
    client.fund(program_id, MAINTAINER, 500).unwrap();
    client.pause(program_id, MAINTAINER).unwrap();
    let err = client.withdraw_remaining(program_id, CONTRIBUTOR_WALLET);
    assert!(err.is_err());
}

#[test]
fn withdraw_remaining_returns_escrow_to_maintainer() {
    let mut client = setup();
    let program_id = client.create_program(MAINTAINER, "org/repo".to_string(), 10, None).unwrap();
    client.fund(program_id, MAINTAINER, 500).unwrap();
    client.pause(program_id, MAINTAINER).unwrap();

    let withdrawn = client.withdraw_remaining(program_id, MAINTAINER).unwrap();
    assert_eq!(withdrawn, 500);
    assert_eq!(token_balance(client.transfers(), MAINTAINER), 9_500);
}

#[test]
fn withdraw_remaining_empties_escrow() {
    let mut client = setup();
    let program_id = client.create_program(MAINTAINER, "org/repo".to_string(), 10, None).unwrap();
    client.fund(program_id, MAINTAINER, 500).unwrap();
    client.pause(program_id, MAINTAINER).unwrap();
    let events_before = client.events().len();

    assert_eq!(client.withdraw_remaining(program_id, MAINTAINER).unwrap(), 500);
    assert_eq!(client.get_escrow_balance(program_id).unwrap(), 0);
    // The release asks for no transfer and publishes no event.
    assert_eq!(client.transfers().len(), 1);
    assert_eq!(client.events().len(), events_before);
    // Nothing left: a second withdrawal returns 0.
    assert_eq!(client.withdraw_remaining(program_id, MAINTAINER).unwrap(), 0);
    assert_eq!(token_balance(client.transfers(), MAINTAINER), 9_500);
}

#[test]
fn initialize_only_once() {
    let mut client = setup();
    assert_eq!(client.admin(), Ok(ADMIN));
    assert_eq!(client.initialize(MAINTAINER, MAINTAINER, MAINTAINER), Err(ContractError::AlreadyInitialized));
    assert_eq!(client.admin(), Ok(ADMIN));
}

#[test]
fn uninitialized_contract_knows_no_token() {
    let mut client = WaveFlowEscrow::new(CONTRACT);
    client.authorize_all();
    assert_eq!(client.admin(), Err(ContractError::NotInitialized));
    let program_id = client.create_program(MAINTAINER, "org/repo".to_string(), 10, None).unwrap();
    assert_eq!(program_id, 1);
    assert_eq!(client.fund(program_id, MAINTAINER, 500), Err(ContractError::NotInitialized));
    assert!(client.transfers().is_empty());
}

#[test]
fn program_ids_count_from_one() {
    let mut client = setup();
    assert_eq!(client.create_program(MAINTAINER, "org/a".to_string(), 10, None), Ok(1));
    assert_eq!(client.create_program(MAINTAINER, "org/b".to_string(), 10, None), Ok(2));
    assert_eq!(client.get_program(3).err(), Some(ContractError::ProgramNotFound));
    let p = client.get_program(2).unwrap();
    assert_eq!(p.github_repo, "org/b");
    assert_eq!(p.status, ProgramStatus::Active);
    assert_eq!(p.escrow_balance, 0);
}

#[test]
fn fund_refusals() {
    let mut client = setup();
    let program_id = client.create_program(MAINTAINER, "org/repo".to_string(), 10, None).unwrap();
    assert_eq!(client.fund(program_id, MAINTAINER, 0), Err(ContractError::InsufficientDeposit));
    assert_eq!(client.fund(program_id, CONTRIBUTOR_WALLET, 10), Err(ContractError::Unauthorized));
    assert_eq!(client.fund(99, MAINTAINER, 10), Err(ContractError::ProgramNotFound));
    client.fund(program_id, MAINTAINER, i128::MAX).unwrap();
    assert_eq!(client.fund(program_id, MAINTAINER, 1), Err(ContractError::Overflow));
    assert_eq!(client.transfers().len(), 1);
}

#[test]
fn record_merge_refusals() {
    let mut client = setup();
    let program_id = client.create_program(MAINTAINER, "org/repo".to_string(), 10, None).unwrap();
    client.fund(program_id, MAINTAINER, 100).unwrap();
    let name = "frank".to_string();
    assert_eq!(
        client.record_merge(ADMIN, program_id, name.clone(), 1, 1),
        Err(ContractError::Unauthorized)
    );
    assert_eq!(
        client.record_merge(GATEWAY, program_id, name.clone(), 1, 0),
        Err(ContractError::InvalidRatio)
    );
    assert_eq!(
        client.record_merge(GATEWAY, program_id, name.clone(), 1, 1),
        Err(ContractError::ContributorNotFound)
    );
    assert_eq!(
        client.register_contributor(program_id, CONTRIBUTOR_WALLET, name.clone(), CONTRIBUTOR_WALLET),
        Err(ContractError::Unauthorized)
    );
    client.register_contributor(program_id, MAINTAINER, name.clone(), CONTRIBUTOR_WALLET).unwrap();
    assert_eq!(
        client.register_contributor(program_id, MAINTAINER, name.clone(), MAINTAINER),
        Err(ContractError::ContributorAlreadyRegistered)
    );
    assert_eq!(
        client.record_merge(GATEWAY, 2, name.clone(), 1, 1),
        Err(ContractError::ProgramNotFound)
    );
    assert!(!client.is_processed(program_id, 1));
}

#[test]
fn pause_then_resume_allows_payouts_again() {
    let mut client = setup();
    let program_id = client.create_program(MAINTAINER, "org/repo".to_string(), 10, Some(25)).unwrap();
    client.fund(program_id, MAINTAINER, 100).unwrap();
    let name = "gina".to_string();
    client.register_contributor(program_id, MAINTAINER, name.clone(), CONTRIBUTOR_WALLET).unwrap();
    client.pause(program_id, MAINTAINER).unwrap();
    assert_eq!(client.get_program(program_id).unwrap().status, ProgramStatus::Paused);
    client.resume(program_id, MAINTAINER).unwrap();
    assert_eq!(client.get_program(program_id).unwrap().status, ProgramStatus::Active);
    assert_eq!(client.record_merge(GATEWAY, program_id, name.clone(), 5, 2), Ok(20));
    let p = client.get_program(program_id).unwrap();
    assert_eq!(p.milestone_spent, 20);
    assert_eq!(p.escrow_balance, 80);
    assert_eq!(
        client.record_merge(GATEWAY, program_id, name, 6, 1),
        Err(ContractError::MilestoneCapExceeded)
    );
}

#[test]
fn registration_lasts_through_later_calls() {
    let mut client = setup();
    let program_id = client.create_program(MAINTAINER, "org/repo".to_string(), 100, None).unwrap();
    let name = "hana".to_string();
    client.register_contributor(program_id, MAINTAINER, name.clone(), CONTRIBUTOR_WALLET).unwrap();
    client.fund(program_id, MAINTAINER, 1_000).unwrap();
    client.pause(program_id, MAINTAINER).unwrap();
    client.resume(program_id, MAINTAINER).unwrap();
    client.set_ratio(program_id, MAINTAINER, 50).unwrap();
    assert_eq!(
        client.register_contributor(program_id, MAINTAINER, name.clone(), ADMIN),
        Err(ContractError::ContributorAlreadyRegistered)
    );
    assert_eq!(client.record_merge(GATEWAY, program_id, name, 9, 3), Ok(150));
    let last = client.transfers()[client.transfers().len() - 1];
    assert_eq!((last.from, last.to, last.amount), (CONTRACT, CONTRIBUTOR_WALLET, 150));
}

#[test]
fn paused_program_stays_paused_until_resumed() {
    let mut client = setup();
    let program_id = client.create_program(MAINTAINER, "org/repo".to_string(), 10, None).unwrap();
    let other = client.create_program(MAINTAINER, "org/other".to_string(), 10, None).unwrap();
    let name = "ivo".to_string();
    client.register_contributor(program_id, MAINTAINER, name.clone(), CONTRIBUTOR_WALLET).unwrap();
    client.fund(program_id, MAINTAINER, 500).unwrap();
    client.pause(program_id, MAINTAINER).unwrap();
    client.set_ratio(program_id, MAINTAINER, 20).unwrap();
    client.fund(program_id, MAINTAINER, 100).unwrap();
    client.pause(other, MAINTAINER).unwrap();
    client.resume(other, MAINTAINER).unwrap();
    assert!(client.resume(program_id, ADMIN).is_err());
    assert_eq!(client.get_program(program_id).unwrap().status, ProgramStatus::Paused);
    assert_eq!(
        client.record_merge(GATEWAY, program_id, name.clone(), 1, 2),
        Err(ContractError::ProgramPaused)
    );
    client.resume(program_id, MAINTAINER).unwrap();
    assert_eq!(client.record_merge(GATEWAY, program_id, name, 1, 2), Ok(40));
}

#[test]
fn calls_need_the_acting_party_to_sign() {
    let mut client = WaveFlowEscrow::new(CONTRACT);
    // Nobody has signed yet: initialize is refused and nothing is stored.
    assert_eq!(client.initialize(ADMIN, GATEWAY, TOKEN), Err(ContractError::MissingAuthorization));
    assert_eq!(client.admin(), Err(ContractError::NotInitialized));

    client.set_signers(vec![ADMIN]);
    client.initialize(ADMIN, GATEWAY, TOKEN).unwrap();
    // A second initialize is refused as such, whoever signs.
    assert_eq!(client.initialize(ADMIN, GATEWAY, TOKEN), Err(ContractError::AlreadyInitialized));
    // The authorization check comes before the other checks.
    assert_eq!(
        client.create_program(MAINTAINER, "org/repo".to_string(), 0, None),
        Err(ContractError::MissingAuthorization)
    );

    client.set_signers(vec![MAINTAINER]);
    let program_id = client.create_program(MAINTAINER, "org/repo".to_string(), 10, None).unwrap();
    client.fund(program_id, MAINTAINER, 500).unwrap();
    client.register_contributor(program_id, MAINTAINER, "jo".to_string(), CONTRIBUTOR_WALLET).unwrap();
    assert_eq!(
        client.record_merge(GATEWAY, program_id, "jo".to_string(), 1, 2),
        Err(ContractError::MissingAuthorization)
    );
    assert!(!client.is_processed(program_id, 1));

    client.set_signers(vec![GATEWAY]);
    let events_before = client.events().len();
    assert_eq!(client.fund(program_id, MAINTAINER, 5), Err(ContractError::MissingAuthorization));
    assert_eq!(client.pause(program_id, MAINTAINER), Err(ContractError::MissingAuthorization));
    assert_eq!(client.resume(program_id, MAINTAINER), Err(ContractError::MissingAuthorization));
    assert_eq!(client.set_ratio(program_id, MAINTAINER, 3), Err(ContractError::MissingAuthorization));
    assert_eq!(
        client.withdraw_remaining(program_id, MAINTAINER),
        Err(ContractError::MissingAuthorization)
    );
    assert_eq!(
        client.register_contributor(program_id, MAINTAINER, "kim".to_string(), ADMIN),
        Err(ContractError::MissingAuthorization)
    );
    assert_eq!(client.events().len(), events_before);
    assert_eq!(client.transfers().len(), 1);
    assert_eq!(client.record_merge(GATEWAY, program_id, "jo".to_string(), 1, 2), Ok(20));
}

#[test]
fn events_follow_each_call() {
    let mut client = setup();
    let program_id = client.create_program(MAINTAINER, "org/repo".to_string(), 10, None).unwrap();
    client.fund(program_id, MAINTAINER, 100).unwrap();
    client.set_ratio(program_id, MAINTAINER, 20).unwrap();
    let topics: Vec<&str> = client.events().iter().map(|e| e.topic()).collect();
    assert_eq!(topics, vec!["prog_new", "funded", "ratio_upd"]);
    match &client.events()[1] {
        ContractEvent::Funded(e) => {
            assert_eq!(e.amount, 100);
            assert_eq!(e.new_balance, 100);
        }
        _ => panic!("expected a funded event"),
    }
}

#[test]
fn escrow_matches_token_flow_over_a_history() {
    let mut client = setup();
    let a = client.create_program(MAINTAINER, "org/a".to_string(), 7, None).unwrap();
    let b = client.create_program(MAINTAINER, "org/b".to_string(), 11, Some(100)).unwrap();
    client.fund(a, MAINTAINER, 300).unwrap();
    client.fund(b, MAINTAINER, 200).unwrap();
    client.register_contributor(a, MAINTAINER, "x".to_string(), CONTRIBUTOR_WALLET).unwrap();
    client.register_contributor(b, MAINTAINER, "x".to_string(), ADMIN).unwrap();
    client.record_merge(GATEWAY, a, "x".to_string(), 1, 5).unwrap();
    client.record_merge(GATEWAY, b, "x".to_string(), 1, 9).unwrap();
    let _ = client.record_merge(GATEWAY, b, "x".to_string(), 2, 9);
    client.pause(a, MAINTAINER).unwrap();
    let released = client.withdraw_remaining(a, MAINTAINER).unwrap();
    assert_eq!(released, 300 - 35);

    let escrowed: i128 = [a, b].iter().map(|id| client.get_escrow_balance(*id).unwrap()).sum();
    let inflow: i128 = client
        .transfers()
        .iter()
        .map(|t| if t.to == CONTRACT { t.amount } else { 0 } - if t.from == CONTRACT { t.amount } else { 0 })
        .sum();
    assert_eq!(escrowed + released, inflow);
    assert_eq!(escrowed, 200 - 99);
    assert_eq!(inflow, 300 + 200 - 35 - 99);
    assert_eq!(token_balance(client.transfers(), CONTRIBUTOR_WALLET), 35);
    assert_eq!(token_balance(client.transfers(), ADMIN), 99);
}

#[test]
fn refused_calls_change_nothing() {
    let mut client = setup();
    let id = client.create_program(MAINTAINER, "org/repo".to_string(), 10, None).unwrap();
    let events_before = client.events().len();
    assert!(client.fund(id, CONTRIBUTOR_WALLET, 5).is_err());
    assert!(client.pause(id, CONTRIBUTOR_WALLET).is_err());
    assert!(client.set_ratio(id, MAINTAINER, 0).is_err());
    assert!(client.register_contributor(7, MAINTAINER, "z".to_string(), ADMIN).is_err());
    assert_eq!(client.events().len(), events_before);
    assert!(client.transfers().is_empty());
    let p = client.get_program(id).unwrap();
    assert_eq!((p.reward_per_point, p.escrow_balance, p.status), (10, 0, ProgramStatus::Active));
}
