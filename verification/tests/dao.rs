use metadao::collections::{VecMap, VecSet};
use metadao::dao::contract::{internal_payout, refund_deposit, Contract, Effect, PayoutPlan};
use metadao::dao::policy::{
    default_policy, Policy, RolePermission, VersionedPolicy, VotePolicy, DEFAULT_PROPOSAL_BOND,
    DEFAULT_PROPOSAL_PERIOD, FIFTY_PERCENT_BITS,
};
use metadao::dao::proposal::{
    proposal_kind_is_exists, Action, ActionCall, PolicyParameters, ProposalImput, ProposalKind,
    ProposalStatus, VoteTally, VoteThresholds,
};
use metadao::dao::DaoFault;
use metadao::json::PromiseOutcome;

const OWNER: &str = "dao.near";
const ALICE: &str = "alice.near";
const BOB: &str = "bob.near";
const START: u64 = 1_000;

fn s(x: &str) -> String {
    x.to_string()
}

fn no_thresholds() -> VoteThresholds {
    VoteThresholds { approve: false, reject: false, remove: false }
}

fn members_reply() -> PromiseOutcome {
    PromiseOutcome::Successful(b"\"3\"".to_vec())
}

/// A DAO whose council is Alice, with Alice also an administrator.
fn dao() -> Contract {
    let mut c = Contract::new(s(OWNER), VersionedPolicy::Default(vec![s(ALICE)]));
    c.set_admin(&s(OWNER), s(ALICE)).unwrap();
    c
}

fn imput(kind: ProposalKind) -> ProposalImput {
    ProposalImput {
        title: s("title"),
        description: s("description"),
        proponent: s(BOB),
        group: None,
        kind,
        link: s("https://example.org"),
    }
}

fn submit(c: &mut Contract, kind: ProposalKind) -> u128 {
    c.on_set_proposal(imput(kind), DEFAULT_PROPOSAL_BOND, &members_reply(), &s(BOB), START).unwrap()
}

#[test]
fn set_admin() {
    let mut contract = Contract::new(s(OWNER), VersionedPolicy::Default(vec![]));
    let user_id = s("p2p-testnet.testnet");
    assert!(contract.set_admin(&s(OWNER), user_id.clone()).is_ok());
    assert!(contract.administrators.contains(&user_id));
}

#[test]
fn admin_round_trip_and_refusals() {
    let mut c = Contract::new(s(OWNER), VersionedPolicy::Default(vec![]));
    assert_eq!(c.set_admin(&s(BOB), s(ALICE)), Err(DaoFault::OnlyAdministrator));
    assert_eq!(c.set_admin(&s(OWNER), s(ALICE)), Ok(()));
    assert_eq!(c.set_admin(&s(ALICE), s(ALICE)), Err(DaoFault::AlreadyAdministrator));
    assert_eq!(c.set_admin(&s(ALICE), s(BOB)), Ok(()));
    assert_eq!(c.delete_admin(&s(OWNER), s(BOB)), Ok(()));
    assert_eq!(c.delete_admin(&s(OWNER), s(BOB)), Err(DaoFault::NotAdministrator));
    assert_eq!(c.administrators.len(), 1);
    assert!(c.administrators.contains(&s(ALICE)));
}

#[test]
fn action_labels() {
    assert_eq!(Action::AddProposal.to_label(), "AddProposal");
    assert_eq!(Action::RemoveProposal.to_label(), "RemoveProposal");
    assert_eq!(Action::VoteApprove.to_label(), "VoteApprove");
    assert_eq!(Action::VoteReject.to_label(), "VoteReject");
    assert_eq!(Action::VoteRemove.to_label(), "VoteRemove");
    assert_eq!(Action::Finalize.to_label(), "Finalize");
    assert_eq!(ProposalKind::Voting.to_label(), "Voting");
    assert_eq!(ProposalKind::ChangePolicyRemoveRole { rol_name: s("x") }.to_label(), "ChangePolicyRemoveRole");
}

#[test]
fn listed_kinds() {
    assert!(proposal_kind_is_exists(s("AddMemberGroup")));
    assert!(proposal_kind_is_exists(s("RemoveMemberFromGroup")));
    assert!(proposal_kind_is_exists(s("FunctionCall")));
    assert!(proposal_kind_is_exists(s("Transfer")));
    assert!(!proposal_kind_is_exists(s("AddMemberFromGroup")));
    assert!(!proposal_kind_is_exists(s("Voting")));
}

#[test]
fn default_policy_contents() {
    let p = default_policy(vec![s(ALICE), s(BOB), s(ALICE)]);
    assert_eq!(p.roles.len(), 1);
    let council = p.roles.get(&s("council")).unwrap();
    assert_eq!(council.name, "council");
    assert_eq!(council.users.len(), 2);
    assert!(council.users.contains(&s(BOB)));
    assert!(council.permissions.contains(&s("*:*")));
    assert_eq!(p.vote_policy.len(), 10);
    assert_eq!(p.proposal_bond.len(), 10);
    assert_eq!(p.proposal_period.len(), 10);
    let vote = p.vote_policy.get(&s("ChangePolicy")).unwrap();
    assert_eq!(vote.quorum, 5);
    assert_eq!(vote.threshold, 3);
    assert!(vote.is_percentage);
    assert_eq!(f64::from_bits(vote.percentage_bits), 50.0);
    assert_eq!(*p.proposal_bond.get(&s("Voting")).unwrap(), 10u128.pow(22));
    assert_eq!(*p.proposal_period.get(&s("Transfer")).unwrap(), 1_000_000_000 * 60 * 60 * 24 * 7);
    assert_eq!(DEFAULT_PROPOSAL_PERIOD, 604_800_000_000_000);
    assert_eq!(FIFTY_PERCENT_BITS, 50.0f64.to_bits());
}

#[test]
fn upgrade_is_idempotent() {
    let once = VersionedPolicy::Default(vec![s(ALICE)]).upgrade();
    let roles_once = match &once {
        VersionedPolicy::Current(p) => p.roles.len(),
        VersionedPolicy::Default(_) => panic!("not upgraded"),
    };
    let twice = once.upgrade();
    match twice {
        VersionedPolicy::Current(p) => {
            assert_eq!(p.roles.len(), roles_once);
            assert!(p.roles.get(&s("council")).unwrap().users.contains(&s(ALICE)));
        }
        VersionedPolicy::Default(_) => panic!("not upgraded"),
    }
}

#[test]
fn delegations_add_up() {
    let mut c = dao();
    assert_eq!(c.delegate(&s(ALICE), 5), Ok((0, 5, 5)));
    assert_eq!(c.delegate(&s(ALICE), 7), Ok((5, 12, 12)));
    assert_eq!(c.delegate(&s(BOB), 3), Ok((0, 3, 15)));
    assert_eq!(c.delegation_balance_of(&s(ALICE)), 12);
    assert_eq!(c.delegation_balance_of(&s("carol.near")), 0);
    assert_eq!(c.delegation_total_supply(), 15);
    assert_eq!(c.delegation_balance_ratio(&s(BOB)), (3, 15));
    assert_eq!(c.delegate(&s(BOB), u128::MAX), Err(DaoFault::Overflow));
    assert_eq!(c.delegation_total_supply(), 15);
}

#[test]
fn views_of_balances() {
    let mut c = dao();
    c.locked_amount = 100;
    assert_eq!(c.get_staking_contract(), OWNER);
    assert_eq!(c.get_locked_storage_amount(10, 7), Ok(70));
    assert_eq!(c.get_available_amount(1_000, 10, 7), Ok(830));
    assert_eq!(c.get_available_amount(100, 10, 7), Err(DaoFault::Overflow));
    assert_eq!(c.get_locked_storage_amount(u128::MAX, 2), Err(DaoFault::Overflow));
    assert_eq!(refund_deposit(3, 10_000_000_000_000_000_000), Ok(30_000_000_000_000_000_000));
}

#[test]
fn member_count_reply() {
    assert_eq!(Contract::decode_member_count(&PromiseOutcome::Successful(b"\"42\"".to_vec())), Ok(42));
    assert_eq!(
        Contract::decode_member_count(&PromiseOutcome::Successful(b"42".to_vec())),
        Err(DaoFault::WrongValueReceived)
    );
    assert_eq!(Contract::decode_member_count(&PromiseOutcome::Failed), Err(DaoFault::CallFailed));
}

#[test]
fn submission_checks_bond() {
    let c = dao();
    assert_eq!(c.set_proposal(&ProposalKind::Voting, DEFAULT_PROPOSAL_BOND), Ok(()));
    assert_eq!(c.set_proposal(&ProposalKind::Voting, DEFAULT_PROPOSAL_BOND - 1), Err(DaoFault::MinBond));
    let mut d = dao();
    d.policy = Some(VersionedPolicy::Default(vec![]));
    assert_eq!(d.set_proposal(&ProposalKind::Voting, DEFAULT_PROPOSAL_BOND), Err(DaoFault::PolicyNotUpgraded));
    d.policy = None;
    assert_eq!(d.set_proposal(&ProposalKind::Voting, DEFAULT_PROPOSAL_BOND), Err(DaoFault::PolicyMissing));
    let mut e = dao();
    if let Some(VersionedPolicy::Current(p)) = &mut e.policy {
        p.proposal_bond.remove(&s("Voting"));
    }
    assert_eq!(e.set_proposal(&ProposalKind::Voting, DEFAULT_PROPOSAL_BOND), Err(DaoFault::BondNotFound));
}

#[test]
fn submission_records_proposal() {
    let mut c = dao();
    let id = submit(&mut c, ProposalKind::Voting);
    assert_eq!(id, 1);
    assert_eq!(c.last_proposal_id, 2);
    assert_eq!(c.locked_amount, DEFAULT_PROPOSAL_BOND);
    let p = c.proposals.get(&1).unwrap();
    assert_eq!(p.proposer, BOB);
    assert_eq!(p.submission_time, START);
    assert_eq!(p.status, ProposalStatus::InProgress);
    assert_eq!(p.votes.len(), 0);
    assert_eq!(submit(&mut c, ProposalKind::Voting), 2);
    assert_eq!(
        c.on_set_proposal(imput(ProposalKind::Voting), 1, &PromiseOutcome::Failed, &s(BOB), START),
        Err(DaoFault::CallFailed)
    );
    assert_eq!(
        c.on_set_proposal(
            imput(ProposalKind::Voting),
            1,
            &PromiseOutcome::Successful(b"nope".to_vec()),
            &s(BOB),
            START
        ),
        Err(DaoFault::WrongValueReceived)
    );
    assert_eq!(c.last_proposal_id, 3);
}

#[test]
fn approval_by_admin_returns_bond() {
    let mut c = dao();
    let id = submit(&mut c, ProposalKind::Voting);
    let approve = VoteThresholds { approve: true, reject: false, remove: false };
    assert_eq!(c.tally_for_status(id, &Action::VoteApprove), VoteTally { approve: 0, reject: 0, remove: 0 });
    let r = c.callback_update_proposal(id, Action::VoteApprove, &s(ALICE), START + 1, approve).unwrap();
    match r {
        Some(Effect::ReturnBond { receiver_id, amount }) => {
            assert_eq!(receiver_id, BOB);
            assert_eq!(amount, DEFAULT_PROPOSAL_BOND);
        }
        _ => panic!("expected the bond back"),
    }
    assert_eq!(c.locked_amount, 0);
    let p = c.proposals.get(&id).unwrap();
    assert_eq!(p.status, ProposalStatus::Approved);
    assert!(p.admin_appoved);
    assert_eq!(*p.vote_counts.get(&Action::VoteApprove).unwrap(), 0);
    assert_eq!(
        c.callback_update_proposal(id, Action::VoteApprove, &s(BOB), START + 2, approve),
        Err(DaoFault::NotReadyForVote)
    );
}

#[test]
fn approval_without_admin_stays_open() {
    let mut c = dao();
    let id = submit(&mut c, ProposalKind::Voting);
    let approve = VoteThresholds { approve: true, reject: false, remove: false };
    assert_eq!(c.callback_update_proposal(id, Action::VoteApprove, &s(BOB), START + 1, approve), Ok(None));
    assert_eq!(c.proposals.get(&id).unwrap().status, ProposalStatus::InProgress);
    assert_eq!(c.locked_amount, DEFAULT_PROPOSAL_BOND);
}

#[test]
fn one_vote_per_account() {
    let mut c = dao();
    let id = submit(&mut c, ProposalKind::Voting);
    assert_eq!(c.callback_update_proposal(id, Action::VoteReject, &s(BOB), START, no_thresholds()), Ok(None));
    assert_eq!(
        c.callback_update_proposal(id, Action::VoteApprove, &s(BOB), START, no_thresholds()),
        Err(DaoFault::AlreadyVoted)
    );
    assert_eq!(c.callback_update_proposal(id, Action::VoteReject, &s("carol.near"), START, no_thresholds()), Ok(None));
    let p = c.proposals.get(&id).unwrap();
    assert_eq!(p.votes.len(), 2);
    assert_eq!(*p.vote_counts.get(&Action::VoteReject).unwrap(), 1);
    assert_eq!(c.tally_for_status(id, &Action::VoteReject), VoteTally { approve: 0, reject: 2, remove: 0 });
    assert_eq!(c.tally_for_status(id, &Action::Finalize), VoteTally { approve: 0, reject: 1, remove: 0 });
}

#[test]
fn rejection_returns_bond_and_removal_drops() {
    let mut c = dao();
    let id = submit(&mut c, ProposalKind::Voting);
    let reject = VoteThresholds { approve: false, reject: true, remove: false };
    let r = c.callback_update_proposal(id, Action::VoteReject, &s(BOB), START, reject).unwrap();
    assert!(matches!(r, Some(Effect::ReturnBond { amount, .. }) if amount == DEFAULT_PROPOSAL_BOND));
    assert_eq!(c.proposals.get(&id).unwrap().status, ProposalStatus::Rejected);
    let id2 = submit(&mut c, ProposalKind::Voting);
    let remove = VoteThresholds { approve: false, reject: false, remove: true };
    assert_eq!(c.callback_update_proposal(id2, Action::VoteRemove, &s(BOB), START, remove), Ok(None));
    assert!(!c.proposals.contains_key(&id2));
    assert_eq!(c.locked_amount, DEFAULT_PROPOSAL_BOND);
}

#[test]
fn permissions_and_wrong_actions() {
    let mut c = dao();
    let id = submit(&mut c, ProposalKind::Voting);
    assert_eq!(
        c.callback_update_proposal(id, Action::RemoveProposal, &s(BOB), START, no_thresholds()),
        Err(DaoFault::PermissionDenied)
    );
    assert_eq!(
        c.callback_update_proposal(id, Action::AddProposal, &s(BOB), START, no_thresholds()),
        Err(DaoFault::WrongAction)
    );
    assert_eq!(
        c.callback_update_proposal(99, Action::VoteApprove, &s(BOB), START, no_thresholds()),
        Err(DaoFault::NoProposal)
    );
    assert_eq!(c.callback_update_proposal(id, Action::RemoveProposal, &s(ALICE), START, no_thresholds()), Ok(None));
    assert!(!c.proposals.contains_key(&id));
    let policy = match &c.policy {
        Some(VersionedPolicy::Current(p)) => p,
        _ => panic!("no policy"),
    };
    let transfer = ProposalKind::Transfer { token_id: None, receiver_id: s(BOB), amount: 1, msg: None };
    assert!(policy.check_permission(s("anyone.near"), &transfer, &Action::Finalize));
    assert!(policy.check_permission(s("anyone.near"), &ProposalKind::Voting, &Action::VoteRemove));
    assert!(!policy.check_permission(s("anyone.near"), &ProposalKind::Voting, &Action::Finalize));
    assert!(policy.check_permission(s(ALICE), &ProposalKind::Voting, &Action::Finalize));
}

#[test]
fn finalize_expired_and_open() {
    let mut c = dao();
    let id = submit(&mut c, ProposalKind::Voting);
    assert_eq!(
        c.callback_update_proposal(id, Action::Finalize, &s(ALICE), START, no_thresholds()),
        Err(DaoFault::NotExpiredOrFailed)
    );
    let late = START + DEFAULT_PROPOSAL_PERIOD + 1;
    let r = c.callback_update_proposal(id, Action::Finalize, &s(ALICE), late, no_thresholds()).unwrap();
    assert!(matches!(r, Some(Effect::ReturnBond { .. })));
    assert_eq!(c.proposals.get(&id).unwrap().status, ProposalStatus::Expired);
    assert_eq!(c.locked_amount, 0);
    assert_eq!(
        c.callback_update_proposal(id, Action::Finalize, &s(ALICE), late, no_thresholds()),
        Err(DaoFault::ProposalNotInProgress)
    );
}

#[test]
fn transfer_pays_out_then_reports() {
    let mut c = dao();
    let kind = ProposalKind::Transfer { token_id: None, receiver_id: s(BOB), amount: 77, msg: None };
    let id = submit(&mut c, kind);
    let approve = VoteThresholds { approve: true, reject: false, remove: false };
    let r = c.callback_update_proposal(id, Action::VoteApprove, &s(ALICE), START, approve).unwrap();
    match r {
        Some(Effect::Payout { proposal_id, plan: PayoutPlan::Native { receiver_id, amount } }) => {
            assert_eq!(proposal_id, id);
            assert_eq!(receiver_id, BOB);
            assert_eq!(amount, 77);
        }
        _ => panic!("expected a payout"),
    }
    assert_eq!(c.locked_amount, DEFAULT_PROPOSAL_BOND);
    let done = c.on_proposal_callback(id, true).unwrap();
    assert!(matches!(done, Some(Effect::ReturnBond { .. })));
    assert_eq!(c.locked_amount, 0);
    assert_eq!(c.proposals.get(&id).unwrap().status, ProposalStatus::Approved);
    let id2 = submit(&mut c, ProposalKind::Voting);
    assert_eq!(c.on_proposal_callback(id2, false), Ok(None));
    assert_eq!(c.proposals.get(&id2).unwrap().status, ProposalStatus::Failed);
    assert_eq!(c.on_proposal_callback(42, false), Err(DaoFault::NoProposal));
}

#[test]
fn function_call_goes_out() {
    let mut c = dao();
    let call = ActionCall { method_name: s("ping"), args: b"{}".to_vec(), deposit: 0, gas: 5 };
    let id = submit(&mut c, ProposalKind::FunctionCall { receiver_id: s("app.near"), actions: vec![call] });
    let approve = VoteThresholds { approve: true, reject: false, remove: false };
    match c.callback_update_proposal(id, Action::VoteApprove, &s(ALICE), START, approve).unwrap() {
        Some(Effect::FunctionCalls { receiver_id, actions, .. }) => {
            assert_eq!(receiver_id, "app.near");
            assert_eq!(actions.len(), 1);
            assert_eq!(actions[0].method_name, "ping");
            assert_eq!(actions[0].gas, 5);
        }
        _ => panic!("expected function calls"),
    }
}

#[test]
fn policy_change_adds_role() {
    let mut c = dao();
    let mut users = VecSet::new();
    users.insert(s(BOB));
    let mut permissions = VecSet::new();
    permissions.insert(s("Voting:Finalize"));
    let role = RolePermission { name: s("auditors"), users, permissions };
    let id = submit(&mut c, ProposalKind::ChangePolicyAddOrUpdateRole { rol_name: s("auditors"), role });
    let approve = VoteThresholds { approve: true, reject: false, remove: false };
    c.callback_update_proposal(id, Action::VoteApprove, &s(ALICE), START, approve).unwrap();
    let policy = match &c.policy {
        Some(VersionedPolicy::Current(p)) => p,
        _ => panic!("no policy"),
    };
    assert_eq!(policy.roles.len(), 2);
    assert!(policy.check_permission(s(BOB), &ProposalKind::Voting, &Action::Finalize));
    assert!(!policy.check_permission(s(BOB), &ProposalKind::Voting, &Action::RemoveProposal));
}

#[test]
fn group_change_needs_group() {
    let mut c = dao();
    let kind = ProposalKind::AddMemberFromGroup { group_id: s("g.near"), member_id: s(BOB), rol_name: s("council") };
    let id = submit(&mut c, kind);
    let approve = VoteThresholds { approve: true, reject: false, remove: false };
    assert_eq!(
        c.callback_update_proposal(id, Action::VoteApprove, &s(ALICE), START, approve),
        Err(DaoFault::GroupNotFound)
    );
    assert_eq!(c.proposals.get(&id).unwrap().votes.len(), 0);
    assert_eq!(c.locked_amount, DEFAULT_PROPOSAL_BOND);
    c.groups.insert(s("g.near"), VersionedPolicy::Current(default_policy(vec![s(ALICE)])));
    c.callback_update_proposal(id, Action::VoteApprove, &s(ALICE), START, approve).unwrap();
    match c.groups.get(&s("g.near")) {
        Some(VersionedPolicy::Current(p)) => {
            assert!(p.roles.get(&s("council")).unwrap().users.contains(&s(BOB)));
        }
        _ => panic!("group lost"),
    }
}

#[test]
fn policy_edits() {
    let mut p: Policy = default_policy(vec![s(ALICE)]);
    let vote = VotePolicy { quorum: 1, threshold: 1, percentage_bits: 75.0f64.to_bits(), is_percentage: true };
    p.add_or_update_vote_policy(s("Transfer"), vote);
    assert_eq!(p.vote_policy.get(&s("Transfer")).unwrap().quorum, 1);
    p.add_or_update_vote_policy(s("Voting"), vote);
    assert_eq!(p.vote_policy.get(&s("Voting")).unwrap().quorum, 5);
    p.update_parameters(s("FunctionCall"), PolicyParameters { proposal_bond: Some(9), proposal_period: None });
    assert_eq!(*p.proposal_bond.get(&s("FunctionCall")).unwrap(), 9);
    assert_eq!(*p.proposal_period.get(&s("FunctionCall")).unwrap(), DEFAULT_PROPOSAL_PERIOD);
    assert_eq!(p.get_proposal_bond(&s("FunctionCall")), Ok(9));
    assert_eq!(p.get_proposal_bond(&s("Nope")), Err(DaoFault::ProposalBondNotFound(s("Nope"))));
    assert_eq!(p.add_member_to_role(s("council"), s(BOB)), Ok(()));
    assert_eq!(p.remove_member_from_role(s("council"), s(ALICE)), Ok(()));
    let council = p.roles.get(&s("council")).unwrap();
    assert!(council.users.contains(&s(BOB)) && !council.users.contains(&s(ALICE)));
    assert_eq!(p.add_member_to_role(s("ghosts"), s(BOB)), Err(DaoFault::RoleNotFound(s("ghosts"))));
    assert_eq!(DaoFault::RoleNotFound(s("ghosts")).message(), "ERR_ROLE_NOT_FOUND:ghosts");
    p.remove_role(s("council"));
    assert_eq!(p.roles.len(), 0);
}

#[test]
fn payout_plans() {
    assert!(matches!(
        internal_payout(None, &s(BOB), 5, s("m"), Some(s("x"))),
        PayoutPlan::Native { amount: 5, .. }
    ));
    assert!(matches!(
        internal_payout(Some(s("usdc.near")), &s(BOB), 5, s("m"), None),
        PayoutPlan::FtTransfer { .. }
    ));
    match internal_payout(Some(s("usdc.near")), &s(BOB), 5, s("m"), Some(s("x"))) {
        PayoutPlan::FtTransferCall { token_id, memo, msg, .. } => {
            assert_eq!(token_id, "usdc.near");
            assert_eq!(memo, "m");
            assert_eq!(msg, "x");
        }
        _ => panic!("expected ft_transfer_call"),
    }
}

#[test]
fn percentage_of_a_proposal() {
    let mut c = dao();
    let id = submit(&mut c, ProposalKind::Voting);
    assert_eq!(c.vote_percentage_bits(id), Some(FIFTY_PERCENT_BITS));
    assert_eq!(c.vote_percentage_bits(id + 1), None);
    let map: VecMap<u128, u128> = VecMap::new();
    assert_eq!(map.len(), 0);
}

#[test]
fn policy_of_an_upgraded_version() {
    let p = VersionedPolicy::Default(vec![s(ALICE)]).upgrade().to_policy();
    assert!(p.roles.get(&s("council")).unwrap().users.contains(&s(ALICE)));
    let mut v = VersionedPolicy::Default(vec![s(BOB)]).upgrade();
    v.to_policy_mut().remove_role(s("council"));
    match v {
        VersionedPolicy::Current(p) => {
            assert_eq!(p.roles.len(), 0);
            assert_eq!(p.vote_policy.len(), 10);
        }
        VersionedPolicy::Default(_) => panic!("not upgraded"),
    }
}
