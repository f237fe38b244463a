//! What holds of the DAO across its calls.

use vstd::prelude::*;

use crate::dao::contract::{ContractView, EffectView};
use crate::dao::policy::{role_grants, PolicyView, VersionedPolicyView};
use crate::dao::proposal::{
    kind_is_listed, Action, PolicyParameters, ProposalKindView, ProposalStatus, ProposalView,
    VoteThresholds,
};
use crate::dao::DaoFault;
use crate::amounts::{amount_sum, lemma_amount_sum_insert};

verus! {

/// An administrator appointed and then dismissed by the same manager leaves
/// the state as it was.
pub proof fn law_admin_round_trip(s: ContractView, signer: Seq<char>, user: Seq<char>)
    requires
        s.set_admin(signer, user) is Ok,
    ensures
        s.set_admin(signer, user)->Ok_0.0.delete_admin(signer, user) is Ok,
        s.set_admin(signer, user)->Ok_0.0.delete_admin(signer, user)->Ok_0.0 == s,
{
    let s1 = s.set_admin(signer, user)->Ok_0.0;
    assert(s1.administrators.remove(user) =~= s.administrators);
}

/// The delegations add up to the delegated total.
pub open spec fn delegations_add_up(s: ContractView) -> bool {
    &&& s.delegations.dom().finite()
    &&& amount_sum(s.delegations) == s.total_delegation_amount
}

/// A new DAO has no delegations and a total of zero.
pub proof fn law_delegations_start_empty(s: ContractView)
    requires
        s.delegations == Map::<Seq<char>, u128>::empty(),
        s.total_delegation_amount == 0,
    ensures
        delegations_add_up(s),
{
    assert(s.delegations.dom() =~= Set::<Seq<char>>::empty());
}

/// Delegating keeps the delegations adding up to the total: the account's
/// delegation and the total both grow by the amount.
pub proof fn law_delegate_keeps_total(s: ContractView, account: Seq<char>, amount: u128)
    requires
        delegations_add_up(s),
        s.delegate(account, amount) is Ok,
    ensures
        delegations_add_up(s.delegate(account, amount)->Ok_0.0),
        s.delegate(account, amount)->Ok_0.0.delegation_of(account) == s.delegation_of(account)
            + amount,
        s.delegate(account, amount)->Ok_0.0.total_delegation_amount == s.total_delegation_amount
            + amount,
{
    let prev = s.delegation_of(account);
    lemma_amount_sum_insert(s.delegations, account, (prev + amount) as u128);
}

/// The number of accounts that voted `action`.
pub open spec fn voters_for(p: ProposalView, action: Action) -> nat {
    p.votes.dom().filter(|k: Seq<char>| p.votes[k] == action).len()
}

/// The recorded count of each action is one less than the number of its
/// voters (the first vote records zero), and no count is recorded for an
/// action nobody voted.
pub open spec fn counts_match_votes(p: ProposalView) -> bool {
    &&& p.votes.dom().finite()
    &&& forall|a: Action|
        #![trigger p.vote_counts.contains_key(a)]
        (p.vote_counts.contains_key(a) <==> voters_for(p, a) > 0) && (p.vote_counts.contains_key(a)
            ==> p.vote_counts[a] + 1 == voters_for(p, a))
}

/// A proposal without votes has its counts matching its votes.
pub proof fn law_counts_start_matching(p: ProposalView)
    requires
        p.votes == Map::<Seq<char>, Action>::empty(),
        p.vote_counts == Map::<Action, u128>::empty(),
    ensures
        counts_match_votes(p),
{
    assert forall|a: Action| #![trigger p.vote_counts.contains_key(a)] voters_for(p, a) == 0 by {
        assert(p.votes.dom().filter(|k: Seq<char>| p.votes[k] == a) =~= Set::empty());
    }
}

/// Each account votes at most once on a proposal, and a vote keeps the
/// counts matching the votes.
pub proof fn law_vote_once(p: ProposalView, account: Seq<char>, action: Action)
    requires
        counts_match_votes(p),
    ensures
        p.votes.contains_key(account) ==> p.after_vote(account, action) == Err::<
            ProposalView,
            DaoFault<Seq<char>>,
        >(DaoFault::AlreadyVoted),
        p.after_vote(account, action) is Ok ==> {
            let q = p.after_vote(account, action)->Ok_0;
            &&& q.votes.contains_key(account)
            &&& q.after_vote(account, action) is Err
            &&& counts_match_votes(q)
        },
{
    if p.after_vote(account, action) is Ok {
        let q = p.after_vote(account, action)->Ok_0;
        assert forall|a: Action| #![trigger q.vote_counts.contains_key(a)]
            (q.vote_counts.contains_key(a) <==> voters_for(q, a) > 0) && (
            q.vote_counts.contains_key(a) ==> q.vote_counts[a] + 1 == voters_for(q, a)) by {
            let old_set = p.votes.dom().filter(|k: Seq<char>| p.votes[k] == a);
            let new_set = q.votes.dom().filter(|k: Seq<char>| q.votes[k] == a);
            if a == action {
                assert(new_set =~= old_set.insert(account));
                assert(!old_set.contains(account));
            } else {
                assert(new_set =~= old_set);
            }
            assert(p.vote_counts.contains_key(a) ==> p.vote_counts[a] + 1 == voters_for(p, a));
        }
    }
}

/// The tally that the status check of a vote sees is the tally of the
/// proposal once the vote is counted.
pub proof fn law_tally_after_vote(p: ProposalView, account: Seq<char>, action: Action)
    requires
        action.is_vote(),
        p.after_vote(account, action) is Ok,
    ensures
        p.after_vote(account, action)->Ok_0.tally() == p.tally_after(action),
{
}

/// Proposal ids stay below the next id to hand out.
pub open spec fn ids_below_next(s: ContractView) -> bool {
    forall|id: u128| #[trigger] s.proposals.contains_key(id) ==> id < s.last_proposal_id
}

/// A new proposal gets an id that no proposal holds, the next id moves past
/// it, and its bond is locked.
pub proof fn law_new_proposal_id(s: ContractView, p: ProposalView, deposit: u128)
    requires
        ids_below_next(s),
        s.add_proposal(p, deposit) is Ok,
    ensures
        !s.proposals.contains_key(s.add_proposal(p, deposit)->Ok_0.1),
        s.add_proposal(p, deposit)->Ok_0.1 == s.last_proposal_id,
        ids_below_next(s.add_proposal(p, deposit)->Ok_0.0),
        s.add_proposal(p, deposit)->Ok_0.0.proposals[s.last_proposal_id] == p,
        s.add_proposal(p, deposit)->Ok_0.0.locked_amount == s.locked_amount + deposit,
{
}

/// Acting on a proposal or on its callback hands out no id and adds no
/// proposal, so ids stay below the next one.
pub proof fn law_updates_keep_ids(
    s: ContractView,
    id: u128,
    action: Action,
    sender: Seq<char>,
    now: u64,
    thresholds: VoteThresholds,
    succeeded: bool,
)
    requires
        ids_below_next(s),
    ensures
        s.update_proposal(id, action, sender, now, thresholds) is Ok ==> ids_below_next(
            s.update_proposal(id, action, sender, now, thresholds)->Ok_0.0,
        ),
        s.proposal_callback(id, succeeded) is Ok ==> ids_below_next(
            s.proposal_callback(id, succeeded)->Ok_0.0,
        ),
{
    if s.update_proposal(id, action, sender, now, thresholds) is Ok {
        let s2 = s.update_proposal(id, action, sender, now, thresholds)->Ok_0.0;
        assert(s2.last_proposal_id == s.last_proposal_id);
        assert forall|k: u128| #[trigger] s2.proposals.contains_key(k) implies k
            < s2.last_proposal_id by {
            assert(s.proposals.contains_key(k));
        }
    }
    if s.proposal_callback(id, succeeded) is Ok {
        let s2 = s.proposal_callback(id, succeeded)->Ok_0.0;
        assert forall|k: u128| #[trigger] s2.proposals.contains_key(k) implies k
            < s2.last_proposal_id by {
            assert(s.proposals.contains_key(k));
        }
    }
}

/// Returning a bond unlocks exactly the bond and sends it to the proposer.
pub proof fn law_bond_returned(s: ContractView, policy: PolicyView, p: ProposalView)
    requires
        s.return_bond(policy, p) is Ok,
    ensures
        s.return_bond(policy, p)->Ok_0.0.locked_amount + policy.proposal_bond[p.kind.label()]
            == s.locked_amount,
        s.return_bond(policy, p)->Ok_0.1 == (EffectView::ReturnBond {
            receiver_id: p.proposer,
            amount: policy.proposal_bond[p.kind.label()],
        }),
{
}

/// Anyone may submit, vote on, and act on transfers and function calls;
/// a holder of `*:*` may take any action on any proposal.
pub proof fn law_open_actions(p: PolicyView, user: Seq<char>, kind: ProposalKindView, action: Action)
    ensures
        kind is Transfer || kind is FunctionCall ==> p.allows(user, kind, action),
        action == Action::AddProposal || action.is_vote() ==> p.allows(user, kind, action),
        (exists|r: Seq<char>|
            p.roles.contains_key(r) && p.roles[r].users.contains(user)
                && #[trigger] p.roles[r].permissions.contains("*:*"@)) ==> p.allows(
            user,
            kind,
            action,
        ),
{
    if exists|r: Seq<char>|
        p.roles.contains_key(r) && p.roles[r].users.contains(user)
            && #[trigger] p.roles[r].permissions.contains("*:*"@) {
        let r = choose|r: Seq<char>|
            p.roles.contains_key(r) && p.roles[r].users.contains(user)
                && #[trigger] p.roles[r].permissions.contains("*:*"@);
        assert(p.user_roles(user).contains_key(r));
        assert(role_grants(p.user_roles(user)[r], kind.label(), action.label()));
    }
}

/// Upgrading twice is upgrading once, and an upgraded policy is current.
pub proof fn law_upgrade_idempotent(v: VersionedPolicyView)
    ensures
        v.upgraded() is Current,
        v.upgraded().upgraded() == v.upgraded(),
{
}

/// A proposal still open past its voting period expires when counted.
pub proof fn law_expiry(
    p: PolicyView,
    proposal: ProposalView,
    now: u64,
    thresholds: VoteThresholds,
    admin: bool,
)
    requires
        proposal.status == ProposalStatus::InProgress || proposal.status == ProposalStatus::Failed,
        p.proposal_period.contains_key(proposal.kind.label()),
        proposal.submission_time + p.proposal_period[proposal.kind.label()] < now,
    ensures
        p.status_of(proposal, now, thresholds, admin) == Ok::<
            ProposalStatus,
            DaoFault<Seq<char>>,
        >(ProposalStatus::Expired),
{
}


/// A proposal is never expired within its voting period: counting it at a
/// time no later than its submission time plus the period of its kind never
/// gives `Expired`, and once the period is over, counting an open or failed
/// proposal gives `Expired`.
pub proof fn law_expired_only_after_period(
    p: PolicyView,
    proposal: ProposalView,
    now: u64,
    thresholds: VoteThresholds,
    admin_appoved: bool,
)
    ensures
        p.status_of(proposal, now, thresholds, admin_appoved) == Ok::<
            ProposalStatus,
            DaoFault<Seq<char>>,
        >(ProposalStatus::Expired) ==> p.proposal_period.contains_key(proposal.kind.label())
            && proposal.submission_time + p.proposal_period[proposal.kind.label()] < now,
        p.proposal_period.contains_key(proposal.kind.label()) && now <= proposal.submission_time
            + p.proposal_period[proposal.kind.label()] ==> p.status_of(
            proposal,
            now,
            thresholds,
            admin_appoved,
        ) != Ok::<ProposalStatus, DaoFault<Seq<char>>>(ProposalStatus::Expired),
        (proposal.status == ProposalStatus::InProgress || proposal.status == ProposalStatus::Failed)
            && p.proposal_period.contains_key(proposal.kind.label()) && proposal.submission_time
            + p.proposal_period[proposal.kind.label()] <= u64::MAX && proposal.submission_time
            + p.proposal_period[proposal.kind.label()] < now ==> p.status_of(
            proposal,
            now,
            thresholds,
            admin_appoved,
        ) == Ok::<ProposalStatus, DaoFault<Seq<char>>>(ProposalStatus::Expired),
{
}

/// Executing an approved group-membership proposal changes the role of the
/// group's policy: the member is among the role's users afterwards when added,
/// and not among them when removed; the role's other users stay.
pub proof fn law_group_membership_executed(
    s: ContractView,
    policy: PolicyView,
    proposal: ProposalView,
    id: u128,
)
    requires
        s.execute(policy, proposal, id) is Ok,
    ensures
        proposal.kind matches ProposalKindView::AddMemberFromGroup { group_id, member_id, rol_name }
            ==> {
            let old_group = s.groups[group_id];
            let new_group = s.execute(policy, proposal, id)->Ok_0.0.groups[group_id];
            &&& old_group is Current && new_group is Current
            &&& new_group->Current_0.roles.contains_key(rol_name)
            &&& new_group->Current_0.roles[rol_name].users.contains(member_id)
            &&& forall|u: Seq<char>| #[trigger]
                old_group->Current_0.roles[rol_name].users.contains(u)
                    ==> new_group->Current_0.roles[rol_name].users.contains(u)
        },
        proposal.kind matches ProposalKindView::RemoveMemberFromGroup {
            group_id,
            member_id,
            rol_name,
        } ==> {
            let old_group = s.groups[group_id];
            let new_group = s.execute(policy, proposal, id)->Ok_0.0.groups[group_id];
            &&& old_group is Current && new_group is Current
            &&& new_group->Current_0.roles.contains_key(rol_name)
            &&& !new_group->Current_0.roles[rol_name].users.contains(member_id)
            &&& forall|u: Seq<char>|
                #[trigger] old_group->Current_0.roles[rol_name].users.contains(u) && u != member_id
                    ==> new_group->Current_0.roles[rol_name].users.contains(u)
        },
{
}

/// A role grants its users what its permissions name: the exact action on a
/// kind (`kind:action`), every action on a kind (`kind:*`), an action on every
/// kind (`*:action`), or everything (`*:*`).
pub proof fn law_role_permissions_allow(
    p: PolicyView,
    user: Seq<char>,
    role: Seq<char>,
    kind: ProposalKindView,
    action: Action,
)
    requires
        p.roles.contains_key(role),
        p.roles[role].users.contains(user),
    ensures
        p.roles[role].permissions.contains(kind.label() + ":*"@) ==> p.allows(user, kind, action),
        p.roles[role].permissions.contains(kind.label() + ":"@ + action.label()) ==> p.allows(
            user,
            kind,
            action,
        ),
        p.roles[role].permissions.contains("*:"@ + action.label()) ==> p.allows(user, kind, action),
        p.roles[role].permissions.contains("*:*"@) ==> p.allows(user, kind, action),
{
    assert(p.user_roles(user).contains_key(role));
    assert(p.user_roles(user)[role] == p.roles[role].permissions);
}

/// Updating the parameters of a listed kind sets the bond and the period that
/// are given and keeps those that are not; every other kind, and a kind that
/// is not listed, keeps its bond and period.
pub proof fn law_parameters_updated(p: PolicyView, kind: Seq<char>, params: PolicyParameters)
    ensures
        params.proposal_period is Some && kind_is_listed(kind) ==> p.with_parameters(
            kind,
            params,
        ).proposal_period.contains_key(kind) && p.with_parameters(kind, params).proposal_period[kind]
            == params.proposal_period->0,
        params.proposal_bond is Some && kind_is_listed(kind) ==> p.with_parameters(
            kind,
            params,
        ).proposal_bond.contains_key(kind) && p.with_parameters(kind, params).proposal_bond[kind]
            == params.proposal_bond->0,
        params.proposal_period is None || !kind_is_listed(kind) ==> p.with_parameters(
            kind,
            params,
        ).proposal_period == p.proposal_period,
        params.proposal_bond is None || !kind_is_listed(kind) ==> p.with_parameters(
            kind,
            params,
        ).proposal_bond == p.proposal_bond,
        forall|other: Seq<char>|
            other != kind ==> (#[trigger] p.with_parameters(kind, params).proposal_period.contains_key(
                other,
            ) == p.proposal_period.contains_key(other) && p.with_parameters(
                kind,
                params,
            ).proposal_period[other] == p.proposal_period[other]),
        forall|other: Seq<char>|
            other != kind ==> (#[trigger] p.with_parameters(kind, params).proposal_bond.contains_key(
                other,
            ) == p.proposal_bond.contains_key(other) && p.with_parameters(
                kind,
                params,
            ).proposal_bond[other] == p.proposal_bond[other]),
        p.with_parameters(kind, params).roles == p.roles,
        p.with_parameters(kind, params).vote_policy == p.vote_policy,
{
}

} // verus!
