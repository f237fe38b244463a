//! The state of the DAO contract and its calls.  A refused call leaves the
//! state as it was, as an aborted transaction does.

use vstd::prelude::*;

use crate::collections::{Duplicate, VecMap, VecSet};
use crate::json::{json_u128, parse_json_u128, PromiseOutcome};
use crate::dao::policy::{Policy, PolicyView, VersionedPolicy, VersionedPolicyView};
use crate::dao::proposal::{
    calls_view, duplicate_calls, duplicate_opt_text, opt_text, Action, ActionCall, ActionCallView,
    Proposal, ProposalImput, ProposalKind, ProposalKindView, ProposalStatus, ProposalView,
    VoteTally, VoteThresholds,
};
use crate::dao::{DaoError, DaoFault};

verus! {

/// How the tokens of a transfer proposal are sent.
#[derive(Debug, PartialEq)]
pub enum PayoutPlan {
    /// NEAR sent directly.
    Native { receiver_id: String, amount: u128 },
    /// A fungible token sent with `ft_transfer`.
    FtTransfer { token_id: String, receiver_id: String, amount: u128, memo: String },
    /// A fungible token sent with `ft_transfer_call`.
    FtTransferCall {
        token_id: String,
        receiver_id: String,
        amount: u128,
        memo: String,
        msg: String,
    },
}

/// The view of a `PayoutPlan`.
pub enum PayoutPlanView {
    Native { receiver_id: Seq<char>, amount: u128 },
    FtTransfer { token_id: Seq<char>, receiver_id: Seq<char>, amount: u128, memo: Seq<char> },
    FtTransferCall {
        token_id: Seq<char>,
        receiver_id: Seq<char>,
        amount: u128,
        memo: Seq<char>,
        msg: Seq<char>,
    },
}

impl View for PayoutPlan {
    type V = PayoutPlanView;

    open spec fn view(&self) -> PayoutPlanView {
        match self {
            PayoutPlan::Native { receiver_id, amount } => PayoutPlanView::Native {
                receiver_id: receiver_id@,
                amount: *amount,
            },
            PayoutPlan::FtTransfer { token_id, receiver_id, amount, memo } =>
                PayoutPlanView::FtTransfer {
                token_id: token_id@,
                receiver_id: receiver_id@,
                amount: *amount,
                memo: memo@,
            },
            PayoutPlan::FtTransferCall { token_id, receiver_id, amount, memo, msg } =>
                PayoutPlanView::FtTransferCall {
                token_id: token_id@,
                receiver_id: receiver_id@,
                amount: *amount,
                memo: memo@,
                msg: msg@,
            },
        }
    }
}

/// How a transfer is paid: NEAR without a token, otherwise the token's
/// `ft_transfer`, or `ft_transfer_call` when a message is given.
pub open spec fn payout_plan(
    token_id: Option<Seq<char>>,
    receiver_id: Seq<char>,
    amount: u128,
    memo: Seq<char>,
    msg: Option<Seq<char>>,
) -> PayoutPlanView {
    match token_id {
        None => PayoutPlanView::Native { receiver_id, amount },
        Some(token) => match msg {
            Some(m) => PayoutPlanView::FtTransferCall {
                token_id: token,
                receiver_id,
                amount,
                memo,
                msg: m,
            },
            None => PayoutPlanView::FtTransfer { token_id: token, receiver_id, amount, memo },
        },
    }
}

/// What the contract asks the chain to do after a call.
#[derive(Debug, PartialEq)]
pub enum Effect {
    /// Pay out a transfer proposal, then report back to `on_proposal_callback`.
    Payout { proposal_id: u128, plan: PayoutPlan },
    /// Call methods of `receiver_id`, then report back to `on_proposal_callback`.
    FunctionCalls { proposal_id: u128, receiver_id: String, actions: Vec<ActionCall> },
    /// Send a proposer's bond back.
    ReturnBond { receiver_id: String, amount: u128 },
}

/// The view of an `Effect`.
pub enum EffectView {
    Payout { proposal_id: u128, plan: PayoutPlanView },
    FunctionCalls { proposal_id: u128, receiver_id: Seq<char>, actions: Seq<ActionCallView> },
    ReturnBond { receiver_id: Seq<char>, amount: u128 },
}

impl View for Effect {
    type V = EffectView;

    open spec fn view(&self) -> EffectView {
        match self {
            Effect::Payout { proposal_id, plan } => EffectView::Payout {
                proposal_id: *proposal_id,
                plan: plan@,
            },
            Effect::FunctionCalls { proposal_id, receiver_id, actions } =>
                EffectView::FunctionCalls {
                proposal_id: *proposal_id,
                receiver_id: receiver_id@,
                actions: calls_view(actions@),
            },
            Effect::ReturnBond { receiver_id, amount } => EffectView::ReturnBond {
                receiver_id: receiver_id@,
                amount: *amount,
            },
        }
    }
}

/// The view of an optional effect.
pub open spec fn opt_effect(e: Option<Effect>) -> Option<EffectView> {
    match e {
        Some(x) => Some(x@),
        None => None,
    }
}

/// The state of the DAO.
pub struct Contract {
    pub owner_id: String,
    pub policy: Option<VersionedPolicy>,
    pub proposals: VecMap<u128, Proposal>,
    pub last_proposal_id: u128,
    pub administrators: VecSet<String>,
    pub groups: VecMap<String, VersionedPolicy>,
    pub total_delegation_amount: u128,
    pub delegations: VecMap<String, u128>,
    pub locked_amount: u128,
}

/// The view of the DAO's state.
pub struct ContractView {
    pub owner_id: Seq<char>,
    pub policy: Option<VersionedPolicyView>,
    pub proposals: Map<u128, ProposalView>,
    pub last_proposal_id: u128,
    pub administrators: Set<Seq<char>>,
    pub groups: Map<Seq<char>, VersionedPolicyView>,
    pub total_delegation_amount: u128,
    pub delegations: Map<Seq<char>, u128>,
    pub locked_amount: u128,
}

/// The view of an optional stored policy.
pub open spec fn opt_policy(p: Option<VersionedPolicy>) -> Option<VersionedPolicyView> {
    match p {
        Some(v) => Some(v@),
        None => None,
    }
}

impl View for Contract {
    type V = ContractView;

    open spec fn view(&self) -> ContractView {
        ContractView {
            owner_id: self.owner_id@,
            policy: opt_policy(self.policy),
            proposals: self.proposals@,
            last_proposal_id: self.last_proposal_id,
            administrators: self.administrators@,
            groups: self.groups@,
            total_delegation_amount: self.total_delegation_amount,
            delegations: self.delegations@,
            locked_amount: self.locked_amount,
        }
    }
}

/// The result of a call on the state, or its refusal.
pub type Step<T> = Result<(ContractView, T), DaoFault<Seq<char>>>;

/// The new proposal that a submission makes.
pub open spec fn new_proposal(
    title: Seq<char>,
    description: Seq<char>,
    proposer: Seq<char>,
    kind: ProposalKindView,
    group: Option<Seq<char>>,
    submission_time: u64,
    link: Seq<char>,
) -> ProposalView {
    ProposalView {
        title,
        description,
        proposer,
        kind,
        group,
        submission_time,
        vote_counts: Map::empty(),
        votes: Map::empty(),
        status: ProposalStatus::InProgress,
        approval_date: None,
        link,
        admin_appoved: false,
    }
}

impl ContractView {
    /// Whether `signer` may manage the administrators.
    pub open spec fn is_manager(self, signer: Seq<char>) -> bool {
        self.owner_id == signer || self.administrators.contains(signer)
    }

    pub open spec fn set_admin(self, signer: Seq<char>, user: Seq<char>) -> Step<()> {
        if !self.is_manager(signer) {
            Err(DaoFault::OnlyAdministrator)
        } else if self.administrators.contains(user) {
            Err(DaoFault::AlreadyAdministrator)
        } else {
            Ok((ContractView { administrators: self.administrators.insert(user), ..self }, ()))
        }
    }

    pub open spec fn delete_admin(self, signer: Seq<char>, user: Seq<char>) -> Step<()> {
        if !self.is_manager(signer) {
            Err(DaoFault::OnlyAdministrator)
        } else if !self.administrators.contains(user) {
            Err(DaoFault::NotAdministrator)
        } else {
            Ok((ContractView { administrators: self.administrators.remove(user), ..self }, ()))
        }
    }

    /// The delegation of an account, zero where it has none.
    pub open spec fn delegation_of(self, account: Seq<char>) -> u128 {
        if self.delegations.contains_key(account) {
            self.delegations[account]
        } else {
            0
        }
    }

    /// Adds `amount` to the delegation of `account` and to the total; returns
    /// the previous and new delegation of the account and the new total.
    pub open spec fn delegate(self, account: Seq<char>, amount: u128) -> Step<(u128, u128, u128)> {
        let prev = self.delegation_of(account);
        if prev + amount > u128::MAX || self.total_delegation_amount + amount > u128::MAX {
            Err(DaoFault::Overflow)
        } else {
            let new_amount = (prev + amount) as u128;
            let total = (self.total_delegation_amount + amount) as u128;
            Ok(
                (
                    ContractView {
                        delegations: self.delegations.insert(account, new_amount),
                        total_delegation_amount: total,
                        ..self
                    },
                    (prev, new_amount, total),
                ),
            )
        }
    }

    /// The stored policy, once upgraded.
    pub open spec fn current_policy(self) -> Result<PolicyView, DaoFault<Seq<char>>> {
        match self.policy {
            None => Err(DaoFault::PolicyMissing),
            Some(VersionedPolicyView::Default(_)) => Err(DaoFault::PolicyNotUpgraded),
            Some(VersionedPolicyView::Current(p)) => Ok(p),
        }
    }

    /// Whether a proposal of this kind may be submitted with this deposit.
    pub open spec fn check_set_proposal(self, kind: ProposalKindView, attached_deposit: u128) -> Result<
        (),
        DaoFault<Seq<char>>,
    > {
        match self.current_policy() {
            Err(e) => Err(e),
            Ok(p) => if !p.proposal_bond.contains_key(kind.label()) {
                Err(DaoFault::BondNotFound)
            } else if attached_deposit < p.proposal_bond[kind.label()] {
                Err(DaoFault::MinBond)
            } else {
                Ok(())
            },
        }
    }

    /// Records a new proposal under the next id, locks the deposit, and
    /// returns the id.
    pub open spec fn add_proposal(
        self,
        proposal: ProposalView,
        attached_deposit: u128,
    ) -> Step<u128> {
        match self.current_policy() {
            Err(e) => Err(e),
            Ok(_) => if self.last_proposal_id + 1 > u128::MAX || self.locked_amount
                + attached_deposit > u128::MAX {
                Err(DaoFault::Overflow)
            } else {
                Ok(
                    (
                        ContractView {
                            proposals: self.proposals.insert(self.last_proposal_id, proposal),
                            last_proposal_id: (self.last_proposal_id + 1) as u128,
                            locked_amount: (self.locked_amount + attached_deposit) as u128,
                            ..self
                        },
                        self.last_proposal_id,
                    ),
                )
            },
        }
    }

    /// Unlocks the bond of a proposal and sends it back to the proposer.
    pub open spec fn return_bond(self, policy: PolicyView, proposal: ProposalView) -> Step<
        EffectView,
    > {
        let label = proposal.kind.label();
        if !policy.proposal_bond.contains_key(label) {
            Err(DaoFault::ProposalBondNotFound(label))
        } else if self.locked_amount < policy.proposal_bond[label] {
            Err(DaoFault::Overflow)
        } else {
            let bond = policy.proposal_bond[label];
            Ok(
                (
                    ContractView { locked_amount: (self.locked_amount - bond) as u128, ..self },
                    EffectView::ReturnBond { receiver_id: proposal.proposer, amount: bond },
                ),
            )
        }
    }

    /// The groups after `member` joins (`add`) or leaves a role of a group.
    pub open spec fn changed_groups(
        self,
        group_id: Seq<char>,
        member: Seq<char>,
        role: Seq<char>,
        add: bool,
    ) -> Result<Map<Seq<char>, VersionedPolicyView>, DaoFault<Seq<char>>> {
        if !self.groups.contains_key(group_id) {
            Err(DaoFault::GroupNotFound)
        } else {
            match self.groups[group_id] {
                VersionedPolicyView::Default(_) => Err(DaoFault::PolicyNotUpgraded),
                VersionedPolicyView::Current(p) => match p.with_member(role, member, add) {
                    Err(e) => Err(e),
                    Ok(np) => Ok(self.groups.insert(group_id, VersionedPolicyView::Current(np))),
                },
            }
        }
    }

    /// Returns the bond and then installs `policy` as the stored policy.
    pub open spec fn bond_then_policy(
        self,
        policy: PolicyView,
        proposal: ProposalView,
        new_policy: VersionedPolicyView,
    ) -> Step<EffectView> {
        match self.return_bond(policy, proposal) {
            Err(e) => Err(e),
            Ok((s, eff)) => Ok((ContractView { policy: Some(new_policy), ..s }, eff)),
        }
    }

    /// Carries out an approved proposal under `policy`, the policy in force
    /// when it was approved.  Transfers and function calls go out and report
    /// back later; every other kind takes effect at once and its bond is
    /// returned.
    pub open spec fn execute(self, policy: PolicyView, proposal: ProposalView, id: u128) -> Step<
        EffectView,
    > {
        match proposal.kind {
            ProposalKindView::ChangePolicy { policy: np } => self.bond_then_policy(
                policy,
                proposal,
                np,
            ),
            ProposalKindView::AddMemberFromGroup { group_id, member_id, rol_name } => match self.changed_groups(
                group_id,
                member_id,
                rol_name,
                true,
            ) {
                Err(e) => Err(e),
                Ok(g) => match self.return_bond(policy, proposal) {
                    Err(e) => Err(e),
                    Ok((s, eff)) => Ok((ContractView { groups: g, ..s }, eff)),
                },
            },
            ProposalKindView::RemoveMemberFromGroup { group_id, member_id, rol_name } => match self.changed_groups(
                group_id,
                member_id,
                rol_name,
                false,
            ) {
                Err(e) => Err(e),
                Ok(g) => match self.return_bond(policy, proposal) {
                    Err(e) => Err(e),
                    Ok((s, eff)) => Ok((ContractView { groups: g, ..s }, eff)),
                },
            },
            ProposalKindView::FunctionCall { receiver_id, actions } => Ok(
                (self, EffectView::FunctionCalls { proposal_id: id, receiver_id, actions }),
            ),
            ProposalKindView::Transfer { token_id, receiver_id, amount, msg } => Ok(
                (
                    self,
                    EffectView::Payout {
                        proposal_id: id,
                        plan: payout_plan(
                            token_id,
                            receiver_id,
                            amount,
                            proposal.description,
                            msg,
                        ),
                    },
                ),
            ),
            ProposalKindView::ChangePolicyAddOrUpdateRole { rol_name, role } => self.bond_then_policy(
                policy,
                proposal,
                VersionedPolicyView::Current(policy.with_role(rol_name, role)),
            ),
            ProposalKindView::ChangePolicyRemoveRole { rol_name } => self.bond_then_policy(
                policy,
                proposal,
                VersionedPolicyView::Current(policy.without_role(rol_name)),
            ),
            ProposalKindView::ChangePolicyUpdateVotePolicy { proposal_kind, vote_policy } => self.bond_then_policy(
                policy,
                proposal,
                VersionedPolicyView::Current(policy.with_vote_policy(proposal_kind, vote_policy)),
            ),
            ProposalKindView::ChangePolicyUpdateParameters { proposal_kind, parameters } => self.bond_then_policy(
                policy,
                proposal,
                VersionedPolicyView::Current(policy.with_parameters(proposal_kind, parameters)),
            ),
            ProposalKindView::Voting => self.return_bond(policy, proposal),
        }
    }

    /// Stores `proposal` under `id` in the state a step leads to.
    pub open spec fn then_store(step: Step<EffectView>, id: u128, proposal: ProposalView) -> Step<
        Option<EffectView>,
    > {
        match step {
            Err(e) => Err(e),
            Ok((s, eff)) => Ok(
                (ContractView { proposals: s.proposals.insert(id, proposal), ..s }, Some(eff)),
            ),
        }
    }

    /// The state with `proposal` stored under `id`.
    pub open spec fn store(self, id: u128, proposal: ProposalView) -> ContractView {
        ContractView { proposals: self.proposals.insert(id, proposal), ..self }
    }

    /// The state without the proposal `id`.
    pub open spec fn drop_proposal(self, id: u128) -> ContractView {
        ContractView { proposals: self.proposals.remove(id), ..self }
    }

    /// `sender` takes `action` on proposal `id` at time `now`;
    /// `thresholds` says which votes reach the vote policy's percentage once
    /// the vote is counted.
    pub open spec fn update_proposal(
        self,
        id: u128,
        action: Action,
        sender: Seq<char>,
        now: u64,
        thresholds: VoteThresholds,
    ) -> Step<Option<EffectView>> {
        if !self.proposals.contains_key(id) {
            Err(DaoFault::NoProposal)
        } else {
            match self.current_policy() {
                Err(e) => Err(e),
                Ok(policy) => {
                    let proposal = self.proposals[id];
                    if !policy.allows(sender, proposal.kind, action) {
                        Err(DaoFault::PermissionDenied)
                    } else {
                        match action {
                            Action::AddProposal => Err(DaoFault::WrongAction),
                            Action::RemoveProposal => Ok((self.drop_proposal(id), None)),
                            Action::Finalize => match policy.status_of(
                                proposal,
                                now,
                                thresholds,
                                proposal.admin_appoved,
                            ) {
                                Err(e) => Err(e),
                                Ok(status) => {
                                    let p = ProposalView { status, ..proposal };
                                    if status == ProposalStatus::Approved {
                                        Self::then_store(self.execute(policy, p, id), id, p)
                                    } else if status == ProposalStatus::Expired {
                                        Self::then_store(self.return_bond(policy, p), id, p)
                                    } else {
                                        Err(DaoFault::NotExpiredOrFailed)
                                    }
                                },
                            },
                            _ => if proposal.status != ProposalStatus::InProgress {
                                Err(DaoFault::NotReadyForVote)
                            } else {
                                let marked = if self.administrators.contains(sender) && action
                                    == Action::VoteApprove {
                                    ProposalView { admin_appoved: true, ..proposal }
                                } else {
                                    proposal
                                };
                                match marked.after_vote(sender, action) {
                                    Err(e) => Err(e),
                                    Ok(voted) => match policy.status_of(
                                        voted,
                                        now,
                                        thresholds,
                                        voted.admin_appoved,
                                    ) {
                                        Err(e) => Err(e),
                                        Ok(status) => {
                                            let p = ProposalView { status, ..voted };
                                            if status == ProposalStatus::Approved {
                                                Self::then_store(self.execute(policy, p, id), id, p)
                                            } else if status == ProposalStatus::Removed {
                                                Ok((self.drop_proposal(id), None))
                                            } else if status == ProposalStatus::Rejected {
                                                Self::then_store(
                                                    self.return_bond(policy, p),
                                                    id,
                                                    p,
                                                )
                                            } else {
                                                Ok((self.store(id, p), None))
                                            }
                                        },
                                    },
                                }
                            },
                        }
                    }
                },
            }
        }
    }

    /// The report of a transfer or function call of proposal `id`: on success
    /// the proposal is approved and its bond returned, otherwise it failed.
    pub open spec fn proposal_callback(self, id: u128, succeeded: bool) -> Step<
        Option<EffectView>,
    > {
        if !self.proposals.contains_key(id) {
            Err(DaoFault::NoProposal)
        } else if succeeded {
            match self.current_policy() {
                Err(e) => Err(e),
                Ok(policy) => {
                    let p = ProposalView { status: ProposalStatus::Approved, ..self.proposals[id] };
                    Self::then_store(self.return_bond(policy, p), id, p)
                },
            }
        } else {
            Ok(
                (
                    self.store(id, ProposalView { status: ProposalStatus::Failed, ..self.proposals[id] }),
                    None,
                ),
            )
        }
    }
}

/// A step that a call took: on success the new state and the result, on
/// refusal the error and the state unchanged.
pub open spec fn took_step<T, R>(
    step: Step<T>,
    old_state: ContractView,
    new_state: ContractView,
    r: Result<R, DaoError>,
    out: spec_fn(R) -> T,
) -> bool {
    match step {
        Ok((s, v)) => r matches Ok(x) && new_state == s && out(x) == v,
        Err(e) => r matches Err(x) && x@ == e && new_state == old_state,
    }
}

/// How a payout is sent.
pub fn internal_payout(
    token_id: Option<String>,
    receiver_id: &String,
    amount: u128,
    memo: String,
    msg: Option<String>,
) -> (r: PayoutPlan)
    ensures
        r@ == payout_plan(opt_text(token_id), receiver_id@, amount, memo@, opt_text(msg)),
{
    match token_id {
        None => PayoutPlan::Native { receiver_id: receiver_id.clone(), amount },
        Some(token) => match msg {
            Some(m) => PayoutPlan::FtTransferCall {
                token_id: token,
                receiver_id: receiver_id.clone(),
                amount,
                memo,
                msg: m,
            },
            None => PayoutPlan::FtTransfer {
                token_id: token,
                receiver_id: receiver_id.clone(),
                amount,
                memo,
            },
        },
    }
}

/// The storage cost of `storage_used` bytes at `storage_byte_cost` each.
pub fn refund_deposit(storage_used: u64, storage_byte_cost: u128) -> (r: Result<u128, DaoError>)
    ensures
        storage_byte_cost * storage_used <= u128::MAX ==> r == Ok::<u128, DaoError>(
            (storage_byte_cost * storage_used) as u128,
        ),
        storage_byte_cost * storage_used > u128::MAX ==> (r matches Err(e) && e@
            == DaoFault::<Seq<char>>::Overflow),
{
    match storage_byte_cost.checked_mul(storage_used as u128) {
        Some(cost) => Ok(cost),
        None => Err(DaoFault::Overflow),
    }
}

impl Contract {
    /// A new DAO owned by `owner_id`, with `policy` upgraded.
    pub fn new(owner_id: String, policy: VersionedPolicy) -> (c: Contract)
        ensures
            c@ == (ContractView {
                owner_id: owner_id@,
                policy: Some(policy@.upgraded()),
                proposals: Map::empty(),
                last_proposal_id: 1,
                administrators: Set::empty(),
                groups: Map::empty(),
                total_delegation_amount: 0,
                delegations: Map::empty(),
                locked_amount: 0,
            }),
    {
        Contract {
            owner_id,
            policy: Some(policy.upgrade()),
            proposals: VecMap::new(),
            last_proposal_id: 1,
            administrators: VecSet::new(),
            groups: VecMap::new(),
            total_delegation_amount: 0,
            delegations: VecMap::new(),
            locked_amount: 0,
        }
    }

    fn is_manager(&self, signer: &String) -> (b: bool)
        ensures
            b == self@.is_manager(signer@),
    {
        self.owner_id == *signer || self.administrators.contains(signer)
    }

    /// Makes `user_id` an administrator; the signer must be the owner or an
    /// administrator.
    pub fn set_admin(&mut self, signer: &String, user_id: String) -> (r: Result<(), DaoError>)
        ensures
            took_step(old(self)@.set_admin(signer@, user_id@), old(self)@, final(self)@, r, |x: ()| x),
    {
        if !self.is_manager(signer) {
            return Err(DaoFault::OnlyAdministrator);
        }
        if self.administrators.contains(&user_id) {
            return Err(DaoFault::AlreadyAdministrator);
        }
        self.administrators.insert(user_id);
        Ok(())
    }

    /// Removes `user_id` from the administrators; the signer must be the
    /// owner or an administrator.
    pub fn delete_admin(&mut self, signer: &String, user_id: String) -> (r: Result<(), DaoError>)
        ensures
            took_step(old(self)@.delete_admin(signer@, user_id@), old(self)@, final(self)@, r, |x: ()| x),
    {
        if !self.is_manager(signer) {
            return Err(DaoFault::OnlyAdministrator);
        }
        if !self.administrators.contains(&user_id) {
            return Err(DaoFault::NotAdministrator);
        }
        self.administrators.remove(&user_id);
        Ok(())
    }

    /// Adds `amount` to the delegation of `account_id`; returns the previous
    /// and new delegation and the new total.
    pub fn delegate(&mut self, account_id: &String, amount: u128) -> (r: Result<
        (u128, u128, u128),
        DaoError,
    >)
        ensures
            took_step(
                old(self)@.delegate(account_id@, amount),
                old(self)@,
                final(self)@,
                r,
                |x: (u128, u128, u128)| x,
            ),
    {
        let prev_amount: u128 = match self.delegations.get(account_id) {
            Some(a) => *a,
            None => 0,
        };
        if prev_amount > u128::MAX - amount || self.total_delegation_amount > u128::MAX - amount {
            return Err(DaoFault::Overflow);
        }
        let new_amount = prev_amount + amount;
        self.delegations.insert(account_id.clone(), new_amount);
        self.total_delegation_amount = self.total_delegation_amount + amount;
        Ok((prev_amount, new_amount, self.total_delegation_amount))
    }

    pub fn get_staking_contract(&self) -> (r: String)
        ensures
            r@ == self@.owner_id,
    {
        self.owner_id.clone()
    }

    /// The balance locked for storage: `storage_byte_cost` times the bytes used.
    pub fn get_locked_storage_amount(&self, storage_byte_cost: u128, storage_usage: u64) -> (r:
        Result<u128, DaoError>)
        ensures
            storage_byte_cost * storage_usage <= u128::MAX ==> r == Ok::<u128, DaoError>(
                (storage_byte_cost * storage_usage) as u128,
            ),
            storage_byte_cost * storage_usage > u128::MAX ==> (r matches Err(e) && e@
                == DaoFault::<Seq<char>>::Overflow),
    {
        refund_deposit(storage_usage, storage_byte_cost)
    }

    /// The balance free to use: the account balance less the storage lock and
    /// the locked bonds.
    pub fn get_available_amount(
        &self,
        account_balance: u128,
        storage_byte_cost: u128,
        storage_usage: u64,
    ) -> (r: Result<u128, DaoError>)
        ensures
            ({
                let storage = storage_byte_cost * storage_usage;
                let free = account_balance - storage - self.locked_amount;
                if storage > u128::MAX || free < 0 {
                    r matches Err(e) && e@ == DaoFault::<Seq<char>>::Overflow
                } else {
                    r == Ok::<u128, DaoError>(free as u128)
                }
            }),
    {
        let storage = match storage_byte_cost.checked_mul(storage_usage as u128) {
            Some(s) => s,
            None => {
                return Err(DaoFault::Overflow);
            },
        };
        if account_balance < storage || account_balance - storage < self.locked_amount {
            return Err(DaoFault::Overflow);
        }
        Ok(account_balance - storage - self.locked_amount)
    }

    pub fn delegation_total_supply(&self) -> (r: u128)
        ensures
            r == self@.total_delegation_amount,
    {
        self.total_delegation_amount
    }

    pub fn delegation_balance_of(&self, account_id: &String) -> (r: u128)
        ensures
            r == self@.delegation_of(account_id@),
    {
        match self.delegations.get(account_id) {
            Some(a) => *a,
            None => 0,
        }
    }

    pub fn delegation_balance_ratio(&self, account_id: &String) -> (r: (u128, u128))
        ensures
            r == (self@.delegation_of(account_id@), self@.total_delegation_amount),
    {
        (self.delegation_balance_of(account_id), self.delegation_total_supply())
    }

    /// The stored policy, once upgraded.
    fn current_policy(&self) -> (r: Result<&Policy, DaoError>)
        ensures
            match self@.current_policy() {
                Ok(p) => r matches Ok(x) && x@ == p,
                Err(e) => r matches Err(x) && x@ == e,
            },
    {
        match &self.policy {
            None => Err(DaoFault::PolicyMissing),
            Some(VersionedPolicy::Default(_)) => Err(DaoFault::PolicyNotUpgraded),
            Some(VersionedPolicy::Current(p)) => Ok(p),
        }
    }

    /// Whether a proposal of `kind` may be submitted with `attached_deposit`;
    /// when it may, the caller asks the NFT contract whether the predecessor
    /// is a member.
    pub fn set_proposal(&self, kind: &ProposalKind, attached_deposit: u128) -> (r: Result<
        (),
        DaoError,
    >)
        ensures
            match self@.check_set_proposal(kind@, attached_deposit) {
                Ok(_) => r is Ok,
                Err(e) => r matches Err(x) && x@ == e,
            },
    {
        let policy = self.current_policy()?;
        let label = kind.label_string();
        match policy.proposal_bond.get(&label) {
            None => Err(DaoFault::BondNotFound),
            Some(bond) => if attached_deposit < *bond {
                Err(DaoFault::MinBond)
            } else {
                Ok(())
            },
        }
    }

    /// Records the proposal of `data`, made by `signer` at time `now`, with
    /// `attached_deposit` locked; returns its id.
    pub fn callback_set_proposal(
        &mut self,
        data: ProposalImput,
        attached_deposit: u128,
        signer: &String,
        now: u64,
    ) -> (r: Result<u128, DaoError>)
        ensures
            took_step(
                old(self)@.add_proposal(
                    new_proposal(
                        data.title@,
                        data.description@,
                        signer@,
                        data.kind@,
                        opt_text(data.group),
                        now,
                        data.link@,
                    ),
                    attached_deposit,
                ),
                old(self)@,
                final(self)@,
                r,
                |x: u128| x,
            ),
    {
        let _policy = self.current_policy()?;
        if self.last_proposal_id == u128::MAX || self.locked_amount > u128::MAX - attached_deposit {
            return Err(DaoFault::Overflow);
        }
        let id = self.last_proposal_id;
        let proposal = Proposal {
            title: data.title,
            description: data.description,
            proposer: signer.clone(),
            kind: data.kind,
            group: data.group,
            submission_time: now,
            vote_counts: VecMap::new(),
            votes: VecMap::new(),
            status: ProposalStatus::InProgress,
            approval_date: None,
            link: data.link,
            admin_appoved: false,
        };
        self.proposals.insert(id, proposal);
        self.last_proposal_id = self.last_proposal_id + 1;
        self.locked_amount = self.locked_amount + attached_deposit;
        Ok(id)
    }

    /// The member count that the NFT contract replied with.
    pub fn decode_member_count(outcome: &PromiseOutcome) -> (r: Result<u128, DaoError>)
        ensures
            match outcome {
                PromiseOutcome::Failed => r matches Err(e) && e@ == DaoFault::<Seq<char>>::CallFailed,
                PromiseOutcome::Successful(bytes) => match json_u128(bytes@) {
                    Some(n) => r == Ok::<u128, DaoError>(n),
                    None => r matches Err(e) && e@ == DaoFault::<Seq<char>>::WrongValueReceived,
                },
            },
    {
        match outcome {
            PromiseOutcome::Failed => Err(DaoFault::CallFailed),
            PromiseOutcome::Successful(bytes) => match parse_json_u128(bytes) {
                Some(n) => Ok(n),
                None => Err(DaoFault::WrongValueReceived),
            },
        }
    }

    /// The callback of a submission: the NFT contract's reply must be a
    /// number, and then the proposal is recorded.
    pub fn on_set_proposal(
        &mut self,
        data: ProposalImput,
        attached_deposit: u128,
        outcome: &PromiseOutcome,
        signer: &String,
        now: u64,
    ) -> (r: Result<u128, DaoError>)
        ensures
            match outcome {
                PromiseOutcome::Failed => r matches Err(e) && e@ == DaoFault::<Seq<char>>::CallFailed
                    && final(self)@ == old(self)@,
                PromiseOutcome::Successful(bytes) => match json_u128(bytes@) {
                    None => r matches Err(e) && e@ == DaoFault::<Seq<char>>::WrongValueReceived
                        && final(self)@ == old(self)@,
                    Some(_) => took_step(
                        old(self)@.add_proposal(
                            new_proposal(
                                data.title@,
                                data.description@,
                                signer@,
                                data.kind@,
                                opt_text(data.group),
                                now,
                                data.link@,
                            ),
                            attached_deposit,
                        ),
                        old(self)@,
                        final(self)@,
                        r,
                        |x: u128| x,
                    ),
                },
            },
    {
        let _members = Self::decode_member_count(outcome)?;
        self.callback_set_proposal(data, attached_deposit, signer, now)
    }
    /// Unlocks the bond of `proposal` under `policy` and sends it back.
    fn internal_return_bonds(&mut self, policy: &Policy, proposal: &Proposal) -> (r: Result<
        Effect,
        DaoError,
    >)
        ensures
            took_step(
                old(self)@.return_bond(policy@, proposal@),
                old(self)@,
                final(self)@,
                r,
                |e: Effect| e@,
            ),
    {
        let label = proposal.kind.label_string();
        let bond = policy.get_proposal_bond(&label)?;
        if self.locked_amount < bond {
            return Err(DaoFault::Overflow);
        }
        self.locked_amount = self.locked_amount - bond;
        Ok(Effect::ReturnBond { receiver_id: proposal.proposer.clone(), amount: bond })
    }

    /// The group `group_id` after `member_id` joins (`add`) or leaves the role
    /// `rol_name`; the groups are not changed yet.
    fn changed_group(&self, group_id: &String, member_id: &String, rol_name: &String, add: bool) -> (r:
        Result<VersionedPolicy, DaoError>)
        ensures
            match self@.changed_groups(group_id@, member_id@, rol_name@, add) {
                Ok(g) => r matches Ok(v) && self@.groups.insert(group_id@, v@) == g,
                Err(e) => r matches Err(x) && x@ == e,
            },
    {
        let group = match self.groups.get(group_id) {
            Some(g) => g,
            None => {
                return Err(DaoFault::GroupNotFound);
            },
        };
        let mut new_policy = match group {
            VersionedPolicy::Current(p) => p.duplicate(),
            VersionedPolicy::Default(_) => {
                return Err(DaoFault::PolicyNotUpgraded);
            },
        };
        if add {
            new_policy.add_member_to_role(rol_name.clone(), member_id.clone())?;
        } else {
            new_policy.remove_member_from_role(rol_name.clone(), member_id.clone())?;
        }
        Ok(VersionedPolicy::Current(new_policy))
    }

    /// Returns the bond of `proposal`, then installs `new_policy`.
    fn bond_then_policy(&mut self, policy: &Policy, proposal: &Proposal, new_policy: VersionedPolicy) -> (r: Result<
        Effect,
        DaoError,
    >)
        ensures
            took_step(
                old(self)@.bond_then_policy(policy@, proposal@, new_policy@),
                old(self)@,
                final(self)@,
                r,
                |e: Effect| e@,
            ),
    {
        let effect = self.internal_return_bonds(policy, proposal)?;
        self.policy = Some(new_policy);
        Ok(effect)
    }

    /// Carries out an approved proposal under `policy`, the policy in force
    /// when it was approved.
    fn internal_execute_proposal(&mut self, policy: Policy, proposal: &Proposal, proposal_id: u128) -> (r:
        Result<Effect, DaoError>)
        ensures
            took_step(
                old(self)@.execute(policy@, proposal@, proposal_id),
                old(self)@,
                final(self)@,
                r,
                |e: Effect| e@,
            ),
    {
        match &proposal.kind {
            ProposalKind::ChangePolicy { policy: new_policy } => {
                self.bond_then_policy(&policy, proposal, new_policy.duplicate())
            },
            ProposalKind::AddMemberFromGroup { group_id, member_id, rol_name } => {
                let group = self.changed_group(group_id, member_id, rol_name, true)?;
                let effect = self.internal_return_bonds(&policy, proposal)?;
                self.groups.insert(group_id.clone(), group);
                Ok(effect)
            },
            ProposalKind::RemoveMemberFromGroup { group_id, member_id, rol_name } => {
                let group = self.changed_group(group_id, member_id, rol_name, false)?;
                let effect = self.internal_return_bonds(&policy, proposal)?;
                self.groups.insert(group_id.clone(), group);
                Ok(effect)
            },
            ProposalKind::FunctionCall { receiver_id, actions } => Ok(
                Effect::FunctionCalls {
                    proposal_id,
                    receiver_id: receiver_id.clone(),
                    actions: duplicate_calls(actions),
                },
            ),
            ProposalKind::Transfer { token_id, receiver_id, amount, msg } => Ok(
                Effect::Payout {
                    proposal_id,
                    plan: internal_payout(
                        duplicate_opt_text(token_id),
                        receiver_id,
                        *amount,
                        proposal.description.clone(),
                        duplicate_opt_text(msg),
                    ),
                },
            ),
            ProposalKind::ChangePolicyAddOrUpdateRole { rol_name, role } => {
                let mut new_policy = policy.duplicate();
                new_policy.add_or_update_role(rol_name.clone(), role.duplicate());
                self.bond_then_policy(&policy, proposal, VersionedPolicy::Current(new_policy))
            },
            ProposalKind::ChangePolicyRemoveRole { rol_name } => {
                let mut new_policy = policy.duplicate();
                new_policy.remove_role(rol_name.clone());
                self.bond_then_policy(&policy, proposal, VersionedPolicy::Current(new_policy))
            },
            ProposalKind::ChangePolicyUpdateVotePolicy { proposal_kind, vote_policy } => {
                let mut new_policy = policy.duplicate();
                new_policy.add_or_update_vote_policy(proposal_kind.clone(), *vote_policy);
                self.bond_then_policy(&policy, proposal, VersionedPolicy::Current(new_policy))
            },
            ProposalKind::ChangePolicyUpdateParameters { proposal_kind, parameters } => {
                let mut new_policy = policy.duplicate();
                new_policy.update_parameters(proposal_kind.clone(), *parameters);
                self.bond_then_policy(&policy, proposal, VersionedPolicy::Current(new_policy))
            },
            ProposalKind::Voting => self.internal_return_bonds(&policy, proposal),
        }
    }
    /// The vote counts that the status check of `sender` taking `action` on
    /// proposal `id` sees: after the vote for a vote, as they are otherwise
    /// (zero where there is no such proposal).
    pub fn tally_for_status(&self, id: u128, action: &Action) -> (t: VoteTally)
        ensures
            t == (if !self@.proposals.contains_key(id) {
                VoteTally { approve: 0, reject: 0, remove: 0 }
            } else if action.is_vote() {
                self@.proposals[id].tally_after(*action)
            } else {
                self@.proposals[id].tally()
            }),
    {
        match self.proposals.get(&id) {
            None => VoteTally { approve: 0, reject: 0, remove: 0 },
            Some(p) => match action {
                Action::VoteApprove | Action::VoteReject | Action::VoteRemove => p.tally_after(
                    action,
                ),
                _ => p.tally(),
            },
        }
    }

    /// The percentage (bits of an `f64`) of the vote policy that governs
    /// proposal `id`, where the policy, the proposal and its vote policy exist.
    pub fn vote_percentage_bits(&self, id: u128) -> (r: Option<u64>)
        ensures
            r == (match self@.current_policy() {
                Ok(p) => if self@.proposals.contains_key(id) && p.vote_policy.contains_key(
                    self@.proposals[id].kind.label(),
                ) {
                    Some(p.vote_policy[self@.proposals[id].kind.label()].percentage_bits)
                } else {
                    None
                },
                Err(_) => None,
            }),
    {
        let policy = match self.current_policy() {
            Ok(p) => p,
            Err(_) => {
                return None;
            },
        };
        match self.proposals.get(&id) {
            None => None,
            Some(proposal) => match policy.vote_policy.get(&proposal.kind.label_string()) {
                Some(v) => Some(v.percentage_bits),
                None => None,
            },
        }
    }

    /// `sender` takes `action` on proposal `id` at time `now`: removes it,
    /// votes on it, or finalizes it; `thresholds` says which votes reach the
    /// vote policy's percentage once the vote is counted.  An approved
    /// proposal is carried out; a rejected or expired one returns its bond.
    pub fn callback_update_proposal(
        &mut self,
        id: u128,
        action: Action,
        sender: &String,
        now: u64,
        thresholds: VoteThresholds,
    ) -> (r: Result<Option<Effect>, DaoError>)
        ensures
            took_step(
                old(self)@.update_proposal(id, action, sender@, now, thresholds),
                old(self)@,
                final(self)@,
                r,
                |e: Option<Effect>| opt_effect(e),
            ),
    {
        let proposal = match self.proposals.get(&id) {
            Some(p) => p.duplicate(),
            None => {
                return Err(DaoFault::NoProposal);
            },
        };
        let policy = self.current_policy()?.duplicate();
        if !policy.check_permission(sender.clone(), &proposal.kind, &action) {
            return Err(DaoFault::PermissionDenied);
        }
        match action {
            Action::AddProposal => Err(DaoFault::WrongAction),
            Action::RemoveProposal => {
                self.proposals.remove(&id);
                Ok(None)
            },
            Action::Finalize => {
                let mut proposal = proposal;
                let admin_appoved = proposal.admin_appoved;
                let status = policy.proposal_status(&proposal, now, thresholds, admin_appoved)?;
                proposal.status = status;
                if status == ProposalStatus::Approved {
                    let effect = self.internal_execute_proposal(policy, &proposal, id)?;
                    self.proposals.insert(id, proposal);
                    Ok(Some(effect))
                } else if status == ProposalStatus::Expired {
                    let effect = self.internal_return_bonds(&policy, &proposal)?;
                    self.proposals.insert(id, proposal);
                    Ok(Some(effect))
                } else {
                    Err(DaoFault::NotExpiredOrFailed)
                }
            },
            _ => {
                if proposal.status != ProposalStatus::InProgress {
                    return Err(DaoFault::NotReadyForVote);
                }
                let mut proposal = proposal;
                if self.administrators.contains(sender) && action == Action::VoteApprove {
                    proposal.admin_appoved = true;
                }
                proposal.update_votes(sender.clone(), &action)?;
                let admin_appoved = proposal.admin_appoved;
                let status = policy.proposal_status(&proposal, now, thresholds, admin_appoved)?;
                proposal.status = status;
                if status == ProposalStatus::Approved {
                    let effect = self.internal_execute_proposal(policy, &proposal, id)?;
                    self.proposals.insert(id, proposal);
                    Ok(Some(effect))
                } else if status == ProposalStatus::Removed {
                    self.proposals.remove(&id);
                    Ok(None)
                } else if status == ProposalStatus::Rejected {
                    let effect = self.internal_return_bonds(&policy, &proposal)?;
                    self.proposals.insert(id, proposal);
                    Ok(Some(effect))
                } else {
                    self.proposals.insert(id, proposal);
                    Ok(None)
                }
            },
        }
    }

    /// The callback of an update: the NFT contract's reply must be a number,
    /// and then `sender` takes `action` on proposal `id`.
    pub fn on_update_proposal(
        &mut self,
        id: u128,
        action: Action,
        outcome: &PromiseOutcome,
        sender: &String,
        now: u64,
        thresholds: VoteThresholds,
    ) -> (r: Result<Option<Effect>, DaoError>)
        ensures
            match outcome {
                PromiseOutcome::Failed => r matches Err(e) && e@ == DaoFault::<Seq<char>>::CallFailed
                    && final(self)@ == old(self)@,
                PromiseOutcome::Successful(bytes) => match json_u128(bytes@) {
                    None => r matches Err(e) && e@ == DaoFault::<Seq<char>>::WrongValueReceived
                        && final(self)@ == old(self)@,
                    Some(_) => took_step(
                        old(self)@.update_proposal(id, action, sender@, now, thresholds),
                        old(self)@,
                        final(self)@,
                        r,
                        |e: Option<Effect>| opt_effect(e),
                    ),
                },
            },
    {
        let _members = Self::decode_member_count(outcome)?;
        self.callback_update_proposal(id, action, sender, now, thresholds)
    }

    /// The report of the transfer or function calls of proposal `id`.
    pub fn on_proposal_callback(&mut self, proposal_id: u128, succeeded: bool) -> (r: Result<
        Option<Effect>,
        DaoError,
    >)
        ensures
            took_step(
                old(self)@.proposal_callback(proposal_id, succeeded),
                old(self)@,
                final(self)@,
                r,
                |e: Option<Effect>| opt_effect(e),
            ),
    {
        let proposal = match self.proposals.get(&proposal_id) {
            Some(p) => p.duplicate(),
            None => {
                return Err(DaoFault::NoProposal);
            },
        };
        let mut proposal = proposal;
        if succeeded {
            let policy = self.current_policy()?.duplicate();
            proposal.status = ProposalStatus::Approved;
            let effect = self.internal_return_bonds(&policy, &proposal)?;
            self.proposals.insert(proposal_id, proposal);
            Ok(Some(effect))
        } else {
            proposal.status = ProposalStatus::Failed;
            self.proposals.insert(proposal_id, proposal);
            Ok(None)
        }
    }
}

} // verus!
