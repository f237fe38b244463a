//! Proposals of the DAO: their kinds, the actions taken on them, their votes.

use vstd::prelude::*;

use crate::collections::{Duplicate, MapKey, VecMap};
use crate::dao::policy::{
    RolePermission, RolePermissionView, VersionedPolicy, VersionedPolicyView, VotePolicy,
};
use crate::dao::{DaoError, DaoFault};

verus! {

/// The view of an optional text.
pub open spec fn opt_text(o: Option<String>) -> Option<Seq<char>> {
    match o {
        Some(s) => Some(s@),
        None => None,
    }
}

/// Copies an optional text.
pub fn duplicate_opt_text(o: &Option<String>) -> (r: Option<String>)
    ensures
        opt_text(r) == opt_text(*o),
{
    match o {
        Some(s) => Some(s.clone()),
        None => None,
    }
}

/// Copies a byte vector.
pub fn duplicate_bytes(v: &Vec<u8>) -> (r: Vec<u8>)
    ensures
        r@ == v@,
{
    let mut r: Vec<u8> = Vec::new();
    let mut i: usize = 0;
    while i < v.len()
        invariant
            i <= v.len(),
            r@ == v@.subrange(0, i as int),
        decreases v.len() - i,
    {
        r.push(v[i]);
        i = i + 1;
        assert(r@ =~= v@.subrange(0, i as int));
    }
    assert(r@ =~= v@);
    r
}

/// What can be done to a proposal.
#[derive(Clone, Copy, Debug, PartialEq, Eq, Structural)]
pub enum Action {
    AddProposal,
    RemoveProposal,
    VoteApprove,
    VoteReject,
    VoteRemove,
    Finalize,
}

impl View for Action {
    type V = Action;

    open spec fn view(&self) -> Action {
        *self
    }
}

impl Duplicate for Action {
    fn duplicate(&self) -> (r: Action) {
        *self
    }
}

impl MapKey for Action {
    fn same_key(&self, other: &Action) -> (b: bool) {
        *self == *other
    }
}

impl Action {
    /// The name of the action, as permissions write it.
    pub open spec fn label(self) -> Seq<char> {
        match self {
            Action::AddProposal => "AddProposal"@,
            Action::RemoveProposal => "RemoveProposal"@,
            Action::VoteApprove => "VoteApprove"@,
            Action::VoteReject => "VoteReject"@,
            Action::VoteRemove => "VoteRemove"@,
            Action::Finalize => "Finalize"@,
        }
    }

    /// Whether the action is one of the three votes.
    pub open spec fn is_vote(self) -> bool {
        self == Action::VoteApprove || self == Action::VoteReject || self == Action::VoteRemove
    }

    pub fn to_label(&self) -> (r: &'static str)
        ensures
            r@ == self.label(),
    {
        match self {
            Action::AddProposal => "AddProposal",
            Action::RemoveProposal => "RemoveProposal",
            Action::VoteApprove => "VoteApprove",
            Action::VoteReject => "VoteReject",
            Action::VoteRemove => "VoteRemove",
            Action::Finalize => "Finalize",
        }
    }
}

/// A method call that a `FunctionCall` proposal makes.
#[derive(Debug, PartialEq)]
pub struct ActionCall {
    pub method_name: String,
    pub args: Vec<u8>,
    pub deposit: u128,
    pub gas: u64,
}

/// The view of an `ActionCall`.
pub struct ActionCallView {
    pub method_name: Seq<char>,
    pub args: Seq<u8>,
    pub deposit: u128,
    pub gas: u64,
}

impl View for ActionCall {
    type V = ActionCallView;

    open spec fn view(&self) -> ActionCallView {
        ActionCallView {
            method_name: self.method_name@,
            args: self.args@,
            deposit: self.deposit,
            gas: self.gas,
        }
    }
}

impl Duplicate for ActionCall {
    fn duplicate(&self) -> (r: ActionCall) {
        ActionCall {
            method_name: self.method_name.clone(),
            args: duplicate_bytes(&self.args),
            deposit: self.deposit,
            gas: self.gas,
        }
    }
}

/// The views of a list of calls.
pub open spec fn calls_view(v: Seq<ActionCall>) -> Seq<ActionCallView> {
    v.map_values(|c: ActionCall| c@)
}

/// Copies a list of calls.
pub fn duplicate_calls(v: &Vec<ActionCall>) -> (r: Vec<ActionCall>)
    ensures
        calls_view(r@) == calls_view(v@),
{
    let mut r: Vec<ActionCall> = Vec::new();
    let mut i: usize = 0;
    while i < v.len()
        invariant
            i <= v.len(),
            r@.len() == i,
            forall|j: int| 0 <= j < i ==> #[trigger] r@[j]@ == v@[j]@,
        decreases v.len() - i,
    {
        r.push(v[i].duplicate());
        i = i + 1;
    }
    assert(calls_view(r@) =~= calls_view(v@));
    r
}

/// Where a proposal stands.
#[derive(Clone, Copy, Debug, PartialEq, Eq, Structural)]
pub enum ProposalStatus {
    InProgress,
    Approved,
    Rejected,
    Removed,
    Expired,
    Failed,
}

/// New bond and voting period for a kind of proposal; `None` keeps the old one.
#[derive(Clone, Copy, Debug, PartialEq, Eq, Structural)]
pub struct PolicyParameters {
    pub proposal_bond: Option<u128>,
    pub proposal_period: Option<u64>,
}

/// What a proposal asks for.
pub enum ProposalKind {
    ChangePolicy { policy: VersionedPolicy },
    AddMemberFromGroup { group_id: String, member_id: String, rol_name: String },
    RemoveMemberFromGroup { group_id: String, member_id: String, rol_name: String },
    FunctionCall { receiver_id: String, actions: Vec<ActionCall> },
    Transfer { token_id: Option<String>, receiver_id: String, amount: u128, msg: Option<String> },
    ChangePolicyAddOrUpdateRole { rol_name: String, role: RolePermission },
    ChangePolicyRemoveRole { rol_name: String },
    ChangePolicyUpdateVotePolicy { proposal_kind: String, vote_policy: VotePolicy },
    ChangePolicyUpdateParameters { proposal_kind: String, parameters: PolicyParameters },
    Voting,
}

/// The view of a `ProposalKind`.
pub enum ProposalKindView {
    ChangePolicy { policy: VersionedPolicyView },
    AddMemberFromGroup { group_id: Seq<char>, member_id: Seq<char>, rol_name: Seq<char> },
    RemoveMemberFromGroup { group_id: Seq<char>, member_id: Seq<char>, rol_name: Seq<char> },
    FunctionCall { receiver_id: Seq<char>, actions: Seq<ActionCallView> },
    Transfer {
        token_id: Option<Seq<char>>,
        receiver_id: Seq<char>,
        amount: u128,
        msg: Option<Seq<char>>,
    },
    ChangePolicyAddOrUpdateRole { rol_name: Seq<char>, role: RolePermissionView },
    ChangePolicyRemoveRole { rol_name: Seq<char> },
    ChangePolicyUpdateVotePolicy { proposal_kind: Seq<char>, vote_policy: VotePolicy },
    ChangePolicyUpdateParameters { proposal_kind: Seq<char>, parameters: PolicyParameters },
    Voting,
}

impl View for ProposalKind {
    type V = ProposalKindView;

    open spec fn view(&self) -> ProposalKindView {
        match self {
            ProposalKind::ChangePolicy { policy } => ProposalKindView::ChangePolicy {
                policy: policy@,
            },
            ProposalKind::AddMemberFromGroup { group_id, member_id, rol_name } =>
                ProposalKindView::AddMemberFromGroup {
                group_id: group_id@,
                member_id: member_id@,
                rol_name: rol_name@,
            },
            ProposalKind::RemoveMemberFromGroup { group_id, member_id, rol_name } =>
                ProposalKindView::RemoveMemberFromGroup {
                group_id: group_id@,
                member_id: member_id@,
                rol_name: rol_name@,
            },
            ProposalKind::FunctionCall { receiver_id, actions } => ProposalKindView::FunctionCall {
                receiver_id: receiver_id@,
                actions: calls_view(actions@),
            },
            ProposalKind::Transfer { token_id, receiver_id, amount, msg } =>
                ProposalKindView::Transfer {
                token_id: opt_text(*token_id),
                receiver_id: receiver_id@,
                amount: *amount,
                msg: opt_text(*msg),
            },
            ProposalKind::ChangePolicyAddOrUpdateRole { rol_name, role } =>
                ProposalKindView::ChangePolicyAddOrUpdateRole { rol_name: rol_name@, role: role@ },
            ProposalKind::ChangePolicyRemoveRole { rol_name } =>
                ProposalKindView::ChangePolicyRemoveRole { rol_name: rol_name@ },
            ProposalKind::ChangePolicyUpdateVotePolicy { proposal_kind, vote_policy } =>
                ProposalKindView::ChangePolicyUpdateVotePolicy {
                proposal_kind: proposal_kind@,
                vote_policy: *vote_policy,
            },
            ProposalKind::ChangePolicyUpdateParameters { proposal_kind, parameters } =>
                ProposalKindView::ChangePolicyUpdateParameters {
                proposal_kind: proposal_kind@,
                parameters: *parameters,
            },
            ProposalKind::Voting => ProposalKindView::Voting,
        }
    }
}

impl ProposalKindView {
    /// The name of the kind, under which policies keep its rules.
    pub open spec fn label(self) -> Seq<char> {
        match self {
            ProposalKindView::ChangePolicy { .. } => "ChangePolicy"@,
            ProposalKindView::AddMemberFromGroup { .. } => "AddMemberFromGroup"@,
            ProposalKindView::RemoveMemberFromGroup { .. } => "RemoveMemberFromGroup"@,
            ProposalKindView::FunctionCall { .. } => "FunctionCall"@,
            ProposalKindView::Transfer { .. } => "Transfer"@,
            ProposalKindView::ChangePolicyAddOrUpdateRole { .. } => "ChangePolicyAddOrUpdateRole"@,
            ProposalKindView::ChangePolicyRemoveRole { .. } => "ChangePolicyRemoveRole"@,
            ProposalKindView::ChangePolicyUpdateVotePolicy { .. } =>
                "ChangePolicyUpdateVotePolicy"@,
            ProposalKindView::ChangePolicyUpdateParameters { .. } =>
                "ChangePolicyUpdateParameters"@,
            ProposalKindView::Voting => "Voting"@,
        }
    }
}

impl ProposalKind {
    pub fn to_label(&self) -> (r: &'static str)
        ensures
            r@ == self@.label(),
    {
        match self {
            ProposalKind::ChangePolicy { .. } => "ChangePolicy",
            ProposalKind::AddMemberFromGroup { .. } => "AddMemberFromGroup",
            ProposalKind::RemoveMemberFromGroup { .. } => "RemoveMemberFromGroup",
            ProposalKind::FunctionCall { .. } => "FunctionCall",
            ProposalKind::Transfer { .. } => "Transfer",
            ProposalKind::ChangePolicyAddOrUpdateRole { .. } => "ChangePolicyAddOrUpdateRole",
            ProposalKind::ChangePolicyRemoveRole { .. } => "ChangePolicyRemoveRole",
            ProposalKind::ChangePolicyUpdateVotePolicy { .. } => "ChangePolicyUpdateVotePolicy",
            ProposalKind::ChangePolicyUpdateParameters { .. } => "ChangePolicyUpdateParameters",
            ProposalKind::Voting => "Voting",
        }
    }

    /// The label as an owned text.
    pub fn label_string(&self) -> (r: String)
        ensures
            r@ == self@.label(),
    {
        String::from_str(self.to_label())
    }
}

impl Duplicate for ProposalKind {
    fn duplicate(&self) -> (r: ProposalKind) {
        match self {
            ProposalKind::ChangePolicy { policy } => ProposalKind::ChangePolicy {
                policy: policy.duplicate(),
            },
            ProposalKind::AddMemberFromGroup { group_id, member_id, rol_name } =>
                ProposalKind::AddMemberFromGroup {
                group_id: group_id.clone(),
                member_id: member_id.clone(),
                rol_name: rol_name.clone(),
            },
            ProposalKind::RemoveMemberFromGroup { group_id, member_id, rol_name } =>
                ProposalKind::RemoveMemberFromGroup {
                group_id: group_id.clone(),
                member_id: member_id.clone(),
                rol_name: rol_name.clone(),
            },
            ProposalKind::FunctionCall { receiver_id, actions } => ProposalKind::FunctionCall {
                receiver_id: receiver_id.clone(),
                actions: duplicate_calls(actions),
            },
            ProposalKind::Transfer { token_id, receiver_id, amount, msg } =>
                ProposalKind::Transfer {
                token_id: duplicate_opt_text(token_id),
                receiver_id: receiver_id.clone(),
                amount: *amount,
                msg: duplicate_opt_text(msg),
            },
            ProposalKind::ChangePolicyAddOrUpdateRole { rol_name, role } =>
                ProposalKind::ChangePolicyAddOrUpdateRole {
                rol_name: rol_name.clone(),
                role: role.duplicate(),
            },
            ProposalKind::ChangePolicyRemoveRole { rol_name } =>
                ProposalKind::ChangePolicyRemoveRole { rol_name: rol_name.clone() },
            ProposalKind::ChangePolicyUpdateVotePolicy { proposal_kind, vote_policy } =>
                ProposalKind::ChangePolicyUpdateVotePolicy {
                proposal_kind: proposal_kind.clone(),
                vote_policy: *vote_policy,
            },
            ProposalKind::ChangePolicyUpdateParameters { proposal_kind, parameters } =>
                ProposalKind::ChangePolicyUpdateParameters {
                proposal_kind: proposal_kind.clone(),
                parameters: *parameters,
            },
            ProposalKind::Voting => ProposalKind::Voting,
        }
    }
}

/// The kinds of proposal whose vote policy and parameters a policy change may
/// set (exactly as the contract spells them).
pub open spec fn kind_is_listed(label: Seq<char>) -> bool {
    ||| label == "AddMemberGroup"@
    ||| label == "RemoveMemberFromGroup"@
    ||| label == "FunctionCall"@
    ||| label == "Transfer"@
}

pub fn proposal_kind_is_exists(label: String) -> (b: bool)
    ensures
        b == kind_is_listed(label@),
{
    label == String::from_str("AddMemberGroup") || label == String::from_str(
        "RemoveMemberFromGroup",
    ) || label == String::from_str("FunctionCall") || label == String::from_str("Transfer")
}

/// A proposal with its votes.
pub struct Proposal {
    pub title: String,
    pub description: String,
    pub proposer: String,
    pub kind: ProposalKind,
    pub group: Option<String>,
    pub submission_time: u64,
    pub vote_counts: VecMap<Action, u128>,
    pub votes: VecMap<String, Action>,
    pub status: ProposalStatus,
    pub approval_date: Option<u64>,
    pub link: String,
    pub admin_appoved: bool,
}

/// The view of a `Proposal`.
pub struct ProposalView {
    pub title: Seq<char>,
    pub description: Seq<char>,
    pub proposer: Seq<char>,
    pub kind: ProposalKindView,
    pub group: Option<Seq<char>>,
    pub submission_time: u64,
    pub vote_counts: Map<Action, u128>,
    pub votes: Map<Seq<char>, Action>,
    pub status: ProposalStatus,
    pub approval_date: Option<u64>,
    pub link: Seq<char>,
    pub admin_appoved: bool,
}

impl View for Proposal {
    type V = ProposalView;

    open spec fn view(&self) -> ProposalView {
        ProposalView {
            title: self.title@,
            description: self.description@,
            proposer: self.proposer@,
            kind: self.kind@,
            group: opt_text(self.group),
            submission_time: self.submission_time,
            vote_counts: self.vote_counts@,
            votes: self.votes@,
            status: self.status,
            approval_date: self.approval_date,
            link: self.link@,
            admin_appoved: self.admin_appoved,
        }
    }
}

impl Duplicate for Proposal {
    fn duplicate(&self) -> (r: Proposal) {
        Proposal {
            title: self.title.clone(),
            description: self.description.clone(),
            proposer: self.proposer.clone(),
            kind: self.kind.duplicate(),
            group: duplicate_opt_text(&self.group),
            submission_time: self.submission_time,
            vote_counts: self.vote_counts.duplicate(),
            votes: self.votes.duplicate(),
            status: self.status,
            approval_date: self.approval_date,
            link: self.link.clone(),
            admin_appoved: self.admin_appoved,
        }
    }
}

impl ProposalView {
    /// The proposal after `account` votes `action`: one vote per account; the
    /// count of the action becomes 0 on its first vote and grows by one on each
    /// later one.
    pub open spec fn after_vote(self, account: Seq<char>, action: Action) -> Result<
        ProposalView,
        DaoFault<Seq<char>>,
    > {
        if self.votes.contains_key(account) {
            Err(DaoFault::AlreadyVoted)
        } else {
            let count: int = if self.vote_counts.contains_key(action) {
                self.vote_counts[action] + 1
            } else {
                0
            };
            if count > u128::MAX {
                Err(DaoFault::Overflow)
            } else {
                Ok(
                    ProposalView {
                        votes: self.votes.insert(account, action),
                        vote_counts: self.vote_counts.insert(action, count as u128),
                        ..self
                    },
                )
            }
        }
    }

    /// The counts of the three votes.
    pub open spec fn tally(self) -> VoteTally {
        VoteTally {
            approve: self.count_of(Action::VoteApprove),
            reject: self.count_of(Action::VoteReject),
            remove: self.count_of(Action::VoteRemove),
        }
    }

    /// The counts of the three votes once a vote for `action` is counted (at
    /// most `u128::MAX`).
    pub open spec fn tally_after(self, action: Action) -> VoteTally {
        let next: u128 = if !self.vote_counts.contains_key(action) {
            0
        } else if self.vote_counts[action] == u128::MAX {
            u128::MAX
        } else {
            (self.vote_counts[action] + 1) as u128
        };
        let t = self.tally();
        match action {
            Action::VoteApprove => VoteTally { approve: next, ..t },
            Action::VoteReject => VoteTally { reject: next, ..t },
            Action::VoteRemove => VoteTally { remove: next, ..t },
            _ => t,
        }
    }

    /// The count of an action, zero where none is recorded.
    pub open spec fn count_of(self, action: Action) -> u128 {
        if self.vote_counts.contains_key(action) {
            self.vote_counts[action]
        } else {
            0
        }
    }
}

impl Proposal {
    fn count_of(&self, action: &Action) -> (r: u128)
        ensures
            r == self@.count_of(*action),
    {
        match self.vote_counts.get(action) {
            Some(c) => *c,
            None => 0,
        }
    }

    /// The counts of the three votes.
    pub fn tally(&self) -> (t: VoteTally)
        ensures
            t == self@.tally(),
    {
        VoteTally {
            approve: self.count_of(&Action::VoteApprove),
            reject: self.count_of(&Action::VoteReject),
            remove: self.count_of(&Action::VoteRemove),
        }
    }

    /// The counts of the three votes once a vote for `action` is counted.
    pub fn tally_after(&self, action: &Action) -> (t: VoteTally)
        ensures
            t == self@.tally_after(*action),
    {
        let next: u128 = match self.vote_counts.get(action) {
            None => 0,
            Some(c) => if *c == u128::MAX {
                u128::MAX
            } else {
                *c + 1
            },
        };
        let t = self.tally();
        match action {
            Action::VoteApprove => VoteTally { approve: next, ..t },
            Action::VoteReject => VoteTally { reject: next, ..t },
            Action::VoteRemove => VoteTally { remove: next, ..t },
            _ => t,
        }
    }

    pub fn update_votes(&mut self, account_id: String, action: &Action) -> (r: Result<
        (),
        DaoError,
    >)
        ensures
            match old(self)@.after_vote(account_id@, *action) {
                Ok(p) => r is Ok && final(self)@ == p,
                Err(e) => r matches Err(x) && x@ == e && final(self)@ == old(self)@,
            },
    {
        if self.votes.contains_key(&account_id) {
            return Err(DaoFault::AlreadyVoted);
        }
        let mut votes: u128 = 0;
        match self.vote_counts.get(action) {
            Some(count) => {
                if *count == u128::MAX {
                    return Err(DaoFault::Overflow);
                }
                votes = *count + 1;
            },
            None => {},
        }
        self.votes.insert(account_id, *action);
        self.vote_counts.insert(*action, votes);
        Ok(())
    }
}

/// The counts of the three votes on a proposal.
#[derive(Clone, Copy, Debug, PartialEq, Eq, Structural)]
pub struct VoteTally {
    pub approve: u128,
    pub reject: u128,
    pub remove: u128,
}

/// For each of the three votes, whether its share of the members reached the
/// percentage of the vote policy.  The share is a floating-point quotient
/// that the caller works out from the tally and the member count.
#[derive(Clone, Copy, Debug, PartialEq, Eq, Structural)]
pub struct VoteThresholds {
    pub approve: bool,
    pub reject: bool,
    pub remove: bool,
}

/// What a member submits to make a proposal.
pub struct ProposalImput {
    pub title: String,
    pub description: String,
    pub proponent: String,
    pub group: Option<String>,
    pub kind: ProposalKind,
    pub link: String,
}

} // verus!
