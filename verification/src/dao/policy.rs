//! Policies of the DAO: roles with their members and permissions, and for
//! each kind of proposal its vote policy, bond and voting period.

use vstd::prelude::*;

use crate::collections::{Duplicate, VecMap, VecSet};
use crate::dao::proposal::{
    kind_is_listed, proposal_kind_is_exists, Action, PolicyParameters, Proposal, ProposalKind,
    ProposalKindView, ProposalStatus, ProposalView, VoteThresholds,
};
use crate::dao::{DaoError, DaoFault};

verus! {

/// The bits of the `f64` value 50.0, the percentage of the default vote policy.
pub const FIFTY_PERCENT_BITS: u64 = 0x4049_0000_0000_0000u64;

/// The bond of the default policy, 10^22 yoctoNEAR.
pub const DEFAULT_PROPOSAL_BOND: u128 = 10_000_000_000_000_000_000_000u128;

/// The voting period of the default policy: one week in nanoseconds.
pub const DEFAULT_PROPOSAL_PERIOD: u64 = 604_800_000_000_000u64;

/// A role: its members and the permissions they hold, each written
/// `kind:action`, where either part may be `*`.
pub struct RolePermission {
    pub name: String,
    pub users: VecSet<String>,
    pub permissions: VecSet<String>,
}

/// The view of a `RolePermission`.
pub struct RolePermissionView {
    pub name: Seq<char>,
    pub users: Set<Seq<char>>,
    pub permissions: Set<Seq<char>>,
}

impl View for RolePermission {
    type V = RolePermissionView;

    open spec fn view(&self) -> RolePermissionView {
        RolePermissionView { name: self.name@, users: self.users@, permissions: self.permissions@ }
    }
}

impl Duplicate for RolePermission {
    fn duplicate(&self) -> (r: RolePermission) {
        RolePermission {
            name: self.name.clone(),
            users: self.users.duplicate(),
            permissions: self.permissions.duplicate(),
        }
    }
}

/// How votes on a kind of proposal are counted.  `percentage_bits` holds the
/// bits of an `f64` percentage.
#[derive(Clone, Copy, Debug, PartialEq, Eq, Structural)]
pub struct VotePolicy {
    pub quorum: u128,
    pub threshold: u128,
    pub percentage_bits: u64,
    pub is_percentage: bool,
}

impl View for VotePolicy {
    type V = VotePolicy;

    open spec fn view(&self) -> VotePolicy {
        *self
    }
}

impl Duplicate for VotePolicy {
    fn duplicate(&self) -> (r: VotePolicy) {
        *self
    }
}

/// A policy.  Its maps are keyed by role name and by proposal kind label.
pub struct Policy {
    pub roles: VecMap<String, RolePermission>,
    pub vote_policy: VecMap<String, VotePolicy>,
    pub proposal_bond: VecMap<String, u128>,
    pub proposal_period: VecMap<String, u64>,
}

/// The view of a `Policy`.
pub struct PolicyView {
    pub roles: Map<Seq<char>, RolePermissionView>,
    pub vote_policy: Map<Seq<char>, VotePolicy>,
    pub proposal_bond: Map<Seq<char>, u128>,
    pub proposal_period: Map<Seq<char>, u64>,
}

impl View for Policy {
    type V = PolicyView;

    open spec fn view(&self) -> PolicyView {
        PolicyView {
            roles: self.roles@,
            vote_policy: self.vote_policy@,
            proposal_bond: self.proposal_bond@,
            proposal_period: self.proposal_period@,
        }
    }
}

impl Duplicate for Policy {
    fn duplicate(&self) -> (r: Policy) {
        Policy {
            roles: self.roles.duplicate(),
            vote_policy: self.vote_policy.duplicate(),
            proposal_bond: self.proposal_bond.duplicate(),
            proposal_period: self.proposal_period.duplicate(),
        }
    }
}

/// A policy as stored: either a list of council members, to be turned into
/// the default policy, or a policy.
pub enum VersionedPolicy {
    Default(Vec<String>),
    Current(Policy),
}

/// The view of a `VersionedPolicy`.
pub enum VersionedPolicyView {
    Default(Seq<Seq<char>>),
    Current(PolicyView),
}

/// The views of a list of texts.
pub open spec fn texts_view(v: Seq<String>) -> Seq<Seq<char>> {
    v.map_values(|s: String| s@)
}

/// Copies a list of texts.
pub fn duplicate_texts(v: &Vec<String>) -> (r: Vec<String>)
    ensures
        texts_view(r@) == texts_view(v@),
{
    let mut r: Vec<String> = Vec::new();
    let mut i: usize = 0;
    while i < v.len()
        invariant
            i <= v.len(),
            r@.len() == i,
            forall|j: int| 0 <= j < i ==> #[trigger] r@[j]@ == v@[j]@,
        decreases v.len() - i,
    {
        r.push(v[i].clone());
        i = i + 1;
    }
    assert(texts_view(r@) =~= texts_view(v@));
    r
}

impl View for VersionedPolicy {
    type V = VersionedPolicyView;

    open spec fn view(&self) -> VersionedPolicyView {
        match self {
            VersionedPolicy::Default(accounts) => VersionedPolicyView::Default(
                texts_view(accounts@),
            ),
            VersionedPolicy::Current(policy) => VersionedPolicyView::Current(policy@),
        }
    }
}

impl Duplicate for VersionedPolicy {
    fn duplicate(&self) -> (r: VersionedPolicy) {
        match self {
            VersionedPolicy::Default(accounts) => VersionedPolicy::Default(
                duplicate_texts(accounts),
            ),
            VersionedPolicy::Current(policy) => VersionedPolicy::Current(policy.duplicate()),
        }
    }
}

/// The kinds of proposal that the default policy covers.
pub open spec fn default_kind_labels() -> Seq<Seq<char>> {
    seq![
        "ChangePolicy"@,
        "AddMemberFromGroup"@,
        "RemoveMemberFromGroup"@,
        "FunctionCall"@,
        "Transfer"@,
        "ChangePolicyAddOrUpdateRole"@,
        "ChangePolicyRemoveRole"@,
        "ChangePolicyUpdateVotePolicy"@,
        "ChangePolicyUpdateParameters"@,
        "Voting"@,
    ]
}

/// The vote policy of every kind in the default policy: 50 percent.
pub open spec fn default_vote_policy() -> VotePolicy {
    VotePolicy {
        quorum: 5,
        threshold: 3,
        percentage_bits: FIFTY_PERCENT_BITS,
        is_percentage: true,
    }
}

/// The default policy: one role, `council`, whose members hold every
/// permission, and for each listed kind the default vote policy, a bond of
/// 10^22 and a week of voting.
pub open spec fn default_policy_view(council: Seq<Seq<char>>) -> PolicyView {
    PolicyView {
        roles: Map::empty().insert(
            "council"@,
            RolePermissionView {
                name: "council"@,
                users: council.to_set(),
                permissions: Set::empty().insert("*:*"@),
            },
        ),
        vote_policy: Map::new(
            |k: Seq<char>| default_kind_labels().contains(k),
            |k: Seq<char>| default_vote_policy(),
        ),
        proposal_bond: Map::new(
            |k: Seq<char>| default_kind_labels().contains(k),
            |k: Seq<char>| DEFAULT_PROPOSAL_BOND,
        ),
        proposal_period: Map::new(
            |k: Seq<char>| default_kind_labels().contains(k),
            |k: Seq<char>| DEFAULT_PROPOSAL_PERIOD,
        ),
    }
}

fn default_kinds() -> (r: Vec<String>)
    ensures
        texts_view(r@) == default_kind_labels(),
{
    let mut r: Vec<String> = Vec::new();
    r.push(String::from_str("ChangePolicy"));
    r.push(String::from_str("AddMemberFromGroup"));
    r.push(String::from_str("RemoveMemberFromGroup"));
    r.push(String::from_str("FunctionCall"));
    r.push(String::from_str("Transfer"));
    r.push(String::from_str("ChangePolicyAddOrUpdateRole"));
    r.push(String::from_str("ChangePolicyRemoveRole"));
    r.push(String::from_str("ChangePolicyUpdateVotePolicy"));
    r.push(String::from_str("ChangePolicyUpdateParameters"));
    r.push(String::from_str("Voting"));
    assert(texts_view(r@) =~= default_kind_labels());
    r
}

/// The default policy for a council.
pub fn default_policy(council: Vec<String>) -> (p: Policy)
    ensures
        p@ == default_policy_view(texts_view(council@)),
{
    let mut users: VecSet<String> = VecSet::new();
    let mut i: usize = 0;
    while i < council.len()
        invariant
            i <= council.len(),
            users@ == texts_view(council@.subrange(0, i as int)).to_set(),
        decreases council.len() - i,
    {
        let ghost before = users@;
        users.insert(council[i].clone());
        i = i + 1;
        proof {
            let prefix = texts_view(council@.subrange(0, i as int));
            let shorter = texts_view(council@.subrange(0, i - 1));
            assert(prefix =~= shorter.push(council@[i - 1]@));
            assert(users@ =~= prefix.to_set()) by {
                assert forall|x: Seq<char>| prefix.to_set().contains(x) implies users@.contains(x) by {
                    let j = choose|j: int| 0 <= j < prefix.len() && prefix[j] == x;
                    if j < i - 1 {
                        assert(shorter[j] == x);
                        assert(shorter.contains(x));
                    }
                }
                assert forall|x: Seq<char>| users@.contains(x) implies prefix.to_set().contains(x) by {
                    if x == council@[i - 1]@ {
                        assert(prefix[i - 1] == x);
                    } else {
                        let j = choose|j: int| 0 <= j < shorter.len() && shorter[j] == x;
                        assert(prefix[j] == x);
                    }
                }
            }
        }
    }
    assert(council@.subrange(0, council.len() as int) =~= council@);
    let mut permissions: VecSet<String> = VecSet::new();
    permissions.insert(String::from_str("*:*"));
    let mut roles: VecMap<String, RolePermission> = VecMap::new();
    roles.insert(
        String::from_str("council"),
        RolePermission { name: String::from_str("council"), users, permissions },
    );
    let kinds = default_kinds();
    let default_vote = VotePolicy {
        quorum: 5,
        threshold: 3,
        percentage_bits: FIFTY_PERCENT_BITS,
        is_percentage: true,
    };
    let mut vote_policy: VecMap<String, VotePolicy> = VecMap::new();
    let mut proposal_bond: VecMap<String, u128> = VecMap::new();
    let mut proposal_period: VecMap<String, u64> = VecMap::new();
    let mut j: usize = 0;
    while j < kinds.len()
        invariant
            j <= kinds.len(),
            texts_view(kinds@) == default_kind_labels(),
            default_vote == default_vote_policy(),
            vote_policy@ == Map::new(
                |k: Seq<char>| texts_view(kinds@).subrange(0, j as int).contains(k),
                |k: Seq<char>| default_vote_policy(),
            ),
            proposal_bond@ == Map::new(
                |k: Seq<char>| texts_view(kinds@).subrange(0, j as int).contains(k),
                |k: Seq<char>| DEFAULT_PROPOSAL_BOND,
            ),
            proposal_period@ == Map::new(
                |k: Seq<char>| texts_view(kinds@).subrange(0, j as int).contains(k),
                |k: Seq<char>| DEFAULT_PROPOSAL_PERIOD,
            ),
        decreases kinds.len() - j,
    {
        let ghost labels = texts_view(kinds@);
        assert(kinds@[j as int]@ == labels[j as int]);
        vote_policy.insert(kinds[j].clone(), default_vote);
        proposal_bond.insert(kinds[j].clone(), DEFAULT_PROPOSAL_BOND);
        proposal_period.insert(kinds[j].clone(), DEFAULT_PROPOSAL_PERIOD);
        j = j + 1;
        proof {
            broadcast use vstd::seq_lib::group_seq_properties;
            assert(labels.subrange(0, j as int) =~= labels.subrange(0, j - 1).push(labels[j - 1]));
            assert(vote_policy@ =~= Map::new(
                |k: Seq<char>| labels.subrange(0, j as int).contains(k),
                |k: Seq<char>| default_vote_policy(),
            ));
            assert(proposal_bond@ =~= Map::new(
                |k: Seq<char>| labels.subrange(0, j as int).contains(k),
                |k: Seq<char>| DEFAULT_PROPOSAL_BOND,
            ));
            assert(proposal_period@ =~= Map::new(
                |k: Seq<char>| labels.subrange(0, j as int).contains(k),
                |k: Seq<char>| DEFAULT_PROPOSAL_PERIOD,
            ));
        }
    }
    assert(texts_view(kinds@).subrange(0, kinds.len() as int) =~= texts_view(kinds@));
    let p = Policy { roles, vote_policy, proposal_bond, proposal_period };
    assert(p@.roles =~= default_policy_view(texts_view(council@)).roles);
    assert(p@.vote_policy =~= default_policy_view(texts_view(council@)).vote_policy);
    assert(p@.proposal_bond =~= default_policy_view(texts_view(council@)).proposal_bond);
    assert(p@.proposal_period =~= default_policy_view(texts_view(council@)).proposal_period);
    p
}

impl VersionedPolicyView {
    /// The policy after an upgrade: a council list becomes the default policy.
    pub open spec fn upgraded(self) -> VersionedPolicyView {
        match self {
            VersionedPolicyView::Default(accounts) => VersionedPolicyView::Current(
                default_policy_view(accounts),
            ),
            VersionedPolicyView::Current(p) => VersionedPolicyView::Current(p),
        }
    }
}

impl VersionedPolicy {
    /// Upgrades either version of policy into the latest.
    pub fn upgrade(self) -> (r: VersionedPolicy)
        ensures
            r@ == self@.upgraded(),
    {
        match self {
            VersionedPolicy::Default(accounts) => VersionedPolicy::Current(
                default_policy(accounts),
            ),
            VersionedPolicy::Current(policy) => VersionedPolicy::Current(policy),
        }
    }

    /// The policy of an upgraded version.
    pub fn to_policy(self) -> (p: Policy)
        requires
            self@ is Current,
        ensures
            VersionedPolicyView::Current(p@) == self@,
    {
        match self {
            VersionedPolicy::Current(policy) => policy,
            VersionedPolicy::Default(_) => {
                proof {
                    assert(false);
                }
                default_policy(Vec::new())
            },
        }
    }

    /// The policy of an upgraded version, to change in place.
    pub fn to_policy_mut(&mut self) -> (p: &mut Policy)
        requires
            old(self)@ is Current,
        ensures
            VersionedPolicyView::Current(p@) == old(self)@,
            final(self)@ == VersionedPolicyView::Current(final(p)@),
    {
        match self {
            VersionedPolicy::Current(policy) => policy,
            VersionedPolicy::Default(_) => {
                vstd::pervasive::unreached()
            },
        }
    }
}

/// Whether a set of permissions lets its holder take `action` on a proposal of
/// kind `kind`.
pub open spec fn role_grants(perms: Set<Seq<char>>, kind: Seq<char>, action: Seq<char>) -> bool {
    ||| perms.contains(kind + ":"@ + action)
    ||| perms.contains(kind + ":*"@)
    ||| perms.contains("*:"@ + action)
    ||| perms.contains("*:*"@)
}

impl PolicyView {
    /// The permissions of each role that `user` belongs to, by role name.
    pub open spec fn user_roles(self, user: Seq<char>) -> Map<Seq<char>, Set<Seq<char>>> {
        Map::new(
            |k: Seq<char>| self.roles.contains_key(k) && self.roles[k].users.contains(user),
            |k: Seq<char>| self.roles[k].permissions,
        )
    }

    /// Whether `user` may take `action` on a proposal of kind `kind`: always
    /// for transfers and function calls, always for adding and voting, and
    /// otherwise when one of the user's roles grants it.
    pub open spec fn allows(self, user: Seq<char>, kind: ProposalKindView, action: Action) -> bool {
        ||| kind.label() == "Transfer"@
        ||| kind.label() == "FunctionCall"@
        ||| action.label() == "AddProposal"@
        ||| action.label() == "VoteApprove"@
        ||| action.label() == "VoteReject"@
        ||| action.label() == "VoteRemove"@
        ||| exists|r: Seq<char>|
            #![trigger self.user_roles(user).contains_key(r)]
            self.user_roles(user).contains_key(r) && role_grants(
                self.user_roles(user)[r],
                kind.label(),
                action.label(),
            )
    }

    /// The status of a proposal after its votes are counted at time `now`;
    /// `thresholds` says which votes reached the policy's percentage.
    pub open spec fn status_of(
        self,
        proposal: ProposalView,
        now: u64,
        thresholds: VoteThresholds,
        admin_appoved: bool,
    ) -> Result<ProposalStatus, DaoFault<Seq<char>>> {
        let label = proposal.kind.label();
        if !(proposal.status == ProposalStatus::InProgress || proposal.status
            == ProposalStatus::Failed) {
            Err(DaoFault::ProposalNotInProgress)
        } else if !self.proposal_period.contains_key(label) {
            Err(DaoFault::NoProposalPeriod)
        } else if proposal.submission_time + self.proposal_period[label] > u64::MAX {
            Err(DaoFault::Overflow)
        } else if proposal.submission_time + self.proposal_period[label] < now {
            Ok(ProposalStatus::Expired)
        } else if !self.vote_policy.contains_key(label) {
            Err(DaoFault::NoVotePolicy)
        } else if thresholds.approve {
            Ok(
                if admin_appoved {
                    ProposalStatus::Approved
                } else {
                    proposal.status
                },
            )
        } else if thresholds.reject {
            Ok(ProposalStatus::Rejected)
        } else if thresholds.remove {
            Ok(ProposalStatus::Removed)
        } else {
            Ok(proposal.status)
        }
    }

    /// The policy with a role set.
    pub open spec fn with_role(self, name: Seq<char>, role: RolePermissionView) -> PolicyView {
        PolicyView { roles: self.roles.insert(name, role), ..self }
    }

    /// The policy without a role.
    pub open spec fn without_role(self, name: Seq<char>) -> PolicyView {
        PolicyView { roles: self.roles.remove(name), ..self }
    }

    /// The policy with the vote policy of a kind set, where the kind is listed.
    pub open spec fn with_vote_policy(self, kind: Seq<char>, vote: VotePolicy) -> PolicyView {
        if kind_is_listed(kind) {
            PolicyView { vote_policy: self.vote_policy.insert(kind, vote), ..self }
        } else {
            self
        }
    }

    /// The policy with the bond and period of a kind set where given, when
    /// the kind is listed.
    pub open spec fn with_parameters(self, kind: Seq<char>, params: PolicyParameters) -> PolicyView {
        if kind_is_listed(kind) {
            PolicyView {
                proposal_bond: match params.proposal_bond {
                    Some(b) => self.proposal_bond.insert(kind, b),
                    None => self.proposal_bond,
                },
                proposal_period: match params.proposal_period {
                    Some(p) => self.proposal_period.insert(kind, p),
                    None => self.proposal_period,
                },
                ..self
            }
        } else {
            self
        }
    }

    /// The policy with `member` added to (`add`) or removed from a role.
    pub open spec fn with_member(self, role: Seq<char>, member: Seq<char>, add: bool) -> Result<
        PolicyView,
        DaoFault<Seq<char>>,
    > {
        if !self.roles.contains_key(role) {
            Err(DaoFault::RoleNotFound(role))
        } else {
            let r = self.roles[role];
            let users = if add {
                r.users.insert(member)
            } else {
                r.users.remove(member)
            };
            Ok(self.with_role(role, RolePermissionView { users, ..r }))
        }
    }
}

impl Policy {
    pub fn add_or_update_role(&mut self, rol_name: String, role: RolePermission)
        ensures
            final(self)@ == old(self)@.with_role(rol_name@, role@),
    {
        self.roles.insert(rol_name, role);
    }

    pub fn remove_role(&mut self, role_name: String)
        ensures
            final(self)@ == old(self)@.without_role(role_name@),
    {
        self.roles.remove(&role_name);
    }

    pub fn add_or_update_vote_policy(&mut self, proposal_kind: String, vote_policy: VotePolicy)
        ensures
            final(self)@ == old(self)@.with_vote_policy(proposal_kind@, vote_policy),
    {
        if proposal_kind_is_exists(proposal_kind.clone()) {
            self.vote_policy.insert(proposal_kind, vote_policy);
        }
    }

    pub fn update_parameters(&mut self, proposal_kind: String, parameters: PolicyParameters)
        ensures
            final(self)@ == old(self)@.with_parameters(proposal_kind@, parameters),
    {
        if proposal_kind_is_exists(proposal_kind.clone()) {
            match parameters.proposal_bond {
                Some(bond) => {
                    self.proposal_bond.insert(proposal_kind.clone(), bond);
                },
                None => {},
            }
            match parameters.proposal_period {
                Some(period) => {
                    self.proposal_period.insert(proposal_kind, period);
                },
                None => {},
            }
        }
    }

    fn change_member(&mut self, rol_name: String, member_id: String, add: bool) -> (r: Result<
        (),
        DaoError,
    >)
        ensures
            match old(self)@.with_member(rol_name@, member_id@, add) {
                Ok(p) => r is Ok && final(self)@ == p,
                Err(e) => r matches Err(x) && x@ == e && final(self)@ == old(self)@,
            },
    {
        match self.roles.remove(&rol_name) {
            Some(role) => {
                let mut role = role;
                if add {
                    role.users.insert(member_id);
                } else {
                    role.users.remove(&member_id);
                }
                self.roles.insert(rol_name, role);
                proof {
                    assert(self@.roles =~= old(self)@.with_member(
                        rol_name@,
                        member_id@,
                        add,
                    )->Ok_0.roles);
                }
                Ok(())
            },
            None => {
                assert(self@.roles =~= old(self)@.roles);
                Err(DaoFault::RoleNotFound(rol_name))
            },
        }
    }

    pub fn add_member_to_role(&mut self, rol_name: String, member_id: String) -> (r: Result<
        (),
        DaoError,
    >)
        ensures
            match old(self)@.with_member(rol_name@, member_id@, true) {
                Ok(p) => r is Ok && final(self)@ == p,
                Err(e) => r matches Err(x) && x@ == e && final(self)@ == old(self)@,
            },
    {
        self.change_member(rol_name, member_id, true)
    }

    pub fn remove_member_from_role(&mut self, rol_name: String, member_id: String) -> (r: Result<
        (),
        DaoError,
    >)
        ensures
            match old(self)@.with_member(rol_name@, member_id@, false) {
                Ok(p) => r is Ok && final(self)@ == p,
                Err(e) => r matches Err(x) && x@ == e && final(self)@ == old(self)@,
            },
    {
        self.change_member(rol_name, member_id, false)
    }

    /// The permissions of each role that `user` belongs to, by role name.
    fn get_user_roles(&self, user: &String) -> (r: VecMap<String, VecSet<String>>)
        ensures
            r@ == self@.user_roles(user@),
    {
        let mut roles: VecMap<String, VecSet<String>> = VecMap::new();
        proof {
            use_type_invariant(&self.roles);
            self.roles.lemma_view();
        }
        let n = self.roles.len();
        let mut i: usize = 0;
        while i < n
            invariant
                i <= n,
                n == self.roles.size(),
                self.roles.well_formed(),
                self.roles.key_order().len() == n,
                self.roles.value_order().len() == n,
                self.roles.key_order().no_duplicates(),
                forall|j: int|
                    0 <= j < n ==> #[trigger] self.roles@.contains_key(self.roles.key_order()[j])
                        && self.roles@[self.roles.key_order()[j]] == self.roles.value_order()[j],
                roles@ == Map::new(
                    |k: Seq<char>|
                        self.roles.key_order().subrange(0, i as int).contains(k)
                            && self.roles@[k].users.contains(user@),
                    |k: Seq<char>| self.roles@[k].permissions,
                ),
            decreases n - i,
        {
            let role = self.roles.value_at(i);
            let ghost ko = self.roles.key_order();
            if role.users.contains(user) {
                roles.insert(self.roles.key_at(i).clone(), role.permissions.duplicate());
            }
            i = i + 1;
            proof {
                broadcast use vstd::seq_lib::group_seq_properties;
                assert(ko.subrange(0, i as int) =~= ko.subrange(0, i - 1).push(ko[i - 1]));
                assert(self.roles@.contains_key(ko[i - 1]));
                assert(self.roles@[ko[i - 1]] == role@);
                assert(roles@ =~= Map::new(
                    |k: Seq<char>|
                        ko.subrange(0, i as int).contains(k) && self.roles@[k].users.contains(
                            user@,
                        ),
                    |k: Seq<char>| self.roles@[k].permissions,
                ));
            }
        }
        proof {
            let ko = self.roles.key_order();
            assert(ko.subrange(0, n as int) =~= ko);
            assert forall|k: Seq<char>| ko.contains(k) == self.roles@.contains_key(k) by {
                if self.roles@.contains_key(k) {
                    let j = choose|j: int| 0 <= j < self.roles.size() && ko[j] == k;
                    assert(ko.contains(k));
                }
            }
            assert(roles@ =~= self@.user_roles(user@));
        }
        roles
    }

    pub fn get_proposal_bond(&self, proposal_kind: &String) -> (r: Result<u128, DaoError>)
        ensures
            self@.proposal_bond.contains_key(proposal_kind@) ==> r == Ok::<u128, DaoError>(
                self@.proposal_bond[proposal_kind@],
            ),
            !self@.proposal_bond.contains_key(proposal_kind@) ==> (r matches Err(e) && e@
                == DaoFault::ProposalBondNotFound(proposal_kind@)),
    {
        match self.proposal_bond.get(proposal_kind) {
            Some(bond) => Ok(*bond),
            None => Err(DaoFault::ProposalBondNotFound(proposal_kind.clone())),
        }
    }

    pub fn check_permission(&self, user: String, proposal_kind: &ProposalKind, action: &Action) -> (b:
        bool)
        ensures
            b == self@.allows(user@, proposal_kind@, *action),
    {
        let roles = self.get_user_roles(&user);
        let kind = String::from_str(proposal_kind.to_label());
        let act = String::from_str(action.to_label());
        if kind == String::from_str("Transfer") || kind == String::from_str("FunctionCall") {
            return true;
        }
        if act == String::from_str("AddProposal") || act == String::from_str("VoteApprove") || act
            == String::from_str("VoteReject") || act == String::from_str("VoteRemove") {
            return true;
        }
        let exact = kind.clone().concat(":").concat(act.as_str());
        let any_action = kind.clone().concat(":*");
        let any_kind = String::from_str("*:").concat(act.as_str());
        let all = String::from_str("*:*");
        let mut allowed = false;
        proof {
            use_type_invariant(&roles);
            roles.lemma_view();
        }
        let n = roles.len();
        let mut i: usize = 0;
        while i < n
            invariant
                i <= n,
                n == roles.size(),
                forall|j: int|
                    0 <= j < n ==> #[trigger] roles@.contains_key(roles.key_order()[j])
                        && roles@[roles.key_order()[j]] == roles.value_order()[j],
                forall|k: Seq<char>|
                    #[trigger] roles@.contains_key(k) ==> exists|j: int|
                        0 <= j < n && roles.key_order()[j] == k,
                allowed == exists|j: int|
                    0 <= j < i && role_grants(
                        #[trigger] roles.value_order()[j],
                        kind@,
                        act@,
                    ),
                exact@ == kind@ + ":"@ + act@,
                any_action@ == kind@ + ":*"@,
                any_kind@ == "*:"@ + act@,
                all@ == "*:*"@,
            decreases n - i,
        {
            let permissions = roles.value_at(i);
            let allowed_role = permissions.contains(&exact) || permissions.contains(&any_action)
                || permissions.contains(&any_kind) || permissions.contains(&all);
            proof {
                assert(allowed_role == role_grants(roles.value_order()[i as int], kind@, act@));
            }
            allowed = allowed || allowed_role;
            i = i + 1;
        }
        proof {
            let spec_allows = exists|r: Seq<char>|
                #![trigger self@.user_roles(user@).contains_key(r)]
                self@.user_roles(user@).contains_key(r) && role_grants(
                    self@.user_roles(user@)[r],
                    kind@,
                    act@,
                );
            if allowed {
                let j = choose|j: int|
                    0 <= j < n && role_grants(#[trigger] roles.value_order()[j], kind@, act@);
                let r = roles.key_order()[j];
                assert(self@.user_roles(user@).contains_key(r));
            }
            if spec_allows {
                let r = choose|r: Seq<char>|
                    #![trigger self@.user_roles(user@).contains_key(r)]
                    self@.user_roles(user@).contains_key(r) && role_grants(
                        self@.user_roles(user@)[r],
                        kind@,
                        act@,
                    );
                assert(roles@.contains_key(r));
                let j = choose|j: int| 0 <= j < n && roles.key_order()[j] == r;
                assert(role_grants(roles.value_order()[j], kind@, act@));
            }
        }
        allowed
    }

    fn internal_get_role(&self, name: &String) -> (r: Option<&RolePermission>)
        ensures
            r is Some <==> self@.roles.contains_key(name@),
            r matches Some(role) ==> role@ == self@.roles[name@],
    {
        self.roles.get(name)
    }

    /// The status of a proposal after its votes are counted at time `now`;
    /// `thresholds` says which votes reached the vote policy's percentage.
    pub fn proposal_status(
        &self,
        proposal: &Proposal,
        now: u64,
        thresholds: VoteThresholds,
        admin_appoved: bool,
    ) -> (r: Result<ProposalStatus, DaoError>)
        ensures
            match self@.status_of(proposal@, now, thresholds, admin_appoved) {
                Ok(s) => r == Ok::<ProposalStatus, DaoError>(s),
                Err(e) => r matches Err(x) && x@ == e,
            },
    {
        if !(proposal.status == ProposalStatus::InProgress || proposal.status
            == ProposalStatus::Failed) {
            return Err(DaoFault::ProposalNotInProgress);
        }
        let label = proposal.kind.label_string();
        let period = match self.proposal_period.get(&label) {
            Some(p) => *p,
            None => {
                return Err(DaoFault::NoProposalPeriod);
            },
        };
        if proposal.submission_time > u64::MAX - period {
            return Err(DaoFault::Overflow);
        }
        if proposal.submission_time + period < now {
            return Ok(ProposalStatus::Expired);
        }
        if !self.vote_policy.contains_key(&label) {
            return Err(DaoFault::NoVotePolicy);
        }
        if thresholds.approve {
            let mut status_return = proposal.status;
            if admin_appoved {
                status_return = ProposalStatus::Approved;
            }
            return Ok(status_return);
        }
        if thresholds.reject {
            return Ok(ProposalStatus::Rejected);
        }
        if thresholds.remove {
            return Ok(ProposalStatus::Removed);
        }
        Ok(proposal.status)
    }
}

} // verus!
