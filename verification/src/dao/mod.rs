//! The DAO contract: policies with roles and vote rules, proposals and their
//! votes, administrators and delegations.

pub mod contract;
pub mod laws;
pub mod policy;
pub mod proposal;

use vstd::prelude::*;

verus! {

/// Why a call of the DAO is refused; the contract aborts with `message()`.
/// `S` is the type of the names it carries: `String` in code, its view in
/// contracts.
#[derive(Debug, PartialEq, Eq)]
pub enum DaoFault<S> {
    /// The signer is neither the owner nor an administrator.
    OnlyAdministrator,
    /// The account is already an administrator.
    AlreadyAdministrator,
    /// The account is not an administrator.
    NotAdministrator,
    /// The contract holds no policy.
    PolicyMissing,
    /// The policy is still the default one and has not been upgraded.
    PolicyNotUpgraded,
    /// No role of this name.
    RoleNotFound(S),
    /// No bond for this kind of proposal.
    ProposalBondNotFound(S),
    /// No bond for this kind of proposal (checked when a proposal is made).
    BondNotFound,
    /// The attached deposit is below the bond.
    MinBond,
    /// No voting period for this kind of proposal.
    NoProposalPeriod,
    /// No vote policy for this kind of proposal.
    NoVotePolicy,
    /// The proposal is neither in progress nor failed.
    ProposalNotInProgress,
    /// The proposal is not in progress.
    NotReadyForVote,
    /// The account has voted on this proposal already.
    AlreadyVoted,
    /// No proposal with this id.
    NoProposal,
    /// The sender may not take this action on this proposal.
    PermissionDenied,
    /// A proposal cannot be added through an update.
    WrongAction,
    /// Finalizing needs an approved or expired proposal.
    NotExpiredOrFailed,
    /// No group of this name.
    GroupNotFound,
    /// The reply of the membership call is not a number.
    WrongValueReceived,
    /// The membership call failed.
    CallFailed,
    /// An amount left the range of its integer type.
    Overflow,
}

/// A refusal of the DAO, as the code returns it.
pub type DaoError = DaoFault<String>;

impl View for DaoFault<String> {
    type V = DaoFault<Seq<char>>;

    open spec fn view(&self) -> DaoFault<Seq<char>> {
        match self {
            DaoFault::OnlyAdministrator => DaoFault::OnlyAdministrator,
            DaoFault::AlreadyAdministrator => DaoFault::AlreadyAdministrator,
            DaoFault::NotAdministrator => DaoFault::NotAdministrator,
            DaoFault::PolicyMissing => DaoFault::PolicyMissing,
            DaoFault::PolicyNotUpgraded => DaoFault::PolicyNotUpgraded,
            DaoFault::RoleNotFound(name) => DaoFault::RoleNotFound(name@),
            DaoFault::ProposalBondNotFound(kind) => DaoFault::ProposalBondNotFound(kind@),
            DaoFault::BondNotFound => DaoFault::BondNotFound,
            DaoFault::MinBond => DaoFault::MinBond,
            DaoFault::NoProposalPeriod => DaoFault::NoProposalPeriod,
            DaoFault::NoVotePolicy => DaoFault::NoVotePolicy,
            DaoFault::ProposalNotInProgress => DaoFault::ProposalNotInProgress,
            DaoFault::NotReadyForVote => DaoFault::NotReadyForVote,
            DaoFault::AlreadyVoted => DaoFault::AlreadyVoted,
            DaoFault::NoProposal => DaoFault::NoProposal,
            DaoFault::PermissionDenied => DaoFault::PermissionDenied,
            DaoFault::WrongAction => DaoFault::WrongAction,
            DaoFault::NotExpiredOrFailed => DaoFault::NotExpiredOrFailed,
            DaoFault::GroupNotFound => DaoFault::GroupNotFound,
            DaoFault::WrongValueReceived => DaoFault::WrongValueReceived,
            DaoFault::CallFailed => DaoFault::CallFailed,
            DaoFault::Overflow => DaoFault::Overflow,
        }
    }
}

/// The text the contract aborts with on a refusal, as `message` writes it.
pub open spec fn fault_message(e: DaoFault<Seq<char>>) -> Seq<char> {
    match e {
            DaoFault::OnlyAdministrator => "Only administrator"@,
            DaoFault::AlreadyAdministrator => "the user is already in the list of administrators"@,
            DaoFault::NotAdministrator => "the user is not on the administrators list"@,
            DaoFault::PolicyMissing => "called `Option::unwrap()` on a `None` value"@,
            DaoFault::PolicyNotUpgraded => "not implemented"@,
            DaoFault::RoleNotFound(name) => "ERR_ROLE_NOT_FOUND:"@ + name,
            DaoFault::ProposalBondNotFound(kind) => "ERR_PROPOSAL_BOND_NOT_FOUND:"@ + kind,
            DaoFault::BondNotFound => "ERR_PROPOSAL_BOND_NOT_FOUND"@,
            DaoFault::MinBond => "ERR_MIN_BOND"@,
            DaoFault::NoProposalPeriod => "ERR_NOT_PROPOSAL_PERIOD"@,
            DaoFault::NoVotePolicy => "ERR_NOT_VOTE_POLICY"@,
            DaoFault::ProposalNotInProgress => "ERR_PROPOSAL_NOT_IN_PROGRESS"@,
            DaoFault::NotReadyForVote => "ERR_PROPOSAL_NOT_READY_FOR_VOTE"@,
            DaoFault::AlreadyVoted => "ERR_ALREADY_VOTED"@,
            DaoFault::NoProposal => "ERR_NO_PROPOSAL"@,
            DaoFault::PermissionDenied => "ERR_PERMISSION_DENIED"@,
            DaoFault::WrongAction => "ERR_WRONG_ACTION"@,
            DaoFault::NotExpiredOrFailed => "ERR_PROPOSAL_NOT_EXPIRED_OR_FAILED"@,
            DaoFault::GroupNotFound => "ERR_GROUP_NOT_FOUND"@,
            DaoFault::WrongValueReceived => "ERR_WRONG_VAL_RECEIVED"@,
            DaoFault::CallFailed => "ERR_CALL_FAILED"@,
            DaoFault::Overflow => "attempt to compute with overflow"@,
        }
}

impl DaoFault<String> {
    /// The text the contract aborts with.
    pub fn message(&self) -> (r: String)
        ensures
            r@ == fault_message(self@),
    {
        match self {
            DaoFault::OnlyAdministrator => String::from_str("Only administrator"),
            DaoFault::AlreadyAdministrator => String::from_str(
                "the user is already in the list of administrators",
            ),
            DaoFault::NotAdministrator => String::from_str(
                "the user is not on the administrators list",
            ),
            DaoFault::PolicyMissing => String::from_str(
                "called `Option::unwrap()` on a `None` value",
            ),
            DaoFault::PolicyNotUpgraded => String::from_str("not implemented"),
            DaoFault::RoleNotFound(name) => String::from_str("ERR_ROLE_NOT_FOUND:").concat(
                name.as_str(),
            ),
            DaoFault::ProposalBondNotFound(kind) => String::from_str(
                "ERR_PROPOSAL_BOND_NOT_FOUND:",
            ).concat(kind.as_str()),
            DaoFault::BondNotFound => String::from_str("ERR_PROPOSAL_BOND_NOT_FOUND"),
            DaoFault::MinBond => String::from_str("ERR_MIN_BOND"),
            DaoFault::NoProposalPeriod => String::from_str("ERR_NOT_PROPOSAL_PERIOD"),
            DaoFault::NoVotePolicy => String::from_str("ERR_NOT_VOTE_POLICY"),
            DaoFault::ProposalNotInProgress => String::from_str("ERR_PROPOSAL_NOT_IN_PROGRESS"),
            DaoFault::NotReadyForVote => String::from_str("ERR_PROPOSAL_NOT_READY_FOR_VOTE"),
            DaoFault::AlreadyVoted => String::from_str("ERR_ALREADY_VOTED"),
            DaoFault::NoProposal => String::from_str("ERR_NO_PROPOSAL"),
            DaoFault::PermissionDenied => String::from_str("ERR_PERMISSION_DENIED"),
            DaoFault::WrongAction => String::from_str("ERR_WRONG_ACTION"),
            DaoFault::NotExpiredOrFailed => String::from_str("ERR_PROPOSAL_NOT_EXPIRED_OR_FAILED"),
            DaoFault::GroupNotFound => String::from_str("ERR_GROUP_NOT_FOUND"),
            DaoFault::WrongValueReceived => String::from_str("ERR_WRONG_VAL_RECEIVED"),
            DaoFault::CallFailed => String::from_str("ERR_CALL_FAILED"),
            DaoFault::Overflow => String::from_str("attempt to compute with overflow"),
        }
    }
}

} // verus!
