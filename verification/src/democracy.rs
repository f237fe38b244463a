//! The council contract: administrators appoint a council, the owner names
//! proposal types, anyone submits proposals of a known type, and council
//! members vote them up or down.

use vstd::prelude::*;

use crate::collections::{VecMap, VecSet};
use crate::dao::policy::texts_view;
use crate::text::{decimal, to_decimal};

verus! {

/// Why a call of the council contract is refused.
#[derive(Clone, Copy, Debug, PartialEq, Eq, Structural)]
pub enum CouncilError {
    /// The signer is neither the owner nor an administrator.
    OnlyAdministrator,
    /// The account is already an administrator.
    AlreadyAdministrator,
    /// The account is not an administrator.
    NotAdministrator,
    /// The account is already on the council.
    AlreadyCouncil,
    /// The account is not on the council.
    NotCouncil,
    /// No proposal type of this number.
    ProposalTypeMissing,
    /// Only council members vote.
    OnlyCouncil,
    /// No proposal of this id.
    ProposalMissing,
    /// A number left the range of its type.
    Overflow,
}

impl CouncilError {
    /// The text the contract aborts with.
    /// The text the contract aborts with, as `message` writes it.
    pub open spec fn message_text(self) -> Seq<char> {
        match self {
            CouncilError::OnlyAdministrator => "Only administrator"@,
            CouncilError::AlreadyAdministrator => "the user is already in the list of administrators"@,
            CouncilError::NotAdministrator => "the user is not on the administrators list"@,
            CouncilError::AlreadyCouncil => "the user is already in the list of council"@,
            CouncilError::NotCouncil => "the user is not on the council list"@,
            CouncilError::ProposalTypeMissing => "proposal type does not exist"@,
            CouncilError::OnlyCouncil => "Only council"@,
            CouncilError::ProposalMissing => "proposal does not exist"@,
            CouncilError::Overflow => "attempt to compute with overflow"@,
        }
    }

    pub fn message(&self) -> (r: String)
        ensures
            r@ == self.message_text(),
    {
        match self {
            CouncilError::OnlyAdministrator => String::from_str("Only administrator"),
            CouncilError::AlreadyAdministrator => String::from_str(
                "the user is already in the list of administrators",
            ),
            CouncilError::NotAdministrator => String::from_str(
                "the user is not on the administrators list",
            ),
            CouncilError::AlreadyCouncil => String::from_str("the user is already in the list of council"),
            CouncilError::NotCouncil => String::from_str("the user is not on the council list"),
            CouncilError::ProposalTypeMissing => String::from_str("proposal type does not exist"),
            CouncilError::OnlyCouncil => String::from_str("Only council"),
            CouncilError::ProposalMissing => String::from_str("proposal does not exist"),
            CouncilError::Overflow => String::from_str("attempt to compute with overflow"),
        }
    }
}

/// A proposal with its up and down votes.
pub struct Proposal {
    pub id: u128,
    pub title: String,
    pub description: String,
    pub proposal_type: i64,
    pub proponents: Vec<String>,
    pub time_complete: i64,
    pub claims_available: u128,
    pub amount: u128,
    pub upvote: VecSet<String>,
    pub downvote: VecSet<String>,
    pub status: i8,
    pub approval_date: Option<String>,
    pub creation_date: String,
    pub user_creation: String,
    pub sponsor: String,
}

/// The view of a `Proposal`.
pub struct ProposalView {
    pub id: u128,
    pub title: Seq<char>,
    pub description: Seq<char>,
    pub proposal_type: i64,
    pub proponents: Seq<Seq<char>>,
    pub time_complete: i64,
    pub claims_available: u128,
    pub amount: u128,
    pub upvote: Set<Seq<char>>,
    pub downvote: Set<Seq<char>>,
    pub status: i8,
    pub approval_date: Option<Seq<char>>,
    pub creation_date: Seq<char>,
    pub user_creation: Seq<char>,
    pub sponsor: Seq<char>,
}

impl View for Proposal {
    type V = ProposalView;

    open spec fn view(&self) -> ProposalView {
        ProposalView {
            id: self.id,
            title: self.title@,
            description: self.description@,
            proposal_type: self.proposal_type,
            proponents: texts_view(self.proponents@),
            time_complete: self.time_complete,
            claims_available: self.claims_available,
            amount: self.amount,
            upvote: self.upvote@,
            downvote: self.downvote@,
            status: self.status,
            approval_date: match self.approval_date {
                Some(d) => Some(d@),
                None => None,
            },
            creation_date: self.creation_date@,
            user_creation: self.user_creation@,
            sponsor: self.sponsor@,
        }
    }
}

/// What is submitted to make a proposal.
pub struct ProposalRequired {
    pub title: String,
    pub description: String,
    pub proposal_type: i64,
    pub proponents: Vec<String>,
    pub time_complete: i64,
    pub amount: u128,
    pub sponsor: String,
}

/// The state of the council contract.
pub struct MetaDemocracia {
    pub owner_id: String,
    pub proposal_type: VecMap<i64, String>,
    pub proposals: VecMap<u128, Proposal>,
    pub administrators: VecSet<String>,
    pub council: VecSet<String>,
}

/// The view of the council contract's state.
pub struct MetaDemocraciaView {
    pub owner_id: Seq<char>,
    pub proposal_type: Map<i64, Seq<char>>,
    pub proposals: Map<u128, ProposalView>,
    pub administrators: Set<Seq<char>>,
    pub council: Set<Seq<char>>,
}

impl View for MetaDemocracia {
    type V = MetaDemocraciaView;

    open spec fn view(&self) -> MetaDemocraciaView {
        MetaDemocraciaView {
            owner_id: self.owner_id@,
            proposal_type: self.proposal_type@,
            proposals: self.proposals@,
            administrators: self.administrators@,
            council: self.council@,
        }
    }
}

/// The result of a call on the state, or its refusal.
pub type CouncilStep<T> = Result<(MetaDemocraciaView, T), CouncilError>;

/// The proposal that a submission makes, numbered `id`, by `user` at `now`.
pub open spec fn submitted(
    id: u128,
    title: Seq<char>,
    description: Seq<char>,
    proposal_type: i64,
    proponents: Seq<Seq<char>>,
    time_complete: i64,
    amount: u128,
    sponsor: Seq<char>,
    user: Seq<char>,
    now: u64,
) -> ProposalView {
    ProposalView {
        id,
        title,
        description,
        proposal_type,
        proponents,
        time_complete,
        claims_available: 0,
        amount,
        upvote: Set::empty(),
        downvote: Set::empty(),
        status: 1,
        approval_date: None,
        creation_date: decimal(now as nat),
        user_creation: user,
        sponsor,
    }
}

impl MetaDemocraciaView {
    /// Whether `signer` may manage administrators and the council.
    pub open spec fn is_manager(self, signer: Seq<char>) -> bool {
        self.owner_id == signer || self.administrators.contains(signer)
    }

    pub open spec fn set_admin(self, signer: Seq<char>, user: Seq<char>) -> CouncilStep<()> {
        if !self.is_manager(signer) {
            Err(CouncilError::OnlyAdministrator)
        } else if self.administrators.contains(user) {
            Err(CouncilError::AlreadyAdministrator)
        } else {
            Ok((MetaDemocraciaView { administrators: self.administrators.insert(user), ..self }, ()))
        }
    }

    pub open spec fn delete_admin(self, signer: Seq<char>, user: Seq<char>) -> CouncilStep<()> {
        if !self.is_manager(signer) {
            Err(CouncilError::OnlyAdministrator)
        } else if !self.administrators.contains(user) {
            Err(CouncilError::NotAdministrator)
        } else {
            Ok((MetaDemocraciaView { administrators: self.administrators.remove(user), ..self }, ()))
        }
    }

    pub open spec fn set_council(self, signer: Seq<char>, user: Seq<char>) -> CouncilStep<()> {
        if !self.is_manager(signer) {
            Err(CouncilError::OnlyAdministrator)
        } else if self.council.contains(user) {
            Err(CouncilError::AlreadyCouncil)
        } else {
            Ok((MetaDemocraciaView { council: self.council.insert(user), ..self }, ()))
        }
    }

    pub open spec fn delete_council(self, signer: Seq<char>, user: Seq<char>) -> CouncilStep<()> {
        if !self.is_manager(signer) {
            Err(CouncilError::OnlyAdministrator)
        } else if !self.council.contains(user) {
            Err(CouncilError::NotCouncil)
        } else {
            Ok((MetaDemocraciaView { council: self.council.remove(user), ..self }, ()))
        }
    }

    /// The owner names a new proposal type; it gets the next number.
    pub open spec fn set_type_proposal(self, signer: Seq<char>, name: Seq<char>) -> CouncilStep<
        i64,
    > {
        let index = self.proposal_type.len() + 1;
        if self.owner_id != signer {
            Err(CouncilError::OnlyAdministrator)
        } else if index > i64::MAX {
            Err(CouncilError::Overflow)
        } else {
            Ok(
                (
                    MetaDemocraciaView {
                        proposal_type: self.proposal_type.insert(index as i64, name),
                        ..self
                    },
                    index as i64,
                ),
            )
        }
    }

    /// A proposal of a known type is recorded under the next number.
    pub open spec fn set_proposal(self, proposal: ProposalView) -> CouncilStep<u128> {
        if !self.proposal_type.contains_key(proposal.proposal_type) {
            Err(CouncilError::ProposalTypeMissing)
        } else {
            Ok(
                (
                    MetaDemocraciaView {
                        proposals: self.proposals.insert(proposal.id, proposal),
                        ..self
                    },
                    proposal.id,
                ),
            )
        }
    }

    /// A council member votes a proposal up (`up`) or down; a vote one way
    /// withdraws the vote the other way.
    pub open spec fn vote(self, member: Seq<char>, proposal_id: u128, up: bool) -> CouncilStep<
        (),
    > {
        if !self.council.contains(member) {
            Err(CouncilError::OnlyCouncil)
        } else if !self.proposals.contains_key(proposal_id) {
            Err(CouncilError::ProposalMissing)
        } else {
            let p = self.proposals[proposal_id];
            let voted = if up {
                ProposalView {
                    upvote: p.upvote.insert(member),
                    downvote: p.downvote.remove(member),
                    ..p
                }
            } else {
                ProposalView {
                    downvote: p.downvote.insert(member),
                    upvote: p.upvote.remove(member),
                    ..p
                }
            };
            Ok((MetaDemocraciaView { proposals: self.proposals.insert(proposal_id, voted), ..self }, ()))
        }
    }
}

/// A step that a call took: on success the new state and the result, on
/// refusal the error and the state unchanged.
pub open spec fn council_step<T>(
    step: CouncilStep<T>,
    old_state: MetaDemocraciaView,
    new_state: MetaDemocraciaView,
    r: Result<T, CouncilError>,
) -> bool {
    match step {
        Ok((s, v)) => r == Ok::<T, CouncilError>(v) && new_state == s,
        Err(e) => r == Err::<T, CouncilError>(e) && new_state == old_state,
    }
}

impl MetaDemocracia {
    /// A contract owned by `owner_id`, with nothing in it.
    pub fn new(owner_id: String) -> (c: MetaDemocracia)
        ensures
            c@ == (MetaDemocraciaView {
                owner_id: owner_id@,
                proposal_type: Map::empty(),
                proposals: Map::empty(),
                administrators: Set::empty(),
                council: Set::empty(),
            }),
    {
        MetaDemocracia {
            owner_id,
            proposal_type: VecMap::new(),
            proposals: VecMap::new(),
            administrators: VecSet::new(),
            council: VecSet::new(),
        }
    }

    fn is_manager(&self, signer: &String) -> (b: bool)
        ensures
            b == self@.is_manager(signer@),
    {
        self.owner_id == *signer || self.administrators.contains(signer)
    }

    pub fn set_admin(&mut self, signer: &String, user_id: String) -> (r: Result<(), CouncilError>)
        ensures
            council_step(old(self)@.set_admin(signer@, user_id@), old(self)@, final(self)@, r),
    {
        if !self.is_manager(signer) {
            return Err(CouncilError::OnlyAdministrator);
        }
        if self.administrators.contains(&user_id) {
            return Err(CouncilError::AlreadyAdministrator);
        }
        self.administrators.insert(user_id);
        Ok(())
    }

    pub fn delete_admin(&mut self, signer: &String, user_id: String) -> (r: Result<
        (),
        CouncilError,
    >)
        ensures
            council_step(old(self)@.delete_admin(signer@, user_id@), old(self)@, final(self)@, r),
    {
        if !self.is_manager(signer) {
            return Err(CouncilError::OnlyAdministrator);
        }
        if !self.administrators.contains(&user_id) {
            return Err(CouncilError::NotAdministrator);
        }
        self.administrators.remove(&user_id);
        Ok(())
    }

    pub fn set_council(&mut self, signer: &String, user_id: String) -> (r: Result<(), CouncilError>)
        ensures
            council_step(old(self)@.set_council(signer@, user_id@), old(self)@, final(self)@, r),
    {
        if !self.is_manager(signer) {
            return Err(CouncilError::OnlyAdministrator);
        }
        if self.council.contains(&user_id) {
            return Err(CouncilError::AlreadyCouncil);
        }
        self.council.insert(user_id);
        Ok(())
    }

    pub fn delete_council(&mut self, signer: &String, user_id: String) -> (r: Result<
        (),
        CouncilError,
    >)
        ensures
            council_step(old(self)@.delete_council(signer@, user_id@), old(self)@, final(self)@, r),
    {
        if !self.is_manager(signer) {
            return Err(CouncilError::OnlyAdministrator);
        }
        if !self.council.contains(&user_id) {
            return Err(CouncilError::NotCouncil);
        }
        self.council.remove(&user_id);
        Ok(())
    }

    /// The owner names a new proposal type; returns its number.
    pub fn set_type_proposal(&mut self, signer: &String, name: String) -> (r: Result<
        i64,
        CouncilError,
    >)
        ensures
            council_step(old(self)@.set_type_proposal(signer@, name@), old(self)@, final(self)@, r),
    {
        if self.owner_id != *signer {
            return Err(CouncilError::OnlyAdministrator);
        }
        let len = self.proposal_type.len() as u64;
        if len >= 0x7fff_ffff_ffff_ffffu64 {
            return Err(CouncilError::Overflow);
        }
        let index: i64 = (len + 1) as i64;
        self.proposal_type.insert(index, name);
        Ok(index)
    }

    /// Records a proposal of a known type, made by `predecessor` at time
    /// `now`, under the next number; returns the number.
    pub fn set_proposal(&mut self, data: ProposalRequired, predecessor: &String, now: u64) -> (r:
        Result<u128, CouncilError>)
        ensures
            council_step(
                old(self)@.set_proposal(
                    submitted(
                        (old(self)@.proposals.len() + 1) as u128,
                        data.title@,
                        data.description@,
                        data.proposal_type,
                        texts_view(data.proponents@),
                        data.time_complete,
                        data.amount,
                        data.sponsor@,
                        predecessor@,
                        now,
                    ),
                ),
                old(self)@,
                final(self)@,
                r,
            ),
    {
        if !self.proposal_type.contains_key(&data.proposal_type) {
            return Err(CouncilError::ProposalTypeMissing);
        }
        let len = self.proposals.len();
        let index: u128 = len as u128 + 1;
        let proposal = Proposal {
            id: index,
            title: data.title,
            description: data.description,
            proposal_type: data.proposal_type,
            proponents: data.proponents,
            time_complete: data.time_complete,
            claims_available: 0,
            amount: data.amount,
            upvote: VecSet::new(),
            downvote: VecSet::new(),
            status: 1,
            approval_date: None,
            creation_date: to_decimal(now as u128),
            user_creation: predecessor.clone(),
            sponsor: data.sponsor,
        };
        self.proposals.insert(index, proposal);
        Ok(index)
    }

    fn vote(&mut self, member: &String, proposal_id: u128, up: bool) -> (r: Result<(), CouncilError>)
        ensures
            council_step(old(self)@.vote(member@, proposal_id, up), old(self)@, final(self)@, r),
    {
        if !self.council.contains(member) {
            return Err(CouncilError::OnlyCouncil);
        }
        let mut proposal = match self.proposals.remove(&proposal_id) {
            Some(p) => p,
            None => {
                assert(self@.proposals =~= old(self)@.proposals);
                return Err(CouncilError::ProposalMissing);
            },
        };
        if up {
            proposal.upvote.insert(member.clone());
            proposal.downvote.remove(member);
        } else {
            proposal.downvote.insert(member.clone());
            proposal.upvote.remove(member);
        }
        self.proposals.insert(proposal_id, proposal);
        assert(self@.proposals =~= old(self)@.vote(member@, proposal_id, up)->Ok_0.0.proposals);
        Ok(())
    }

    /// The council member `predecessor` votes proposal `proposal_id` up.
    pub fn upvote(&mut self, predecessor: &String, proposal_id: u128) -> (r: Result<
        (),
        CouncilError,
    >)
        ensures
            council_step(old(self)@.vote(predecessor@, proposal_id, true), old(self)@, final(self)@, r),
    {
        self.vote(predecessor, proposal_id, true)
    }

    /// The council member `predecessor` votes proposal `proposal_id` down.
    pub fn downvote(&mut self, predecessor: &String, proposal_id: u128) -> (r: Result<
        (),
        CouncilError,
    >)
        ensures
            council_step(old(self)@.vote(predecessor@, proposal_id, false), old(self)@, final(self)@, r),
    {
        self.vote(predecessor, proposal_id, false)
    }
}

/// No council member is counted both for and against a proposal.
pub open spec fn votes_exclusive(s: MetaDemocraciaView) -> bool {
    forall|id: u128|
        #[trigger] s.proposals.contains_key(id) ==> s.proposals[id].upvote.disjoint(
            s.proposals[id].downvote,
        )
}

/// Voting one way withdraws the vote the other way, so no member is ever for
/// and against the same proposal.
pub proof fn law_votes_exclusive(s: MetaDemocraciaView, member: Seq<char>, id: u128, up: bool)
    requires
        votes_exclusive(s),
    ensures
        s.vote(member, id, up) is Ok ==> votes_exclusive(s.vote(member, id, up)->Ok_0.0),
        s.vote(member, id, up) is Ok ==> {
            let p = s.vote(member, id, up)->Ok_0.0.proposals[id];
            &&& up ==> p.upvote.contains(member) && !p.downvote.contains(member)
            &&& !up ==> p.downvote.contains(member) && !p.upvote.contains(member)
        },
{
}

/// A new proposal has no votes, so submitting keeps votes exclusive.
pub proof fn law_submission_keeps_votes_exclusive(s: MetaDemocraciaView, p: ProposalView)
    requires
        votes_exclusive(s),
        p.upvote == Set::<Seq<char>>::empty(),
        p.downvote == Set::<Seq<char>>::empty(),
    ensures
        s.set_proposal(p) is Ok ==> votes_exclusive(s.set_proposal(p)->Ok_0.0),
{
}

/// The keys of a map are 1, 2, ... up to its size.
pub open spec fn numbered_from_one<V>(m: Map<i64, V>) -> bool {
    &&& m.dom().finite()
    &&& forall|k: i64| #[trigger] m.contains_key(k) <==> 1 <= k <= m.len()
}

/// Proposal types are numbered 1, 2, 3, ... in the order they are named.
pub proof fn law_types_numbered(s: MetaDemocraciaView, signer: Seq<char>, name: Seq<char>)
    requires
        numbered_from_one(s.proposal_type),
    ensures
        s.set_type_proposal(signer, name) is Ok ==> {
            let (s2, index) = s.set_type_proposal(signer, name)->Ok_0;
            &&& index == s.proposal_type.len() + 1
            &&& !s.proposal_type.contains_key(index)
            &&& numbered_from_one(s2.proposal_type)
        },
{
    if s.set_type_proposal(signer, name) is Ok {
        let (s2, index) = s.set_type_proposal(signer, name)->Ok_0;
        assert(s2.proposal_type.dom() == s.proposal_type.dom().insert(index));
        assert(s2.proposal_type.len() == s.proposal_type.len() + 1);
    }
}

/// The keys of a map are 1, 2, ... up to its size.
pub open spec fn ids_from_one<V>(m: Map<u128, V>) -> bool {
    &&& m.dom().finite()
    &&& forall|k: u128| #[trigger] m.contains_key(k) <==> 1 <= k <= m.len()
}

/// Proposals are numbered 1, 2, 3, ... in the order they are submitted, and
/// votes keep the numbering.
pub proof fn law_proposals_numbered(s: MetaDemocraciaView, p: ProposalView, member: Seq<char>, up: bool)
    requires
        ids_from_one(s.proposals),
        p.id == s.proposals.len() + 1,
    ensures
        s.set_proposal(p) is Ok ==> !s.proposals.contains_key(p.id) && ids_from_one(
            s.set_proposal(p)->Ok_0.0.proposals,
        ),
        s.vote(member, p.id, up) is Ok ==> ids_from_one(s.vote(member, p.id, up)->Ok_0.0.proposals),
{
    if s.set_proposal(p) is Ok {
        let s2 = s.set_proposal(p)->Ok_0.0;
        assert(s2.proposals.dom() == s.proposals.dom().insert(p.id));
        assert(s2.proposals.len() == s.proposals.len() + 1);
    }
    if s.vote(member, p.id, up) is Ok {
        let s2 = s.vote(member, p.id, up)->Ok_0.0;
        assert(s2.proposals.dom() =~= s.proposals.dom());
    }
}


/// A submission records the request as given: the proposal stored under the
/// returned id carries the request's title, description, type, proponents,
/// completion time, amount and sponsor, is created by the submitter at the
/// time of submission, and starts with no votes and nothing claimed.
pub proof fn law_submission_records_request(
    s: MetaDemocraciaView,
    id: u128,
    title: Seq<char>,
    description: Seq<char>,
    proposal_type: i64,
    proponents: Seq<Seq<char>>,
    time_complete: i64,
    amount: u128,
    sponsor: Seq<char>,
    user: Seq<char>,
    now: u64,
)
    requires
        s.set_proposal(
            submitted(
                id,
                title,
                description,
                proposal_type,
                proponents,
                time_complete,
                amount,
                sponsor,
                user,
                now,
            ),
        ) is Ok,
    ensures
        ({
            let (s2, rid) = s.set_proposal(
                submitted(
                    id,
                    title,
                    description,
                    proposal_type,
                    proponents,
                    time_complete,
                    amount,
                    sponsor,
                    user,
                    now,
                ),
            )->Ok_0;
            let p = s2.proposals[rid];
            &&& rid == id
            &&& s2.proposals.contains_key(id)
            &&& p.id == id
            &&& p.title == title
            &&& p.description == description
            &&& p.proposal_type == proposal_type
            &&& s.proposal_type.contains_key(proposal_type)
            &&& p.proponents == proponents
            &&& p.time_complete == time_complete
            &&& p.amount == amount
            &&& p.sponsor == sponsor
            &&& p.user_creation == user
            &&& p.creation_date == decimal(now as nat)
            &&& p.claims_available == 0
            &&& p.upvote == Set::<Seq<char>>::empty()
            &&& p.downvote == Set::<Seq<char>>::empty()
            &&& p.approval_date is None
        }),
{
}

} // verus!
