use metadao::democracy::{CouncilError, MetaDemocracia, ProposalRequired};

const OWNER: &str = "owner.near";
const ADMIN: &str = "admin.near";
const MEMBER: &str = "member.near";

fn s(x: &str) -> String {
    x.to_string()
}

fn required(proposal_type: i64) -> ProposalRequired {
    ProposalRequired {
        title: s("Park"),
        description: s("A new park"),
        proposal_type,
        proponents: vec![s("a.near"), s("b.near")],
        time_complete: 30,
        amount: 500,
        sponsor: s("sponsor.near"),
    }
}

fn contract() -> MetaDemocracia {
    let mut c = MetaDemocracia::new(s(OWNER));
    c.set_admin(&s(OWNER), s(ADMIN)).unwrap();
    c.set_council(&s(ADMIN), s(MEMBER)).unwrap();
    c
}

#[test]
fn lib_set_admin() {
    let mut contract = MetaDemocracia::new(s(OWNER));
    let user_id = s("p2p-testnet.testnet");
    assert_eq!(contract.set_admin(&s(OWNER), user_id.clone()), Ok(()));
    assert!(contract.administrators.contains(&user_id));
}

#[test]
fn managers_only() {
    let mut c = contract();
    assert_eq!(c.set_admin(&s(MEMBER), s("x.near")), Err(CouncilError::OnlyAdministrator));
    assert_eq!(c.set_admin(&s(ADMIN), s(ADMIN)), Err(CouncilError::AlreadyAdministrator));
    assert_eq!(c.delete_admin(&s(OWNER), s("x.near")), Err(CouncilError::NotAdministrator));
    assert_eq!(c.set_council(&s(OWNER), s(MEMBER)), Err(CouncilError::AlreadyCouncil));
    assert_eq!(c.delete_council(&s(OWNER), s("x.near")), Err(CouncilError::NotCouncil));
    assert_eq!(c.delete_council(&s(ADMIN), s(MEMBER)), Ok(()));
    assert!(!c.council.contains(&s(MEMBER)));
    assert_eq!(c.delete_admin(&s(OWNER), s(ADMIN)), Ok(()));
    assert_eq!(c.set_council(&s(ADMIN), s(MEMBER)), Err(CouncilError::OnlyAdministrator));
    assert_eq!(CouncilError::OnlyCouncil.message(), "Only council");
}

#[test]
fn types_are_numbered() {
    let mut c = contract();
    assert_eq!(c.set_type_proposal(&s(ADMIN), s("Infra")), Err(CouncilError::OnlyAdministrator));
    assert_eq!(c.set_type_proposal(&s(OWNER), s("Infra")), Ok(1));
    assert_eq!(c.set_type_proposal(&s(OWNER), s("Culture")), Ok(2));
    assert_eq!(c.proposal_type.get(&2).unwrap(), "Culture");
    assert_eq!(c.proposal_type.len(), 2);
}

#[test]
fn proposals_are_numbered() {
    let mut c = contract();
    assert_eq!(c.set_proposal(required(1), &s("who.near"), 7), Err(CouncilError::ProposalTypeMissing));
    c.set_type_proposal(&s(OWNER), s("Infra")).unwrap();
    assert_eq!(c.set_proposal(required(1), &s("who.near"), 1_700_000_000_000_000_000), Ok(1));
    assert_eq!(c.set_proposal(required(1), &s("who.near"), 0), Ok(2));
    let p = c.proposals.get(&1).unwrap();
    assert_eq!(p.id, 1);
    assert_eq!(p.status, 1);
    assert_eq!(p.claims_available, 0);
    assert_eq!(p.creation_date, "1700000000000000000");
    assert_eq!(p.user_creation, "who.near");
    assert_eq!(p.proponents.len(), 2);
    assert_eq!(c.proposals.get(&2).unwrap().creation_date, "0");
}

#[test]
fn votes_are_exclusive() {
    let mut c = contract();
    c.set_type_proposal(&s(OWNER), s("Infra")).unwrap();
    c.set_proposal(required(1), &s("who.near"), 0).unwrap();
    assert_eq!(c.upvote(&s("stranger.near"), 1), Err(CouncilError::OnlyCouncil));
    assert_eq!(c.upvote(&s(MEMBER), 9), Err(CouncilError::ProposalMissing));
    assert_eq!(c.upvote(&s(MEMBER), 1), Ok(()));
    {
        let p = c.proposals.get(&1).unwrap();
        assert!(p.upvote.contains(&s(MEMBER)));
        assert!(!p.downvote.contains(&s(MEMBER)));
    }
    assert_eq!(c.downvote(&s(MEMBER), 1), Ok(()));
    let p = c.proposals.get(&1).unwrap();
    assert!(!p.upvote.contains(&s(MEMBER)));
    assert!(p.downvote.contains(&s(MEMBER)));
    assert_eq!(p.downvote.len(), 1);
}
