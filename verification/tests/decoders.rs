use admin_event_store::codes::{
    decode_authorization_type, decode_durability_type, decode_event_type, decode_persistence_type,
    decode_proposal_type, decode_route_type, decode_vote, AuthorizationType, DurabilityType,
    EventType, PersistenceType, ProposalType, RouteType, Vote,
};

#[test]
fn event_type_codes_decode_exactly() {
    assert_eq!(decode_event_type(1), Some(EventType::ProposalSubmitted));
    assert_eq!(decode_event_type(2), Some(EventType::ProposalVote));
    assert_eq!(decode_event_type(3), Some(EventType::ProposalAccepted));
    assert_eq!(decode_event_type(4), Some(EventType::ProposalRejected));
    assert_eq!(decode_event_type(5), Some(EventType::CircuitReady));
    assert_eq!(decode_event_type(6), Some(EventType::CircuitDisbanded));
    assert_eq!(decode_event_type(0), None);
    assert_eq!(decode_event_type(7), None);
    assert_eq!(decode_event_type(-1), None);
}

#[test]
fn proposal_type_codes_decode_exactly() {
    assert_eq!(decode_proposal_type(1), Some(ProposalType::Create));
    assert_eq!(decode_proposal_type(2), Some(ProposalType::UpdateRoster));
    assert_eq!(decode_proposal_type(3), Some(ProposalType::AddNode));
    assert_eq!(decode_proposal_type(4), Some(ProposalType::RemoveNode));
    assert_eq!(decode_proposal_type(5), Some(ProposalType::Disband));
    assert_eq!(decode_proposal_type(6), None);
}

#[test]
fn authorization_codes_decode_exactly() {
    assert_eq!(decode_authorization_type(1), Some(AuthorizationType::Trust));
    assert_eq!(decode_authorization_type(2), Some(AuthorizationType::Challenge));
    assert_eq!(decode_authorization_type(3), None);
}

#[test]
fn policy_codes_decode_exactly() {
    assert_eq!(decode_persistence_type(1), Some(PersistenceType::Any));
    assert_eq!(decode_persistence_type(2), None);
    assert_eq!(decode_durability_type(1), Some(DurabilityType::NoDurability));
    assert_eq!(decode_durability_type(0), None);
    assert_eq!(decode_route_type(1), Some(RouteType::Any));
    assert_eq!(decode_route_type(99), None);
}

#[test]
fn vote_codes_decode_exactly() {
    assert_eq!(decode_vote(1), Some(Vote::Accept));
    assert_eq!(decode_vote(2), Some(Vote::Reject));
    assert_eq!(decode_vote(3), None);
}
