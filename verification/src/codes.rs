//! The closed enumerations stored as integer codes, and their decoders.
//!
//! Every enumerated field of the domain is persisted as a small integer
//! code. Decoding is fallible: an unrecognized code is a hard error for the
//! whole reconstruction call, never a default.

use vstd::prelude::*;

verus! {

/// The kind of administrative event a stored row describes.
#[derive(Clone, Copy, Debug, PartialEq, Eq, Structural)]
pub enum EventType {
    ProposalSubmitted,
    ProposalVote,
    ProposalAccepted,
    ProposalRejected,
    CircuitReady,
    CircuitDisbanded,
}

/// The kind of change a circuit proposal requests.
#[derive(Clone, Copy, Debug, PartialEq, Eq, Structural)]
pub enum ProposalType {
    Create,
    UpdateRoster,
    AddNode,
    RemoveNode,
    Disband,
}

/// How peers of the proposed circuit authorize each other.
#[derive(Clone, Copy, Debug, PartialEq, Eq, Structural)]
pub enum AuthorizationType {
    Trust,
    Challenge,
}

/// The persistence policy of the proposed circuit.
#[derive(Clone, Copy, Debug, PartialEq, Eq, Structural)]
pub enum PersistenceType {
    Any,
}

/// The durability policy of the proposed circuit.
#[derive(Clone, Copy, Debug, PartialEq, Eq, Structural)]
pub enum DurabilityType {
    NoDurability,
}

/// The routing policy of the proposed circuit.
#[derive(Clone, Copy, Debug, PartialEq, Eq, Structural)]
pub enum RouteType {
    Any,
}

/// One participant's decision on a circuit proposal.
#[derive(Clone, Copy, Debug, PartialEq, Eq, Structural)]
pub enum Vote {
    Accept,
    Reject,
}

pub open spec fn spec_decode_event_type(code: i32) -> Option<EventType> {
    if code == 1 {
        Some(EventType::ProposalSubmitted)
    } else if code == 2 {
        Some(EventType::ProposalVote)
    } else if code == 3 {
        Some(EventType::ProposalAccepted)
    } else if code == 4 {
        Some(EventType::ProposalRejected)
    } else if code == 5 {
        Some(EventType::CircuitReady)
    } else if code == 6 {
        Some(EventType::CircuitDisbanded)
    } else {
        None
    }
}

pub open spec fn spec_decode_proposal_type(code: i32) -> Option<ProposalType> {
    if code == 1 {
        Some(ProposalType::Create)
    } else if code == 2 {
        Some(ProposalType::UpdateRoster)
    } else if code == 3 {
        Some(ProposalType::AddNode)
    } else if code == 4 {
        Some(ProposalType::RemoveNode)
    } else if code == 5 {
        Some(ProposalType::Disband)
    } else {
        None
    }
}

pub open spec fn spec_decode_authorization_type(code: i32) -> Option<AuthorizationType> {
    if code == 1 {
        Some(AuthorizationType::Trust)
    } else if code == 2 {
        Some(AuthorizationType::Challenge)
    } else {
        None
    }
}

pub open spec fn spec_decode_persistence_type(code: i32) -> Option<PersistenceType> {
    if code == 1 {
        Some(PersistenceType::Any)
    } else {
        None
    }
}

pub open spec fn spec_decode_durability_type(code: i32) -> Option<DurabilityType> {
    if code == 1 {
        Some(DurabilityType::NoDurability)
    } else {
        None
    }
}

pub open spec fn spec_decode_route_type(code: i32) -> Option<RouteType> {
    if code == 1 {
        Some(RouteType::Any)
    } else {
        None
    }
}

pub open spec fn spec_decode_vote(code: i32) -> Option<Vote> {
    if code == 1 {
        Some(Vote::Accept)
    } else if code == 2 {
        Some(Vote::Reject)
    } else {
        None
    }
}

pub fn decode_event_type(code: i32) -> (r: Option<EventType>)
    ensures
        r == spec_decode_event_type(code),
{
    match code {
        1 => Some(EventType::ProposalSubmitted),
        2 => Some(EventType::ProposalVote),
        3 => Some(EventType::ProposalAccepted),
        4 => Some(EventType::ProposalRejected),
        5 => Some(EventType::CircuitReady),
        6 => Some(EventType::CircuitDisbanded),
        _ => None,
    }
}

pub fn decode_proposal_type(code: i32) -> (r: Option<ProposalType>)
    ensures
        r == spec_decode_proposal_type(code),
{
    match code {
        1 => Some(ProposalType::Create),
        2 => Some(ProposalType::UpdateRoster),
        3 => Some(ProposalType::AddNode),
        4 => Some(ProposalType::RemoveNode),
        5 => Some(ProposalType::Disband),
        _ => None,
    }
}

pub fn decode_authorization_type(code: i32) -> (r: Option<AuthorizationType>)
    ensures
        r == spec_decode_authorization_type(code),
{
    match code {
        1 => Some(AuthorizationType::Trust),
        2 => Some(AuthorizationType::Challenge),
        _ => None,
    }
}

pub fn decode_persistence_type(code: i32) -> (r: Option<PersistenceType>)
    ensures
        r == spec_decode_persistence_type(code),
{
    match code {
        1 => Some(PersistenceType::Any),
        _ => None,
    }
}

pub fn decode_durability_type(code: i32) -> (r: Option<DurabilityType>)
    ensures
        r == spec_decode_durability_type(code),
{
    match code {
        1 => Some(DurabilityType::NoDurability),
        _ => None,
    }
}

pub fn decode_route_type(code: i32) -> (r: Option<RouteType>)
    ensures
        r == spec_decode_route_type(code),
{
    match code {
        1 => Some(RouteType::Any),
        _ => None,
    }
}

pub fn decode_vote(code: i32) -> (r: Option<Vote>)
    ensures
        r == spec_decode_vote(code),
{
    match code {
        1 => Some(Vote::Accept),
        2 => Some(Vote::Reject),
        _ => None,
    }
}

} // verus!
