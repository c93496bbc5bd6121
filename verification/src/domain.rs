//! The finished, immutable domain objects a reconstruction call returns,
//! and their mathematical views.

use vstd::prelude::*;

use crate::codes::{
    AuthorizationType, DurabilityType, EventType, PersistenceType, ProposalType, RouteType, Vote,
};
use crate::rows::{view_opt_bytes, view_opt_string};

verus! {

/// One key/value argument of a proposed service.
#[derive(Debug)]
pub struct ServiceArgument {
    pub key: String,
    pub value: String,
}

#[verifier::ext_equal]
pub struct SpecServiceArgument {
    pub key: Seq<char>,
    pub value: Seq<char>,
}

impl View for ServiceArgument {
    type V = SpecServiceArgument;

    open spec fn view(&self) -> SpecServiceArgument {
        SpecServiceArgument { key: self.key@, value: self.value@ }
    }
}

impl Clone for ServiceArgument {
    fn clone(&self) -> (r: Self)
        ensures
            r == *self,
    {
        ServiceArgument { key: self.key.clone(), value: self.value.clone() }
    }
}

/// Copies a byte vector element by element.
pub fn clone_bytes(v: &Vec<u8>) -> (r: Vec<u8>)
    ensures
        r@ == v@,
{
    let mut out: Vec<u8> = Vec::new();
    let mut i: usize = 0;
    while i < v.len()
        invariant
            i <= v.len(),
            out@ == v@.take(i as int),
        decreases v.len() - i,
    {
        out.push(v[i]);
        proof {
            assert(out@ =~= v@.take(i as int + 1));
        }
        i += 1;
    }
    proof {
        assert(v@.take(v@.len() as int) =~= v@);
    }
    out
}

/// Copies a vector of strings element by element.
pub fn clone_strings(v: &Vec<String>) -> (r: Vec<String>)
    ensures
        r@ == v@,
{
    let mut out: Vec<String> = Vec::new();
    let mut i: usize = 0;
    while i < v.len()
        invariant
            i <= v.len(),
            out@ == v@.take(i as int),
        decreases v.len() - i,
    {
        out.push(v[i].clone());
        proof {
            assert(out@ =~= v@.take(i as int + 1));
        }
        i += 1;
    }
    proof {
        assert(v@.take(v@.len() as int) =~= v@);
    }
    out
}

pub open spec fn view_args(v: Seq<ServiceArgument>) -> Seq<SpecServiceArgument> {
    v.map(|i: int, a: ServiceArgument| a@)
}

/// A finished proposed service: its identity and its accumulated argument
/// list, in retrieval order.
#[derive(Debug)]
pub struct ProposedService {
    pub service_id: String,
    pub service_type: String,
    pub node_id: String,
    pub arguments: Vec<ServiceArgument>,
}

#[verifier::ext_equal]
pub struct SpecProposedService {
    pub service_id: Seq<char>,
    pub service_type: Seq<char>,
    pub node_id: Seq<char>,
    pub arguments: Seq<SpecServiceArgument>,
}

impl View for ProposedService {
    type V = SpecProposedService;

    open spec fn view(&self) -> SpecProposedService {
        SpecProposedService {
            service_id: self.service_id@,
            service_type: self.service_type@,
            node_id: self.node_id@,
            arguments: view_args(self.arguments@),
        }
    }
}

pub open spec fn view_strings(v: Seq<String>) -> Seq<Seq<char>> {
    v.map(|i: int, s: String| s@)
}

/// A finished proposed node: its identity and its endpoints, in the order
/// the endpoint rows were encountered.
#[derive(Debug)]
pub struct ProposedNode {
    pub node_id: String,
    pub endpoints: Vec<String>,
}

#[verifier::ext_equal]
pub struct SpecProposedNode {
    pub node_id: Seq<char>,
    pub endpoints: Seq<Seq<char>>,
}

impl View for ProposedNode {
    type V = SpecProposedNode;

    open spec fn view(&self) -> SpecProposedNode {
        SpecProposedNode { node_id: self.node_id@, endpoints: view_strings(self.endpoints@) }
    }
}

/// One recorded vote on a circuit proposal.
#[derive(Debug)]
pub struct VoteRecord {
    pub public_key: String,
    pub vote: Vote,
    pub voter_node_id: String,
}

#[verifier::ext_equal]
pub struct SpecVoteRecord {
    pub public_key: Seq<char>,
    pub vote: Vote,
    pub voter_node_id: Seq<char>,
}

impl View for VoteRecord {
    type V = SpecVoteRecord;

    open spec fn view(&self) -> SpecVoteRecord {
        SpecVoteRecord {
            public_key: self.public_key@,
            vote: self.vote,
            voter_node_id: self.voter_node_id@,
        }
    }
}

impl Clone for ProposedService {
    fn clone(&self) -> (r: Self)
        ensures
            r@ == self@,
    {
        let mut arguments: Vec<ServiceArgument> = Vec::new();
        let mut i: usize = 0;
        while i < self.arguments.len()
            invariant
                i <= self.arguments.len(),
                arguments@ == self.arguments@.take(i as int),
            decreases self.arguments.len() - i,
        {
            arguments.push(self.arguments[i].clone());
            proof {
                assert(arguments@ =~= self.arguments@.take(i as int + 1));
            }
            i += 1;
        }
        proof {
            assert(self.arguments@.take(self.arguments@.len() as int) =~= self.arguments@);
        }
        ProposedService {
            service_id: self.service_id.clone(),
            service_type: self.service_type.clone(),
            node_id: self.node_id.clone(),
            arguments,
        }
    }
}

impl Clone for ProposedNode {
    fn clone(&self) -> (r: Self)
        ensures
            r@ == self@,
    {
        ProposedNode { node_id: self.node_id.clone(), endpoints: clone_strings(&self.endpoints) }
    }
}

impl Clone for VoteRecord {
    fn clone(&self) -> (r: Self)
        ensures
            r == *self,
    {
        VoteRecord {
            public_key: self.public_key.clone(),
            vote: self.vote,
            voter_node_id: self.voter_node_id.clone(),
        }
    }
}

pub open spec fn view_services(v: Seq<ProposedService>) -> Seq<SpecProposedService> {
    v.map(|i: int, s: ProposedService| s@)
}

pub open spec fn view_nodes(v: Seq<ProposedNode>) -> Seq<SpecProposedNode> {
    v.map(|i: int, n: ProposedNode| n@)
}

pub open spec fn view_votes(v: Seq<VoteRecord>) -> Seq<SpecVoteRecord> {
    v.map(|i: int, r: VoteRecord| r@)
}

/// The structural definition of the circuit being proposed: its policy
/// flags, its roster of services, and its member nodes.
#[derive(Debug)]
pub struct ProposedCircuit {
    pub circuit_id: String,
    pub authorization_type: AuthorizationType,
    pub persistence: PersistenceType,
    pub durability: DurabilityType,
    pub routes: RouteType,
    pub circuit_management_type: String,
    pub application_metadata: Option<Vec<u8>>,
    pub comments: Option<String>,
    pub display_name: Option<String>,
    pub roster: Vec<ProposedService>,
    pub members: Vec<ProposedNode>,
}

#[verifier::ext_equal]
pub struct SpecProposedCircuit {
    pub circuit_id: Seq<char>,
    pub authorization_type: AuthorizationType,
    pub persistence: PersistenceType,
    pub durability: DurabilityType,
    pub routes: RouteType,
    pub circuit_management_type: Seq<char>,
    pub application_metadata: Option<Seq<u8>>,
    pub comments: Option<Seq<char>>,
    pub display_name: Option<Seq<char>>,
    pub roster: Seq<SpecProposedService>,
    pub members: Seq<SpecProposedNode>,
}

impl View for ProposedCircuit {
    type V = SpecProposedCircuit;

    open spec fn view(&self) -> SpecProposedCircuit {
        SpecProposedCircuit {
            circuit_id: self.circuit_id@,
            authorization_type: self.authorization_type,
            persistence: self.persistence,
            durability: self.durability,
            routes: self.routes,
            circuit_management_type: self.circuit_management_type@,
            application_metadata: view_opt_bytes(self.application_metadata),
            comments: view_opt_string(self.comments),
            display_name: view_opt_string(self.display_name),
            roster: view_services(self.roster@),
            members: view_nodes(self.members@),
        }
    }
}

/// A finished circuit proposal: the request parameters, the proposed
/// circuit itself, and the votes accumulated so far.
#[derive(Debug)]
pub struct CircuitProposal {
    pub proposal_type: ProposalType,
    pub circuit_id: String,
    pub circuit_hash: String,
    pub requester: String,
    pub requester_node_id: String,
    pub circuit: ProposedCircuit,
    pub votes: Vec<VoteRecord>,
}

#[verifier::ext_equal]
pub struct SpecCircuitProposal {
    pub proposal_type: ProposalType,
    pub circuit_id: Seq<char>,
    pub circuit_hash: Seq<char>,
    pub requester: Seq<char>,
    pub requester_node_id: Seq<char>,
    pub circuit: SpecProposedCircuit,
    pub votes: Seq<SpecVoteRecord>,
}

impl View for CircuitProposal {
    type V = SpecCircuitProposal;

    open spec fn view(&self) -> SpecCircuitProposal {
        SpecCircuitProposal {
            proposal_type: self.proposal_type,
            circuit_id: self.circuit_id@,
            circuit_hash: self.circuit_hash@,
            requester: self.requester@,
            requester_node_id: self.requester_node_id@,
            circuit: self.circuit@,
            votes: view_votes(self.votes@),
        }
    }
}

/// The terminal domain object: one administrative event and the circuit
/// proposal it wraps. Exactly one exists per returned event identifier.
#[derive(Debug)]
pub struct AdminServiceEvent {
    pub event_id: i64,
    pub event_type: EventType,
    pub timestamp: i64,
    pub proposal: CircuitProposal,
}

#[verifier::ext_equal]
pub struct SpecAdminServiceEvent {
    pub event_id: i64,
    pub event_type: EventType,
    pub timestamp: i64,
    pub proposal: SpecCircuitProposal,
}

impl View for AdminServiceEvent {
    type V = SpecAdminServiceEvent;

    open spec fn view(&self) -> SpecAdminServiceEvent {
        SpecAdminServiceEvent {
            event_id: self.event_id,
            event_type: self.event_type,
            timestamp: self.timestamp,
            proposal: self.proposal@,
        }
    }
}

pub open spec fn view_events(v: Seq<AdminServiceEvent>) -> Seq<SpecAdminServiceEvent> {
    v.map(|i: int, e: AdminServiceEvent| e@)
}

} // verus!
