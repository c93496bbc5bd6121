//! Builders for the domain objects.
//!
//! Reconstruction mutates state only through these builders; each exposes
//! chained setters and a single terminal `build` that validates field
//! presence and returns either the immutable object or a structural error.
//! No partially-valid object escapes a builder.

use vstd::prelude::*;

use crate::codes::{AuthorizationType, DurabilityType, PersistenceType, ProposalType, RouteType};
use crate::domain::{
    view_args, view_nodes, view_services, view_votes, CircuitProposal, ProposedCircuit,
    ProposedNode, ProposedService, ServiceArgument, SpecCircuitProposal, SpecProposedCircuit,
    SpecProposedNode, SpecProposedService, SpecServiceArgument, SpecVoteRecord, VoteRecord,
};
use crate::rows::{view_opt_bytes, view_opt_string};
use crate::EventStoreError;

verus! {

/// Maps a result of an executable value to the result of its view.
pub open spec fn res_view<T: View>(r: Result<T, EventStoreError>) -> Result<T::V, EventStoreError> {
    match r {
        Ok(t) => Ok(t@),
        Err(e) => Err(e),
    }
}

// ---------------------------------------------------------------------------
// ProposedServiceBuilder
// ---------------------------------------------------------------------------

/// Accumulates the fields of a [`ProposedService`]. The identity fields are
/// required at build time; the argument list defaults to empty.
pub struct ProposedServiceBuilder {
    pub service_id: Option<String>,
    pub service_type: Option<String>,
    pub node_id: Option<String>,
    pub arguments: Option<Vec<ServiceArgument>>,
}

#[verifier::ext_equal]
pub struct SpecProposedServiceBuilder {
    pub service_id: Option<Seq<char>>,
    pub service_type: Option<Seq<char>>,
    pub node_id: Option<Seq<char>>,
    pub arguments: Option<Seq<SpecServiceArgument>>,
}

impl View for ProposedServiceBuilder {
    type V = SpecProposedServiceBuilder;

    open spec fn view(&self) -> SpecProposedServiceBuilder {
        SpecProposedServiceBuilder {
            service_id: view_opt_string(self.service_id),
            service_type: view_opt_string(self.service_type),
            node_id: view_opt_string(self.node_id),
            arguments: match self.arguments {
                Some(v) => Some(view_args(v@)),
                None => None,
            },
        }
    }
}

/// What `ProposedServiceBuilder::build` returns, stated over views: the
/// finished service when every required field is set, a structural error
/// otherwise.
pub open spec fn spec_build_service(
    b: SpecProposedServiceBuilder,
) -> Result<SpecProposedService, EventStoreError> {
    if b.service_id is Some && b.service_type is Some && b.node_id is Some {
        Ok(
            SpecProposedService {
                service_id: b.service_id->0,
                service_type: b.service_type->0,
                node_id: b.node_id->0,
                arguments: match b.arguments {
                    Some(a) => a,
                    None => Seq::empty(),
                },
            },
        )
    } else {
        Err(EventStoreError::InvalidStateError)
    }
}

impl ProposedServiceBuilder {
    pub fn new() -> (r: Self)
        ensures
            r@ == (SpecProposedServiceBuilder {
                service_id: None,
                service_type: None,
                node_id: None,
                arguments: None,
            }),
    {
        ProposedServiceBuilder { service_id: None, service_type: None, node_id: None, arguments: None }
    }

    pub fn with_service_id(self, service_id: String) -> (r: Self)
        ensures
            r@ == (SpecProposedServiceBuilder { service_id: Some(service_id@), ..self@ }),
    {
        ProposedServiceBuilder { service_id: Some(service_id), ..self }
    }

    pub fn with_service_type(self, service_type: String) -> (r: Self)
        ensures
            r@ == (SpecProposedServiceBuilder { service_type: Some(service_type@), ..self@ }),
    {
        ProposedServiceBuilder { service_type: Some(service_type), ..self }
    }

    pub fn with_node_id(self, node_id: String) -> (r: Self)
        ensures
            r@ == (SpecProposedServiceBuilder { node_id: Some(node_id@), ..self@ }),
    {
        ProposedServiceBuilder { node_id: Some(node_id), ..self }
    }

    pub fn with_arguments(self, arguments: Vec<ServiceArgument>) -> (r: Self)
        ensures
            r@ == (SpecProposedServiceBuilder { arguments: Some(view_args(arguments@)), ..self@ }),
    {
        ProposedServiceBuilder { arguments: Some(arguments), ..self }
    }

    pub fn build(self) -> (r: Result<ProposedService, EventStoreError>)
        ensures
            res_view(r) == spec_build_service(self@),
    {
        let ghost b = self@;
        let service_id = match self.service_id {
            Some(s) => s,
            None => {
                return Err(EventStoreError::InvalidStateError);
            },
        };
        let service_type = match self.service_type {
            Some(s) => s,
            None => {
                return Err(EventStoreError::InvalidStateError);
            },
        };
        let node_id = match self.node_id {
            Some(s) => s,
            None => {
                return Err(EventStoreError::InvalidStateError);
            },
        };
        let arguments = match self.arguments {
            Some(a) => a,
            None => Vec::new(),
        };
        let svc = ProposedService { service_id, service_type, node_id, arguments };
        proof {
            assert(spec_build_service(b) is Ok);
            assert(svc@ =~~= spec_build_service(b)->Ok_0);
        }
        Ok(svc)
    }
}

// ---------------------------------------------------------------------------
// ProposedNodeBuilder
// ---------------------------------------------------------------------------

/// Accumulates the fields of a [`ProposedNode`]. Both the identity and the
/// endpoint list are required at build time: a node only exists in the
/// reconstruction once at least one endpoint row was seen for it.
pub struct ProposedNodeBuilder {
    pub node_id: Option<String>,
    pub endpoints: Option<Vec<String>>,
}

#[verifier::ext_equal]
pub struct SpecProposedNodeBuilder {
    pub node_id: Option<Seq<char>>,
    pub endpoints: Option<Seq<Seq<char>>>,
}

impl View for ProposedNodeBuilder {
    type V = SpecProposedNodeBuilder;

    open spec fn view(&self) -> SpecProposedNodeBuilder {
        SpecProposedNodeBuilder {
            node_id: view_opt_string(self.node_id),
            endpoints: match self.endpoints {
                Some(v) => Some(crate::domain::view_strings(v@)),
                None => None,
            },
        }
    }
}

pub open spec fn spec_build_node(
    b: SpecProposedNodeBuilder,
) -> Result<SpecProposedNode, EventStoreError> {
    if b.node_id is Some && b.endpoints is Some {
        Ok(SpecProposedNode { node_id: b.node_id->0, endpoints: b.endpoints->0 })
    } else {
        Err(EventStoreError::InvalidStateError)
    }
}

impl ProposedNodeBuilder {
    pub fn new() -> (r: Self)
        ensures
            r@ == (SpecProposedNodeBuilder { node_id: None, endpoints: None }),
    {
        ProposedNodeBuilder { node_id: None, endpoints: None }
    }

    pub fn with_node_id(self, node_id: String) -> (r: Self)
        ensures
            r@ == (SpecProposedNodeBuilder { node_id: Some(node_id@), ..self@ }),
    {
        ProposedNodeBuilder { node_id: Some(node_id), ..self }
    }

    pub fn with_endpoints(self, endpoints: Vec<String>) -> (r: Self)
        ensures
            r@ == (SpecProposedNodeBuilder {
                endpoints: Some(crate::domain::view_strings(endpoints@)),
                ..self@
            }),
    {
        ProposedNodeBuilder { endpoints: Some(endpoints), ..self }
    }

    pub fn build(self) -> (r: Result<ProposedNode, EventStoreError>)
        ensures
            res_view(r) == spec_build_node(self@),
    {
        let node_id = match self.node_id {
            Some(s) => s,
            None => {
                return Err(EventStoreError::InvalidStateError);
            },
        };
        let endpoints = match self.endpoints {
            Some(e) => e,
            None => {
                return Err(EventStoreError::InvalidStateError);
            },
        };
        Ok(ProposedNode { node_id, endpoints })
    }
}

// ---------------------------------------------------------------------------
// ProposedCircuitBuilder
// ---------------------------------------------------------------------------

/// Accumulates the fields of a [`ProposedCircuit`]. The identity and policy
/// fields are required; metadata, comments and display name stay optional;
/// roster and membership default to empty.
pub struct ProposedCircuitBuilder {
    pub circuit_id: Option<String>,
    pub authorization_type: Option<AuthorizationType>,
    pub persistence: Option<PersistenceType>,
    pub durability: Option<DurabilityType>,
    pub routes: Option<RouteType>,
    pub circuit_management_type: Option<String>,
    pub application_metadata: Option<Vec<u8>>,
    pub comments: Option<String>,
    pub display_name: Option<String>,
    pub roster: Option<Vec<ProposedService>>,
    pub members: Option<Vec<ProposedNode>>,
}

#[verifier::ext_equal]
pub struct SpecProposedCircuitBuilder {
    pub circuit_id: Option<Seq<char>>,
    pub authorization_type: Option<AuthorizationType>,
    pub persistence: Option<PersistenceType>,
    pub durability: Option<DurabilityType>,
    pub routes: Option<RouteType>,
    pub circuit_management_type: Option<Seq<char>>,
    pub application_metadata: Option<Seq<u8>>,
    pub comments: Option<Seq<char>>,
    pub display_name: Option<Seq<char>>,
    pub roster: Option<Seq<SpecProposedService>>,
    pub members: Option<Seq<SpecProposedNode>>,
}

impl View for ProposedCircuitBuilder {
    type V = SpecProposedCircuitBuilder;

    open spec fn view(&self) -> SpecProposedCircuitBuilder {
        SpecProposedCircuitBuilder {
            circuit_id: view_opt_string(self.circuit_id),
            authorization_type: self.authorization_type,
            persistence: self.persistence,
            durability: self.durability,
            routes: self.routes,
            circuit_management_type: view_opt_string(self.circuit_management_type),
            application_metadata: view_opt_bytes(self.application_metadata),
            comments: view_opt_string(self.comments),
            display_name: view_opt_string(self.display_name),
            roster: match self.roster {
                Some(v) => Some(view_services(v@)),
                None => None,
            },
            members: match self.members {
                Some(v) => Some(view_nodes(v@)),
                None => None,
            },
        }
    }
}

pub open spec fn spec_build_circuit(
    b: SpecProposedCircuitBuilder,
) -> Result<SpecProposedCircuit, EventStoreError> {
    if b.circuit_id is Some && b.authorization_type is Some && b.persistence is Some
        && b.durability is Some && b.routes is Some && b.circuit_management_type is Some {
        Ok(
            SpecProposedCircuit {
                circuit_id: b.circuit_id->0,
                authorization_type: b.authorization_type->0,
                persistence: b.persistence->0,
                durability: b.durability->0,
                routes: b.routes->0,
                circuit_management_type: b.circuit_management_type->0,
                application_metadata: b.application_metadata,
                comments: b.comments,
                display_name: b.display_name,
                roster: match b.roster {
                    Some(r) => r,
                    None => Seq::empty(),
                },
                members: match b.members {
                    Some(m) => m,
                    None => Seq::empty(),
                },
            },
        )
    } else {
        Err(EventStoreError::InvalidStateError)
    }
}

impl ProposedCircuitBuilder {
    pub fn new() -> (r: Self)
        ensures
            r@ == (SpecProposedCircuitBuilder {
                circuit_id: None,
                authorization_type: None,
                persistence: None,
                durability: None,
                routes: None,
                circuit_management_type: None,
                application_metadata: None,
                comments: None,
                display_name: None,
                roster: None,
                members: None,
            }),
    {
        ProposedCircuitBuilder {
            circuit_id: None,
            authorization_type: None,
            persistence: None,
            durability: None,
            routes: None,
            circuit_management_type: None,
            application_metadata: None,
            comments: None,
            display_name: None,
            roster: None,
            members: None,
        }
    }

    pub fn with_circuit_id(self, circuit_id: String) -> (r: Self)
        ensures
            r@ == (SpecProposedCircuitBuilder { circuit_id: Some(circuit_id@), ..self@ }),
    {
        ProposedCircuitBuilder { circuit_id: Some(circuit_id), ..self }
    }

    pub fn with_authorization_type(self, authorization_type: AuthorizationType) -> (r: Self)
        ensures
            r@ == (SpecProposedCircuitBuilder {
                authorization_type: Some(authorization_type),
                ..self@
            }),
    {
        ProposedCircuitBuilder { authorization_type: Some(authorization_type), ..self }
    }

    pub fn with_persistence(self, persistence: PersistenceType) -> (r: Self)
        ensures
            r@ == (SpecProposedCircuitBuilder { persistence: Some(persistence), ..self@ }),
    {
        ProposedCircuitBuilder { persistence: Some(persistence), ..self }
    }

    pub fn with_durability(self, durability: DurabilityType) -> (r: Self)
        ensures
            r@ == (SpecProposedCircuitBuilder { durability: Some(durability), ..self@ }),
    {
        ProposedCircuitBuilder { durability: Some(durability), ..self }
    }

    pub fn with_routes(self, routes: RouteType) -> (r: Self)
        ensures
            r@ == (SpecProposedCircuitBuilder { routes: Some(routes), ..self@ }),
    {
        ProposedCircuitBuilder { routes: Some(routes), ..self }
    }

    pub fn with_circuit_management_type(self, circuit_management_type: String) -> (r: Self)
        ensures
            r@ == (SpecProposedCircuitBuilder {
                circuit_management_type: Some(circuit_management_type@),
                ..self@
            }),
    {
        ProposedCircuitBuilder {
            circuit_management_type: Some(circuit_management_type),
            ..self
        }
    }

    pub fn with_application_metadata(self, application_metadata: Vec<u8>) -> (r: Self)
        ensures
            r@ == (SpecProposedCircuitBuilder {
                application_metadata: Some(application_metadata@),
                ..self@
            }),
    {
        ProposedCircuitBuilder { application_metadata: Some(application_metadata), ..self }
    }

    pub fn with_comments(self, comments: String) -> (r: Self)
        ensures
            r@ == (SpecProposedCircuitBuilder { comments: Some(comments@), ..self@ }),
    {
        ProposedCircuitBuilder { comments: Some(comments), ..self }
    }

    pub fn with_display_name(self, display_name: String) -> (r: Self)
        ensures
            r@ == (SpecProposedCircuitBuilder { display_name: Some(display_name@), ..self@ }),
    {
        ProposedCircuitBuilder { display_name: Some(display_name), ..self }
    }

    pub fn with_roster(self, roster: Vec<ProposedService>) -> (r: Self)
        ensures
            r@ == (SpecProposedCircuitBuilder { roster: Some(view_services(roster@)), ..self@ }),
    {
        ProposedCircuitBuilder { roster: Some(roster), ..self }
    }

    pub fn with_members(self, members: Vec<ProposedNode>) -> (r: Self)
        ensures
            r@ == (SpecProposedCircuitBuilder { members: Some(view_nodes(members@)), ..self@ }),
    {
        ProposedCircuitBuilder { members: Some(members), ..self }
    }

    pub fn build(self) -> (r: Result<ProposedCircuit, EventStoreError>)
        ensures
            res_view(r) == spec_build_circuit(self@),
    {
        let ghost b = self@;
        let circuit_id = match self.circuit_id {
            Some(s) => s,
            None => {
                return Err(EventStoreError::InvalidStateError);
            },
        };
        let authorization_type = match self.authorization_type {
            Some(a) => a,
            None => {
                return Err(EventStoreError::InvalidStateError);
            },
        };
        let persistence = match self.persistence {
            Some(p) => p,
            None => {
                return Err(EventStoreError::InvalidStateError);
            },
        };
        let durability = match self.durability {
            Some(d) => d,
            None => {
                return Err(EventStoreError::InvalidStateError);
            },
        };
        let routes = match self.routes {
            Some(r) => r,
            None => {
                return Err(EventStoreError::InvalidStateError);
            },
        };
        let circuit_management_type = match self.circuit_management_type {
            Some(s) => s,
            None => {
                return Err(EventStoreError::InvalidStateError);
            },
        };
        let roster = match self.roster {
            Some(r) => r,
            None => Vec::new(),
        };
        let members = match self.members {
            Some(m) => m,
            None => Vec::new(),
        };
        let circuit = ProposedCircuit {
            circuit_id,
            authorization_type,
            persistence,
            durability,
            routes,
            circuit_management_type,
            application_metadata: self.application_metadata,
            comments: self.comments,
            display_name: self.display_name,
            roster,
            members,
        };
        proof {
            assert(spec_build_circuit(b) is Ok);
            assert(circuit@ =~~= spec_build_circuit(b)->Ok_0);
        }
        Ok(circuit)
    }
}

// ---------------------------------------------------------------------------
// CircuitProposalBuilder
// ---------------------------------------------------------------------------

/// Accumulates the fields of a [`CircuitProposal`]. Everything but the vote
/// list is required at build time; votes default to empty.
pub struct CircuitProposalBuilder {
    pub proposal_type: Option<ProposalType>,
    pub circuit_id: Option<String>,
    pub circuit_hash: Option<String>,
    pub requester: Option<String>,
    pub requester_node_id: Option<String>,
    pub circuit: Option<ProposedCircuit>,
    pub votes: Option<Vec<VoteRecord>>,
}

#[verifier::ext_equal]
pub struct SpecCircuitProposalBuilder {
    pub proposal_type: Option<ProposalType>,
    pub circuit_id: Option<Seq<char>>,
    pub circuit_hash: Option<Seq<char>>,
    pub requester: Option<Seq<char>>,
    pub requester_node_id: Option<Seq<char>>,
    pub circuit: Option<SpecProposedCircuit>,
    pub votes: Option<Seq<SpecVoteRecord>>,
}

impl View for CircuitProposalBuilder {
    type V = SpecCircuitProposalBuilder;

    open spec fn view(&self) -> SpecCircuitProposalBuilder {
        SpecCircuitProposalBuilder {
            proposal_type: self.proposal_type,
            circuit_id: view_opt_string(self.circuit_id),
            circuit_hash: view_opt_string(self.circuit_hash),
            requester: view_opt_string(self.requester),
            requester_node_id: view_opt_string(self.requester_node_id),
            circuit: match self.circuit {
                Some(c) => Some(c@),
                None => None,
            },
            votes: match self.votes {
                Some(v) => Some(view_votes(v@)),
                None => None,
            },
        }
    }
}

pub open spec fn spec_build_proposal(
    b: SpecCircuitProposalBuilder,
) -> Result<SpecCircuitProposal, EventStoreError> {
    if b.proposal_type is Some && b.circuit_id is Some && b.circuit_hash is Some
        && b.requester is Some && b.requester_node_id is Some && b.circuit is Some {
        Ok(
            SpecCircuitProposal {
                proposal_type: b.proposal_type->0,
                circuit_id: b.circuit_id->0,
                circuit_hash: b.circuit_hash->0,
                requester: b.requester->0,
                requester_node_id: b.requester_node_id->0,
                circuit: b.circuit->0,
                votes: match b.votes {
                    Some(v) => v,
                    None => Seq::empty(),
                },
            },
        )
    } else {
        Err(EventStoreError::InvalidStateError)
    }
}

impl CircuitProposalBuilder {
    pub fn new() -> (r: Self)
        ensures
            r@ == (SpecCircuitProposalBuilder {
                proposal_type: None,
                circuit_id: None,
                circuit_hash: None,
                requester: None,
                requester_node_id: None,
                circuit: None,
                votes: None,
            }),
    {
        CircuitProposalBuilder {
            proposal_type: None,
            circuit_id: None,
            circuit_hash: None,
            requester: None,
            requester_node_id: None,
            circuit: None,
            votes: None,
        }
    }

    pub fn with_proposal_type(self, proposal_type: ProposalType) -> (r: Self)
        ensures
            r@ == (SpecCircuitProposalBuilder { proposal_type: Some(proposal_type), ..self@ }),
    {
        CircuitProposalBuilder { proposal_type: Some(proposal_type), ..self }
    }

    pub fn with_circuit_id(self, circuit_id: String) -> (r: Self)
        ensures
            r@ == (SpecCircuitProposalBuilder { circuit_id: Some(circuit_id@), ..self@ }),
    {
        CircuitProposalBuilder { circuit_id: Some(circuit_id), ..self }
    }

    pub fn with_circuit_hash(self, circuit_hash: String) -> (r: Self)
        ensures
            r@ == (SpecCircuitProposalBuilder { circuit_hash: Some(circuit_hash@), ..self@ }),
    {
        CircuitProposalBuilder { circuit_hash: Some(circuit_hash), ..self }
    }

    pub fn with_requester(self, requester: String) -> (r: Self)
        ensures
            r@ == (SpecCircuitProposalBuilder { requester: Some(requester@), ..self@ }),
    {
        CircuitProposalBuilder { requester: Some(requester), ..self }
    }

    pub fn with_requester_node_id(self, requester_node_id: String) -> (r: Self)
        ensures
            r@ == (SpecCircuitProposalBuilder {
                requester_node_id: Some(requester_node_id@),
                ..self@
            }),
    {
        CircuitProposalBuilder { requester_node_id: Some(requester_node_id), ..self }
    }

    pub fn with_circuit(self, circuit: ProposedCircuit) -> (r: Self)
        ensures
            r@ == (SpecCircuitProposalBuilder { circuit: Some(circuit@), ..self@ }),
    {
        CircuitProposalBuilder { circuit: Some(circuit), ..self }
    }

    pub fn with_votes(self, votes: Vec<VoteRecord>) -> (r: Self)
        ensures
            r@ == (SpecCircuitProposalBuilder { votes: Some(view_votes(votes@)), ..self@ }),
    {
        CircuitProposalBuilder { votes: Some(votes), ..self }
    }

    pub fn build(self) -> (r: Result<CircuitProposal, EventStoreError>)
        ensures
            res_view(r) == spec_build_proposal(self@),
    {
        let ghost b = self@;
        let proposal_type = match self.proposal_type {
            Some(p) => p,
            None => {
                return Err(EventStoreError::InvalidStateError);
            },
        };
        let circuit_id = match self.circuit_id {
            Some(s) => s,
            None => {
                return Err(EventStoreError::InvalidStateError);
            },
        };
        let circuit_hash = match self.circuit_hash {
            Some(s) => s,
            None => {
                return Err(EventStoreError::InvalidStateError);
            },
        };
        let requester = match self.requester {
            Some(s) => s,
            None => {
                return Err(EventStoreError::InvalidStateError);
            },
        };
        let requester_node_id = match self.requester_node_id {
            Some(s) => s,
            None => {
                return Err(EventStoreError::InvalidStateError);
            },
        };
        let circuit = match self.circuit {
            Some(c) => c,
            None => {
                return Err(EventStoreError::InvalidStateError);
            },
        };
        let votes = match self.votes {
            Some(v) => v,
            None => Vec::new(),
        };
        let proposal = CircuitProposal {
            proposal_type,
            circuit_id,
            circuit_hash,
            requester,
            requester_node_id,
            circuit,
            votes,
        };
        proof {
            assert(spec_build_proposal(b) is Ok);
            assert(proposal@ =~~= spec_build_proposal(b)->Ok_0);
        }
        Ok(proposal)
    }
}

} // verus!
