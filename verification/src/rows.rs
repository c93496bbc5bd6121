//! The flat, normalized row shapes the storage edge hands over, and their
//! mathematical views.
//!
//! Each struct mirrors one stored table. String-bearing rows have a spec
//! counterpart whose fields are sequences, so contracts can speak about row
//! contents independently of the executable representation.

use vstd::prelude::*;

verus! {

/// One base event row. All fields are plain machine values, so the row is
/// its own mathematical model.
#[derive(Clone, Copy, Debug, PartialEq, Eq, Structural)]
pub struct EventRow {
    /// Unique identifier of the stored event.
    pub id: i64,
    /// Stored code of the event kind; decoded during assembly.
    pub event_type_code: i32,
    /// Stored metadata: when the event was recorded.
    pub timestamp: i64,
}

/// One circuit-proposal row, one-to-one with its owning event.
pub struct CircuitProposalRow {
    pub event_id: i64,
    pub proposal_type_code: i32,
    pub circuit_id: String,
    pub circuit_hash: String,
    pub requester: String,
    pub requester_node_id: String,
}

#[verifier::ext_equal]
pub struct SpecCircuitProposalRow {
    pub event_id: i64,
    pub proposal_type_code: i32,
    pub circuit_id: Seq<char>,
    pub circuit_hash: Seq<char>,
    pub requester: Seq<char>,
    pub requester_node_id: Seq<char>,
}

impl View for CircuitProposalRow {
    type V = SpecCircuitProposalRow;

    open spec fn view(&self) -> SpecCircuitProposalRow {
        SpecCircuitProposalRow {
            event_id: self.event_id,
            proposal_type_code: self.proposal_type_code,
            circuit_id: self.circuit_id@,
            circuit_hash: self.circuit_hash@,
            requester: self.requester@,
            requester_node_id: self.requester_node_id@,
        }
    }
}

/// One proposed-circuit row, one-to-one with its owning event.
pub struct ProposedCircuitRow {
    pub event_id: i64,
    pub circuit_id: String,
    pub authorization_code: i32,
    pub persistence_code: i32,
    pub durability_code: i32,
    pub route_code: i32,
    pub circuit_management_type: String,
    pub application_metadata: Option<Vec<u8>>,
    pub comments: Option<String>,
    pub display_name: Option<String>,
}

#[verifier::ext_equal]
pub struct SpecProposedCircuitRow {
    pub event_id: i64,
    pub circuit_id: Seq<char>,
    pub authorization_code: i32,
    pub persistence_code: i32,
    pub durability_code: i32,
    pub route_code: i32,
    pub circuit_management_type: Seq<char>,
    pub application_metadata: Option<Seq<u8>>,
    pub comments: Option<Seq<char>>,
    pub display_name: Option<Seq<char>>,
}

pub open spec fn view_opt_string(o: Option<String>) -> Option<Seq<char>> {
    match o {
        Some(s) => Some(s@),
        None => None,
    }
}

pub open spec fn view_opt_bytes(o: Option<Vec<u8>>) -> Option<Seq<u8>> {
    match o {
        Some(b) => Some(b@),
        None => None,
    }
}

impl View for ProposedCircuitRow {
    type V = SpecProposedCircuitRow;

    open spec fn view(&self) -> SpecProposedCircuitRow {
        SpecProposedCircuitRow {
            event_id: self.event_id,
            circuit_id: self.circuit_id@,
            authorization_code: self.authorization_code,
            persistence_code: self.persistence_code,
            durability_code: self.durability_code,
            route_code: self.route_code,
            circuit_management_type: self.circuit_management_type@,
            application_metadata: view_opt_bytes(self.application_metadata),
            comments: view_opt_string(self.comments),
            display_name: view_opt_string(self.display_name),
        }
    }
}

/// One proposed-service row; unique per (event, service) key in a
/// well-formed store, merged by first occurrence otherwise.
pub struct ProposedServiceRow {
    pub event_id: i64,
    pub service_id: String,
    pub service_type: String,
    pub node_id: String,
}

#[verifier::ext_equal]
pub struct SpecProposedServiceRow {
    pub event_id: i64,
    pub service_id: Seq<char>,
    pub service_type: Seq<char>,
    pub node_id: Seq<char>,
}

impl View for ProposedServiceRow {
    type V = SpecProposedServiceRow;

    open spec fn view(&self) -> SpecProposedServiceRow {
        SpecProposedServiceRow {
            event_id: self.event_id,
            service_id: self.service_id@,
            service_type: self.service_type@,
            node_id: self.node_id@,
        }
    }
}

/// One key/value argument row of a proposed service.
pub struct ServiceArgumentRow {
    pub event_id: i64,
    pub service_id: String,
    pub key: String,
    pub value: String,
}

#[verifier::ext_equal]
pub struct SpecServiceArgumentRow {
    pub event_id: i64,
    pub service_id: Seq<char>,
    pub key: Seq<char>,
    pub value: Seq<char>,
}

impl View for ServiceArgumentRow {
    type V = SpecServiceArgumentRow;

    open spec fn view(&self) -> SpecServiceArgumentRow {
        SpecServiceArgumentRow {
            event_id: self.event_id,
            service_id: self.service_id@,
            key: self.key@,
            value: self.value@,
        }
    }
}

/// One proposed-node row.
pub struct ProposedNodeRow {
    pub event_id: i64,
    pub node_id: String,
}

#[verifier::ext_equal]
pub struct SpecProposedNodeRow {
    pub event_id: i64,
    pub node_id: Seq<char>,
}

impl View for ProposedNodeRow {
    type V = SpecProposedNodeRow;

    open spec fn view(&self) -> SpecProposedNodeRow {
        SpecProposedNodeRow { event_id: self.event_id, node_id: self.node_id@ }
    }
}

/// One endpoint row of a proposed node; a node keeps its endpoints in the
/// order its rows are encountered.
pub struct NodeEndpointRow {
    pub event_id: i64,
    pub node_id: String,
    pub endpoint: String,
}

#[verifier::ext_equal]
pub struct SpecNodeEndpointRow {
    pub event_id: i64,
    pub node_id: Seq<char>,
    pub endpoint: Seq<char>,
}

impl View for NodeEndpointRow {
    type V = SpecNodeEndpointRow;

    open spec fn view(&self) -> SpecNodeEndpointRow {
        SpecNodeEndpointRow {
            event_id: self.event_id,
            node_id: self.node_id@,
            endpoint: self.endpoint@,
        }
    }
}

/// One stored vote row; decoding it into a vote record is fallible.
pub struct VoteRecordRow {
    pub event_id: i64,
    pub public_key: String,
    pub vote_code: i32,
    pub voter_node_id: String,
}

#[verifier::ext_equal]
pub struct SpecVoteRecordRow {
    pub event_id: i64,
    pub public_key: Seq<char>,
    pub vote_code: i32,
    pub voter_node_id: Seq<char>,
}

impl View for VoteRecordRow {
    type V = SpecVoteRecordRow;

    open spec fn view(&self) -> SpecVoteRecordRow {
        SpecVoteRecordRow {
            event_id: self.event_id,
            public_key: self.public_key@,
            vote_code: self.vote_code,
            voter_node_id: self.voter_node_id@,
        }
    }
}

} // verus!
