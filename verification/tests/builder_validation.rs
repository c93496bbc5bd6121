use admin_event_store::builders::{
    CircuitProposalBuilder, ProposedCircuitBuilder, ProposedNodeBuilder, ProposedServiceBuilder,
};
use admin_event_store::codes::{
    AuthorizationType, DurabilityType, PersistenceType, ProposalType, RouteType,
};
use admin_event_store::domain::ServiceArgument;
use admin_event_store::EventStoreError;

fn s(x: &str) -> String {
    x.to_string()
}

fn full_circuit_builder() -> ProposedCircuitBuilder {
    ProposedCircuitBuilder::new()
        .with_circuit_id(s("circuit-01"))
        .with_authorization_type(AuthorizationType::Trust)
        .with_persistence(PersistenceType::Any)
        .with_durability(DurabilityType::NoDurability)
        .with_routes(RouteType::Any)
        .with_circuit_management_type(s("mgmt"))
}

#[test]
fn service_builder_requires_identity_fields() {
    let missing_node = ProposedServiceBuilder::new()
        .with_service_id(s("A"))
        .with_service_type(s("scabbard"));
    assert_eq!(missing_node.build().unwrap_err(), EventStoreError::InvalidStateError);

    let missing_id = ProposedServiceBuilder::new()
        .with_service_type(s("scabbard"))
        .with_node_id(s("node-a"));
    assert_eq!(missing_id.build().unwrap_err(), EventStoreError::InvalidStateError);
}

#[test]
fn service_builder_arguments_default_to_empty() {
    let service = ProposedServiceBuilder::new()
        .with_service_id(s("A"))
        .with_service_type(s("scabbard"))
        .with_node_id(s("node-a"))
        .build()
        .unwrap();
    assert_eq!(service.service_id, "A");
    assert_eq!(service.arguments.len(), 0);

    let with_args = ProposedServiceBuilder::new()
        .with_service_id(s("A"))
        .with_service_type(s("scabbard"))
        .with_node_id(s("node-a"))
        .with_arguments(vec![ServiceArgument { key: s("k"), value: s("v") }])
        .build()
        .unwrap();
    assert_eq!(with_args.arguments.len(), 1);
    assert_eq!(with_args.arguments[0].key, "k");
}

#[test]
fn node_builder_requires_id_and_endpoints() {
    let missing_endpoints = ProposedNodeBuilder::new().with_node_id(s("node-a"));
    assert_eq!(missing_endpoints.build().unwrap_err(), EventStoreError::InvalidStateError);

    let missing_id = ProposedNodeBuilder::new().with_endpoints(vec![s("tcp://h:1")]);
    assert_eq!(missing_id.build().unwrap_err(), EventStoreError::InvalidStateError);

    let node = ProposedNodeBuilder::new()
        .with_node_id(s("node-a"))
        .with_endpoints(vec![s("tcp://h:1"), s("tcp://h:2")])
        .build()
        .unwrap();
    assert_eq!(node.node_id, "node-a");
    assert_eq!(node.endpoints, vec![s("tcp://h:1"), s("tcp://h:2")]);
}

#[test]
fn circuit_builder_requires_every_policy_field() {
    let missing_routes = ProposedCircuitBuilder::new()
        .with_circuit_id(s("circuit-01"))
        .with_authorization_type(AuthorizationType::Trust)
        .with_persistence(PersistenceType::Any)
        .with_durability(DurabilityType::NoDurability)
        .with_circuit_management_type(s("mgmt"));
    assert_eq!(missing_routes.build().unwrap_err(), EventStoreError::InvalidStateError);

    let circuit = full_circuit_builder().build().unwrap();
    assert_eq!(circuit.circuit_id, "circuit-01");
    assert_eq!(circuit.roster.len(), 0);
    assert_eq!(circuit.members.len(), 0);
    assert!(circuit.application_metadata.is_none());
}

#[test]
fn proposal_builder_requires_circuit() {
    let missing_circuit = CircuitProposalBuilder::new()
        .with_proposal_type(ProposalType::Create)
        .with_circuit_id(s("circuit-01"))
        .with_circuit_hash(s("hash"))
        .with_requester(s("req"))
        .with_requester_node_id(s("node-a"));
    assert_eq!(missing_circuit.build().unwrap_err(), EventStoreError::InvalidStateError);

    let circuit = full_circuit_builder().build().unwrap();
    let proposal = CircuitProposalBuilder::new()
        .with_proposal_type(ProposalType::Create)
        .with_circuit_id(s("circuit-01"))
        .with_circuit_hash(s("hash"))
        .with_requester(s("req"))
        .with_requester_node_id(s("node-a"))
        .with_circuit(circuit)
        .build()
        .unwrap();
    assert_eq!(proposal.proposal_type, ProposalType::Create);
    assert_eq!(proposal.votes.len(), 0);
}
