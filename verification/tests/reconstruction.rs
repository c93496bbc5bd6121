use admin_event_store::codes::{EventType, ProposalType, Vote};
use admin_event_store::rows::{
    CircuitProposalRow, EventRow, NodeEndpointRow, ProposedCircuitRow, ProposedNodeRow,
    ProposedServiceRow, ServiceArgumentRow, VoteRecordRow,
};
use admin_event_store::store::EventStore;
use admin_event_store::EventStoreError;

fn s(x: &str) -> String {
    x.to_string()
}

fn empty_store() -> EventStore {
    EventStore {
        events: vec![],
        circuit_proposals: vec![],
        proposed_circuits: vec![],
        proposed_services: vec![],
        service_arguments: vec![],
        proposed_nodes: vec![],
        node_endpoints: vec![],
        vote_records: vec![],
    }
}

fn event_row(id: i64) -> EventRow {
    EventRow { id, event_type_code: 1, timestamp: 1000 + id }
}

fn proposal_row(event_id: i64) -> CircuitProposalRow {
    CircuitProposalRow {
        event_id,
        proposal_type_code: 1,
        circuit_id: s("circuit-01"),
        circuit_hash: s("hash-01"),
        requester: s("requester-key"),
        requester_node_id: s("node-a"),
    }
}

fn circuit_row(event_id: i64) -> ProposedCircuitRow {
    ProposedCircuitRow {
        event_id,
        circuit_id: s("circuit-01"),
        authorization_code: 1,
        persistence_code: 1,
        durability_code: 1,
        route_code: 1,
        circuit_management_type: s("test-mgmt"),
        application_metadata: None,
        comments: None,
        display_name: None,
    }
}

/// One event with a full record: used as the base of several scenarios.
fn complete_store(event_id: i64) -> EventStore {
    let mut store = empty_store();
    store.events.push(event_row(event_id));
    store.circuit_proposals.push(proposal_row(event_id));
    store.proposed_circuits.push(circuit_row(event_id));
    store
}

#[test]
fn round_trip_seeded_store() {
    let mut store = complete_store(7);
    store.proposed_services.push(ProposedServiceRow {
        event_id: 7,
        service_id: s("A"),
        service_type: s("scabbard"),
        node_id: s("node-a"),
    });
    store.proposed_services.push(ProposedServiceRow {
        event_id: 7,
        service_id: s("B"),
        service_type: s("scabbard"),
        node_id: s("node-b"),
    });
    store.service_arguments.push(ServiceArgumentRow {
        event_id: 7,
        service_id: s("A"),
        key: s("peer_services"),
        value: s("[\"B\"]"),
    });
    store.service_arguments.push(ServiceArgumentRow {
        event_id: 7,
        service_id: s("A"),
        key: s("admin_keys"),
        value: s("[\"key\"]"),
    });
    store.proposed_nodes.push(ProposedNodeRow { event_id: 7, node_id: s("node-a") });
    store.node_endpoints.push(NodeEndpointRow {
        event_id: 7,
        node_id: s("node-a"),
        endpoint: s("tcp://10.0.0.1:8000"),
    });
    store.node_endpoints.push(NodeEndpointRow {
        event_id: 7,
        node_id: s("node-a"),
        endpoint: s("tcp://10.0.0.1:8001"),
    });
    store.node_endpoints.push(NodeEndpointRow {
        event_id: 7,
        node_id: s("node-a"),
        endpoint: s("tcp://10.0.0.1:8002"),
    });
    store.vote_records.push(VoteRecordRow {
        event_id: 7,
        public_key: s("voter-one"),
        vote_code: 1,
        voter_node_id: s("node-b"),
    });
    store.vote_records.push(VoteRecordRow {
        event_id: 7,
        public_key: s("voter-two"),
        vote_code: 2,
        voter_node_id: s("node-c"),
    });

    let events = store.list_events(vec![7]).unwrap();
    assert_eq!(events.len(), 1);
    let event = &events[0];
    assert_eq!(event.event_id, 7);
    assert_eq!(event.event_type, EventType::ProposalSubmitted);
    assert_eq!(event.timestamp, 1007);

    let proposal = &event.proposal;
    assert_eq!(proposal.proposal_type, ProposalType::Create);
    assert_eq!(proposal.circuit_id, "circuit-01");
    assert_eq!(proposal.circuit_hash, "hash-01");
    assert_eq!(proposal.requester, "requester-key");
    assert_eq!(proposal.requester_node_id, "node-a");

    let circuit = &proposal.circuit;
    assert_eq!(circuit.roster.len(), 2);
    let service_a = circuit.roster.iter().find(|x| x.service_id == "A").unwrap();
    assert_eq!(service_a.arguments.len(), 2);
    assert_eq!(service_a.arguments[0].key, "peer_services");
    assert_eq!(service_a.arguments[0].value, "[\"B\"]");
    assert_eq!(service_a.arguments[1].key, "admin_keys");
    let service_b = circuit.roster.iter().find(|x| x.service_id == "B").unwrap();
    assert_eq!(service_b.arguments.len(), 0);

    assert_eq!(circuit.members.len(), 1);
    assert_eq!(circuit.members[0].node_id, "node-a");
    assert_eq!(circuit.members[0].endpoints.len(), 3);
    assert_eq!(circuit.members[0].endpoints[0], "tcp://10.0.0.1:8000");
    assert_eq!(circuit.members[0].endpoints[2], "tcp://10.0.0.1:8002");

    assert_eq!(proposal.votes.len(), 2);
    assert_eq!(proposal.votes[0].public_key, "voter-one");
    assert_eq!(proposal.votes[0].vote, Vote::Accept);
    assert_eq!(proposal.votes[1].vote, Vote::Reject);
}

#[test]
fn empty_identifier_set_returns_empty() {
    let store = complete_store(1);
    let events = store.list_events(vec![]).unwrap();
    assert!(events.is_empty());
}

#[test]
fn unknown_identifiers_return_empty_not_error() {
    let store = complete_store(1);
    let events = store.list_events(vec![41, 42]).unwrap();
    assert!(events.is_empty());
}

#[test]
fn invalid_route_code_fails_whole_call() {
    // two requested events; only one has the bad code, yet nothing is
    // returned
    let mut store = complete_store(1);
    store.events.push(event_row(2));
    store.circuit_proposals.push(proposal_row(2));
    let mut bad = circuit_row(2);
    bad.route_code = 99;
    store.proposed_circuits.push(bad);
    let result = store.list_events(vec![1, 2]);
    assert_eq!(result.unwrap_err(), EventStoreError::ConversionError);
    // the same store answers for the good identifier alone
    let events = store.list_events(vec![1]).unwrap();
    assert_eq!(events.len(), 1);
}

#[test]
fn invalid_authorization_code_fails_whole_call() {
    let mut store = complete_store(5);
    store.proposed_circuits[0].authorization_code = 0;
    let result = store.list_events(vec![5]);
    assert_eq!(result.unwrap_err(), EventStoreError::ConversionError);
}

#[test]
fn invalid_vote_code_is_structural_error() {
    let mut store = complete_store(3);
    store.vote_records.push(VoteRecordRow {
        event_id: 3,
        public_key: s("voter"),
        vote_code: 9,
        voter_node_id: s("node-z"),
    });
    let result = store.list_events(vec![3]);
    assert_eq!(result.unwrap_err(), EventStoreError::InvalidStateError);
}

#[test]
fn invalid_event_type_code_is_conversion_error() {
    let mut store = complete_store(4);
    store.events[0].event_type_code = 77;
    let result = store.list_events(vec![4]);
    assert_eq!(result.unwrap_err(), EventStoreError::ConversionError);
}

#[test]
fn duplicate_argument_rows_are_all_kept() {
    let mut store = complete_store(2);
    store.proposed_services.push(ProposedServiceRow {
        event_id: 2,
        service_id: s("svc"),
        service_type: s("scabbard"),
        node_id: s("node-a"),
    });
    for _ in 0..3 {
        store.service_arguments.push(ServiceArgumentRow {
            event_id: 2,
            service_id: s("svc"),
            key: s("k"),
            value: s("v"),
        });
    }
    let events = store.list_events(vec![2]).unwrap();
    let roster = &events[0].proposal.circuit.roster;
    assert_eq!(roster.len(), 1);
    assert_eq!(roster[0].arguments.len(), 3);
}

#[test]
fn argument_of_other_service_is_not_attached() {
    let mut store = complete_store(2);
    store.proposed_services.push(ProposedServiceRow {
        event_id: 2,
        service_id: s("svc"),
        service_type: s("scabbard"),
        node_id: s("node-a"),
    });
    store.service_arguments.push(ServiceArgumentRow {
        event_id: 2,
        service_id: s("other"),
        key: s("k"),
        value: s("v"),
    });
    store.service_arguments.push(ServiceArgumentRow {
        event_id: 99,
        service_id: s("svc"),
        key: s("k"),
        value: s("v"),
    });
    let events = store.list_events(vec![2]).unwrap();
    let roster = &events[0].proposal.circuit.roster;
    assert_eq!(roster.len(), 1);
    assert_eq!(roster[0].arguments.len(), 0);
}

#[test]
fn single_endpoint_row_gives_single_endpoint() {
    let mut store = complete_store(6);
    store.proposed_nodes.push(ProposedNodeRow { event_id: 6, node_id: s("node-a") });
    store.node_endpoints.push(NodeEndpointRow {
        event_id: 6,
        node_id: s("node-a"),
        endpoint: s("tcp://127.0.0.1:9000"),
    });
    let events = store.list_events(vec![6]).unwrap();
    let members = &events[0].proposal.circuit.members;
    assert_eq!(members.len(), 1);
    assert_eq!(members[0].endpoints.len(), 1);
    assert_eq!(members[0].endpoints[0], "tcp://127.0.0.1:9000");
}

#[test]
fn node_without_endpoint_rows_is_omitted() {
    let mut store = complete_store(6);
    store.proposed_nodes.push(ProposedNodeRow { event_id: 6, node_id: s("node-a") });
    let events = store.list_events(vec![6]).unwrap();
    assert_eq!(events[0].proposal.circuit.members.len(), 0);
}

#[test]
fn duplicate_node_rows_are_merged() {
    let mut store = complete_store(6);
    store.proposed_nodes.push(ProposedNodeRow { event_id: 6, node_id: s("node-a") });
    store.proposed_nodes.push(ProposedNodeRow { event_id: 6, node_id: s("node-a") });
    store.node_endpoints.push(NodeEndpointRow {
        event_id: 6,
        node_id: s("node-a"),
        endpoint: s("tcp://127.0.0.1:9000"),
    });
    store.node_endpoints.push(NodeEndpointRow {
        event_id: 6,
        node_id: s("node-a"),
        endpoint: s("tcp://127.0.0.1:9001"),
    });
    let events = store.list_events(vec![6]).unwrap();
    let members = &events[0].proposal.circuit.members;
    assert_eq!(members.len(), 1);
    assert_eq!(members[0].endpoints.len(), 2);
}

#[test]
fn results_sorted_ascending_by_event_id() {
    let mut store = empty_store();
    for id in [9i64, 3, 5] {
        store.events.push(event_row(id));
        store.circuit_proposals.push(proposal_row(id));
        store.proposed_circuits.push(circuit_row(id));
    }
    let events = store.list_events(vec![5, 9, 3]).unwrap();
    let ids: Vec<i64> = events.iter().map(|e| e.event_id).collect();
    assert_eq!(ids, vec![3, 5, 9]);
}

#[test]
fn duplicate_requested_identifiers_give_one_event() {
    let store = complete_store(8);
    let events = store.list_events(vec![8, 8, 8]).unwrap();
    assert_eq!(events.len(), 1);
}

#[test]
fn event_missing_proposal_row_is_silently_omitted() {
    let mut store = complete_store(1);
    store.events.push(event_row(2));
    store.proposed_circuits.push(circuit_row(2));
    // event 2 has no circuit-proposal row, so only event 1 comes back
    let events = store.list_events(vec![1, 2]).unwrap();
    assert_eq!(events.len(), 1);
    assert_eq!(events[0].event_id, 1);
}

#[test]
fn event_missing_circuit_row_is_silently_omitted() {
    let mut store = complete_store(1);
    store.events.push(event_row(2));
    store.circuit_proposals.push(proposal_row(2));
    let events = store.list_events(vec![1, 2]).unwrap();
    assert_eq!(events.len(), 1);
    assert_eq!(events[0].event_id, 1);
}

#[test]
fn repeated_calls_return_identical_content() {
    let mut store = complete_store(11);
    store.events.push(event_row(12));
    store.circuit_proposals.push(proposal_row(12));
    store.proposed_circuits.push(circuit_row(12));
    let first = store.list_events(vec![12, 11]).unwrap();
    let second = store.list_events(vec![12, 11]).unwrap();
    assert_eq!(first.len(), second.len());
    for (a, b) in first.iter().zip(second.iter()) {
        assert_eq!(a.event_id, b.event_id);
        assert_eq!(a.event_type, b.event_type);
        assert_eq!(a.proposal.circuit_id, b.proposal.circuit_id);
        assert_eq!(a.proposal.circuit.roster.len(), b.proposal.circuit.roster.len());
        assert_eq!(a.proposal.circuit.members.len(), b.proposal.circuit.members.len());
        assert_eq!(a.proposal.votes.len(), b.proposal.votes.len());
    }
}

#[test]
fn optional_circuit_fields_carry_through() {
    let mut store = complete_store(1);
    store.proposed_circuits[0].application_metadata = Some(vec![1, 2, 3]);
    store.proposed_circuits[0].comments = Some(s("a comment"));
    store.proposed_circuits[0].display_name = Some(s("shown"));
    let events = store.list_events(vec![1]).unwrap();
    let circuit = &events[0].proposal.circuit;
    assert_eq!(circuit.application_metadata.as_deref(), Some(&[1u8, 2, 3][..]));
    assert_eq!(circuit.comments.as_deref(), Some("a comment"));
    assert_eq!(circuit.display_name.as_deref(), Some("shown"));
}

#[test]
fn rows_of_unrequested_events_are_ignored() {
    let mut store = complete_store(1);
    store.events.push(event_row(2));
    store.circuit_proposals.push(proposal_row(2));
    store.proposed_circuits.push(circuit_row(2));
    // a bad vote row for event 2 does not disturb a call for event 1 only
    store.vote_records.push(VoteRecordRow {
        event_id: 2,
        public_key: s("voter"),
        vote_code: 9,
        voter_node_id: s("node-z"),
    });
    let events = store.list_events(vec![1]).unwrap();
    assert_eq!(events.len(), 1);
    assert_eq!(events[0].proposal.votes.len(), 0);
}
