//! The executable reconstruction pipeline.
//!
//! An [`EventStore`] value holds the snapshot of the eight related tables
//! that one transactional read scope observes. [`EventStore::list_events`]
//! runs the five reconstruction stages over that snapshot and is proved to
//! return exactly what [`crate::model::spec_list_events`] states.

use vstd::prelude::*;

use crate::builders::{CircuitProposalBuilder, ProposedCircuitBuilder, ProposedNodeBuilder, ProposedServiceBuilder};
use crate::codes::{
    decode_authorization_type, decode_durability_type, decode_event_type, decode_persistence_type,
    decode_proposal_type, decode_route_type, decode_vote,
};
use crate::domain::{
    clone_bytes, view_args, view_events, view_services, view_strings, view_nodes,
    view_votes, AdminServiceEvent, ProposedNode, ProposedService, ServiceArgument,
    SpecAdminServiceEvent, SpecProposedNode, SpecProposedService, SpecServiceArgument,
    SpecVoteRecord, VoteRecord,
};
use crate::model::{
    find_circuit_row, find_proposal_row, lemma_assemble_err_persists, lemma_insert_position,
    lemma_seeds_err_persists,
    lemma_votes_err_persists, node_key_in, service_key_in, spec_args_for, spec_assemble,
    spec_assemble_one, spec_endpoints_for, spec_insert_by_id, spec_list_events, spec_node_groups,
    spec_seed_builders, spec_seeds, spec_service_groups, spec_sort_events, spec_vote_groups,
    spec_votes_for, spec_members_for, spec_roster_for, SpecSeed, SpecStore,
};
use crate::rows::{
    CircuitProposalRow, EventRow, NodeEndpointRow, ProposedCircuitRow, ProposedNodeRow,
    ProposedServiceRow, ServiceArgumentRow, VoteRecordRow,
};
use crate::EventStoreError;

verus! {

/// The snapshot of the stored tables a reconstruction call reads. The
/// caller fills it from one consistent transactional read scope; within the
/// call it stands for that point-in-time view.
pub struct EventStore {
    pub events: Vec<EventRow>,
    pub circuit_proposals: Vec<CircuitProposalRow>,
    pub proposed_circuits: Vec<ProposedCircuitRow>,
    pub proposed_services: Vec<ProposedServiceRow>,
    pub service_arguments: Vec<ServiceArgumentRow>,
    pub proposed_nodes: Vec<ProposedNodeRow>,
    pub node_endpoints: Vec<NodeEndpointRow>,
    pub vote_records: Vec<VoteRecordRow>,
}

impl View for EventStore {
    type V = SpecStore;

    open spec fn view(&self) -> SpecStore {
        SpecStore {
            events: self.events@,
            circuit_proposals: self.circuit_proposals@.map(|i: int, r: CircuitProposalRow| r@),
            proposed_circuits: self.proposed_circuits@.map(|i: int, r: ProposedCircuitRow| r@),
            proposed_services: self.proposed_services@.map(|i: int, r: ProposedServiceRow| r@),
            service_arguments: self.service_arguments@.map(|i: int, r: ServiceArgumentRow| r@),
            proposed_nodes: self.proposed_nodes@.map(|i: int, r: ProposedNodeRow| r@),
            node_endpoints: self.node_endpoints@.map(|i: int, r: NodeEndpointRow| r@),
            vote_records: self.vote_records@.map(|i: int, r: VoteRecordRow| r@),
        }
    }
}

/// One seeded event: the base row and the two builders the primary join
/// filled for it.
pub struct Seed {
    pub event: EventRow,
    pub proposal: CircuitProposalBuilder,
    pub circuit: ProposedCircuitBuilder,
}

impl View for Seed {
    type V = SpecSeed;

    open spec fn view(&self) -> SpecSeed {
        SpecSeed { event: self.event, proposal: self.proposal@, circuit: self.circuit@ }
    }
}

pub open spec fn view_seeds(v: Seq<Seed>) -> Seq<SpecSeed> {
    v.map(|i: int, s: Seed| s@)
}

pub open spec fn view_service_groups(v: Seq<(i64, ProposedService)>) -> Seq<
    (i64, SpecProposedService),
> {
    v.map(|i: int, t: (i64, ProposedService)| (t.0, t.1@))
}

pub open spec fn view_node_groups(v: Seq<(i64, ProposedNode)>) -> Seq<(i64, SpecProposedNode)> {
    v.map(|i: int, t: (i64, ProposedNode)| (t.0, t.1@))
}

pub open spec fn view_vote_groups(v: Seq<(i64, VoteRecord)>) -> Seq<(i64, SpecVoteRecord)> {
    v.map(|i: int, t: (i64, VoteRecord)| (t.0, t.1@))
}

/// Whether the requested identifier set contains the given identifier.
fn contains_id(ids: &Vec<i64>, id: i64) -> (r: bool)
    ensures
        r == ids@.contains(id),
{
    let mut i: usize = 0;
    while i < ids.len()
        invariant
            i <= ids.len(),
            forall|j: int| 0 <= j < i ==> ids@[j] != id,
        decreases ids.len() - i,
    {
        if ids[i] == id {
            return true;
        }
        i += 1;
    }
    false
}

impl EventStore {
    /// Index of the first circuit-proposal row of the given event, if any.
    fn find_proposal(&self, id: i64) -> (r: Option<usize>)
        ensures
            match r {
                Some(i) => i < self.circuit_proposals@.len() && find_proposal_row(
                    self@.circuit_proposals,
                    id,
                ) == Some(self.circuit_proposals@[i as int]@),
                None => find_proposal_row(self@.circuit_proposals, id) is None,
            },
    {
        let ghost rows = self@.circuit_proposals;
        proof {
            assert(rows.skip(0) =~= rows);
        }
        let mut i: usize = 0;
        while i < self.circuit_proposals.len()
            invariant
                i <= self.circuit_proposals@.len(),
                rows == self@.circuit_proposals,
                find_proposal_row(rows, id) == find_proposal_row(rows.skip(i as int), id),
            decreases self.circuit_proposals@.len() - i,
        {
            proof {
                assert(rows.skip(i as int)[0] == rows[i as int]);
            }
            if self.circuit_proposals[i].event_id == id {
                return Some(i);
            }
            proof {
                assert(rows.skip(i as int).skip(1) =~= rows.skip(i as int + 1));
            }
            i += 1;
        }
        proof {
            assert(rows.skip(i as int).len() == 0);
        }
        None
    }

    /// Index of the first proposed-circuit row of the given event, if any.
    fn find_circuit(&self, id: i64) -> (r: Option<usize>)
        ensures
            match r {
                Some(i) => i < self.proposed_circuits@.len() && find_circuit_row(
                    self@.proposed_circuits,
                    id,
                ) == Some(self.proposed_circuits@[i as int]@),
                None => find_circuit_row(self@.proposed_circuits, id) is None,
            },
    {
        let ghost rows = self@.proposed_circuits;
        proof {
            assert(rows.skip(0) =~= rows);
        }
        let mut i: usize = 0;
        while i < self.proposed_circuits.len()
            invariant
                i <= self.proposed_circuits@.len(),
                rows == self@.proposed_circuits,
                find_circuit_row(rows, id) == find_circuit_row(rows.skip(i as int), id),
            decreases self.proposed_circuits@.len() - i,
        {
            proof {
                assert(rows.skip(i as int)[0] == rows[i as int]);
            }
            if self.proposed_circuits[i].event_id == id {
                return Some(i);
            }
            proof {
                assert(rows.skip(i as int).skip(1) =~= rows.skip(i as int + 1));
            }
            i += 1;
        }
        proof {
            assert(rows.skip(i as int).len() == 0);
        }
        None
    }

    /// Stage 1: runs the primary join over the snapshot and seeds one
    /// builder pair per requested event that has both one-to-one child
    /// rows; a failed enumeration decode aborts with a conversion error.
    fn collect_seeds(&self, ids: &Vec<i64>) -> (r: Result<Vec<Seed>, EventStoreError>)
        ensures
            match r {
                Ok(v) => spec_seeds(
                    self@.events,
                    self@.circuit_proposals,
                    self@.proposed_circuits,
                    ids@,
                ) == Ok::<Seq<SpecSeed>, EventStoreError>(view_seeds(v@)),
                Err(e) => spec_seeds(
                    self@.events,
                    self@.circuit_proposals,
                    self@.proposed_circuits,
                    ids@,
                ) == Err::<Seq<SpecSeed>, EventStoreError>(e),
            },
    {
        let ghost evs = self@.events;
        let ghost props = self@.circuit_proposals;
        let ghost circs = self@.proposed_circuits;
        let mut seeds: Vec<Seed> = Vec::new();
        proof {
            assert(evs.take(0) =~= Seq::<EventRow>::empty());
            assert(view_seeds(seeds@) =~= Seq::<SpecSeed>::empty());
        }
        let mut i: usize = 0;
        while i < self.events.len()
            invariant
                i <= self.events@.len(),
                evs == self@.events,
                props == self@.circuit_proposals,
                circs == self@.proposed_circuits,
                spec_seeds(evs.take(i as int), props, circs, ids@) == Ok::<
                    Seq<SpecSeed>,
                    EventStoreError,
                >(view_seeds(seeds@)),
            decreases self.events@.len() - i,
        {
            proof {
                assert(evs.take(i as int + 1).drop_last() =~= evs.take(i as int));
                assert(evs.take(i as int + 1).last() == evs[i as int]);
            }
            let ev = self.events[i];
            if contains_id(ids, ev.id) {
                let popt = self.find_proposal(ev.id);
                let copt = self.find_circuit(ev.id);
                match (popt, copt) {
                    (Some(pi), Some(ci)) => {
                        let pt = decode_proposal_type(self.circuit_proposals[pi].proposal_type_code);
                        let auth = decode_authorization_type(
                            self.proposed_circuits[ci].authorization_code,
                        );
                        let pers = decode_persistence_type(
                            self.proposed_circuits[ci].persistence_code,
                        );
                        let dur = decode_durability_type(self.proposed_circuits[ci].durability_code);
                        let rt = decode_route_type(self.proposed_circuits[ci].route_code);
                        match (pt, auth, pers, dur, rt) {
                            (Some(pt), Some(auth), Some(pers), Some(dur), Some(rt)) => {
                                let p = &self.circuit_proposals[pi];
                                let c = &self.proposed_circuits[ci];
                                let proposal = CircuitProposalBuilder::new()
                                    .with_proposal_type(pt)
                                    .with_circuit_id(p.circuit_id.clone())
                                    .with_circuit_hash(p.circuit_hash.clone())
                                    .with_requester(p.requester.clone())
                                    .with_requester_node_id(p.requester_node_id.clone());
                                let mut circuit = ProposedCircuitBuilder::new()
                                    .with_circuit_id(c.circuit_id.clone())
                                    .with_authorization_type(auth)
                                    .with_persistence(pers)
                                    .with_durability(dur)
                                    .with_routes(rt)
                                    .with_circuit_management_type(
                                        c.circuit_management_type.clone(),
                                    );
                                if let Some(metadata) = &c.application_metadata {
                                    circuit = circuit.with_application_metadata(
                                        clone_bytes(metadata),
                                    );
                                }
                                if let Some(comments) = &c.comments {
                                    circuit = circuit.with_comments(comments.clone());
                                }
                                if let Some(display_name) = &c.display_name {
                                    circuit = circuit.with_display_name(display_name.clone());
                                }
                                let seed = Seed { event: ev, proposal, circuit };
                                proof {
                                    let bs = spec_seed_builders(p@, c@).unwrap();
                                    assert(seed@.proposal =~~= bs.0);
                                    assert(seed@.circuit =~~= bs.1);
                                    assert(view_seeds(seeds@.push(seed)) =~= view_seeds(
                                        seeds@,
                                    ).push(seed@));
                                }
                                seeds.push(seed);
                            },
                            _ => {
                                proof {
                                    assert(spec_seeds(evs.take(i as int + 1), props, circs, ids@)
                                        == Err::<Seq<SpecSeed>, EventStoreError>(
                                        EventStoreError::ConversionError,
                                    ));
                                    lemma_seeds_err_persists(evs, props, circs, ids@, i as int + 1);
                                }
                                return Err(EventStoreError::ConversionError);
                            },
                        }
                    },
                    _ => {},
                }
            }
            i += 1;
        }
        proof {
            assert(evs.take(evs.len() as int) =~= evs);
        }
        Ok(seeds)
    }

    /// All argument rows of one (event, service) key, in table order.
    fn args_for(&self, event_id: i64, service_id: &String) -> (r: Vec<ServiceArgument>)
        ensures
            view_args(r@) == spec_args_for(self@.service_arguments, event_id, service_id@),
    {
        let ghost arows = self@.service_arguments;
        let mut out: Vec<ServiceArgument> = Vec::new();
        proof {
            assert(arows.take(0) =~= Seq::<crate::rows::SpecServiceArgumentRow>::empty());
            assert(view_args(out@) =~= Seq::<SpecServiceArgument>::empty());
        }
        let mut i: usize = 0;
        while i < self.service_arguments.len()
            invariant
                i <= self.service_arguments@.len(),
                arows == self@.service_arguments,
                view_args(out@) == spec_args_for(arows.take(i as int), event_id, service_id@),
            decreases self.service_arguments@.len() - i,
        {
            proof {
                assert(arows.take(i as int + 1).drop_last() =~= arows.take(i as int));
                assert(arows.take(i as int + 1).last() == arows[i as int]);
            }
            let a = &self.service_arguments[i];
            if a.event_id == event_id && a.service_id == *service_id {
                let arg = ServiceArgument { key: a.key.clone(), value: a.value.clone() };
                proof {
                    assert(view_args(out@.push(arg)) =~= view_args(out@).push(arg@));
                }
                out.push(arg);
            }
            i += 1;
        }
        proof {
            assert(arows.take(arows.len() as int) =~= arows);
        }
        out
    }

    /// Stage 2: folds the service/argument left join into one finished
    /// service per requested (event, service) key, merging duplicate
    /// service rows by first occurrence.
    fn collect_services(&self, ids: &Vec<i64>) -> (r: Result<
        Vec<(i64, ProposedService)>,
        EventStoreError,
    >)
        ensures
            match r {
                Ok(v) => view_service_groups(v@) == spec_service_groups(
                    self@.proposed_services,
                    self@.service_arguments,
                    ids@,
                ),
                Err(_) => false,
            },
    {
        let ghost srows = self@.proposed_services;
        let ghost arows = self@.service_arguments;
        let mut out: Vec<(i64, ProposedService)> = Vec::new();
        proof {
            assert(srows.take(0) =~= Seq::<crate::rows::SpecProposedServiceRow>::empty());
            assert(view_service_groups(out@) =~= Seq::<(i64, SpecProposedService)>::empty());
        }
        let mut i: usize = 0;
        while i < self.proposed_services.len()
            invariant
                i <= self.proposed_services@.len(),
                srows == self@.proposed_services,
                arows == self@.service_arguments,
                view_service_groups(out@) == spec_service_groups(srows.take(i as int), arows, ids@),
            decreases self.proposed_services@.len() - i,
        {
            proof {
                assert(srows.take(i as int + 1).drop_last() =~= srows.take(i as int));
                assert(srows.take(i as int + 1).last() == srows[i as int]);
            }
            let row = &self.proposed_services[i];
            if contains_id(ids, row.event_id) && !service_groups_contains(
                &out,
                row.event_id,
                &row.service_id,
            ) {
                let args = self.args_for(row.event_id, &row.service_id);
                let has_args = args.len() > 0;
                let mut builder = ProposedServiceBuilder::new()
                    .with_service_id(row.service_id.clone())
                    .with_service_type(row.service_type.clone())
                    .with_node_id(row.node_id.clone());
                if has_args {
                    builder = builder.with_arguments(args);
                }
                match builder.build() {
                    Ok(service) => {
                        proof {
                            assert(service@ =~~= (SpecProposedService {
                                service_id: srows[i as int].service_id,
                                service_type: srows[i as int].service_type,
                                node_id: srows[i as int].node_id,
                                arguments: spec_args_for(
                                    arows,
                                    srows[i as int].event_id,
                                    srows[i as int].service_id,
                                ),
                            }));
                            assert(view_service_groups(out@.push((row.event_id, service)))
                                =~= view_service_groups(out@).push(
                                (srows[i as int].event_id, service@),
                            ));
                        }
                        out.push((row.event_id, service));
                    },
                    Err(_) => {
                        return Err(EventStoreError::InvalidStateError);
                    },
                }
            }
            i += 1;
        }
        proof {
            assert(srows.take(srows.len() as int) =~= srows);
        }
        Ok(out)
    }

    /// All endpoint rows of one (event, node) key, in table order.
    fn endpoints_for(&self, event_id: i64, node_id: &String) -> (r: Vec<String>)
        ensures
            view_strings(r@) == spec_endpoints_for(self@.node_endpoints, event_id, node_id@),
    {
        let ghost erows = self@.node_endpoints;
        let mut out: Vec<String> = Vec::new();
        proof {
            assert(erows.take(0) =~= Seq::<crate::rows::SpecNodeEndpointRow>::empty());
            assert(view_strings(out@) =~= Seq::<Seq<char>>::empty());
        }
        let mut i: usize = 0;
        while i < self.node_endpoints.len()
            invariant
                i <= self.node_endpoints@.len(),
                erows == self@.node_endpoints,
                view_strings(out@) == spec_endpoints_for(erows.take(i as int), event_id, node_id@),
            decreases self.node_endpoints@.len() - i,
        {
            proof {
                assert(erows.take(i as int + 1).drop_last() =~= erows.take(i as int));
                assert(erows.take(i as int + 1).last() == erows[i as int]);
            }
            let e = &self.node_endpoints[i];
            if e.event_id == event_id && e.node_id == *node_id {
                let endpoint = e.endpoint.clone();
                proof {
                    assert(view_strings(out@.push(endpoint)) =~= view_strings(out@).push(
                        endpoint@,
                    ));
                }
                out.push(endpoint);
            }
            i += 1;
        }
        proof {
            assert(erows.take(erows.len() as int) =~= erows);
        }
        out
    }

    /// Stage 3: folds the node/endpoint inner join into one finished node
    /// per requested (event, node) key that has at least one endpoint row.
    fn collect_nodes(&self, ids: &Vec<i64>) -> (r: Result<
        Vec<(i64, ProposedNode)>,
        EventStoreError,
    >)
        ensures
            match r {
                Ok(v) => view_node_groups(v@) == spec_node_groups(
                    self@.proposed_nodes,
                    self@.node_endpoints,
                    ids@,
                ),
                Err(_) => false,
            },
    {
        let ghost nrows = self@.proposed_nodes;
        let ghost erows = self@.node_endpoints;
        let mut out: Vec<(i64, ProposedNode)> = Vec::new();
        proof {
            assert(nrows.take(0) =~= Seq::<crate::rows::SpecProposedNodeRow>::empty());
            assert(view_node_groups(out@) =~= Seq::<(i64, SpecProposedNode)>::empty());
        }
        let mut i: usize = 0;
        while i < self.proposed_nodes.len()
            invariant
                i <= self.proposed_nodes@.len(),
                nrows == self@.proposed_nodes,
                erows == self@.node_endpoints,
                view_node_groups(out@) == spec_node_groups(nrows.take(i as int), erows, ids@),
            decreases self.proposed_nodes@.len() - i,
        {
            proof {
                assert(nrows.take(i as int + 1).drop_last() =~= nrows.take(i as int));
                assert(nrows.take(i as int + 1).last() == nrows[i as int]);
            }
            let row = &self.proposed_nodes[i];
            if contains_id(ids, row.event_id) {
                let endpoints = self.endpoints_for(row.event_id, &row.node_id);
                if endpoints.len() > 0 && !node_groups_contains(&out, row.event_id, &row.node_id) {
                    let builder = ProposedNodeBuilder::new()
                        .with_node_id(row.node_id.clone())
                        .with_endpoints(endpoints);
                    match builder.build() {
                        Ok(node) => {
                            proof {
                                assert(node@ =~~= (SpecProposedNode {
                                    node_id: nrows[i as int].node_id,
                                    endpoints: spec_endpoints_for(
                                        erows,
                                        nrows[i as int].event_id,
                                        nrows[i as int].node_id,
                                    ),
                                }));
                                assert(view_node_groups(out@.push((row.event_id, node)))
                                    =~= view_node_groups(out@).push(
                                    (nrows[i as int].event_id, node@),
                                ));
                            }
                            out.push((row.event_id, node));
                        },
                        Err(_) => {
                            return Err(EventStoreError::InvalidStateError);
                        },
                    }
                }
            }
            i += 1;
        }
        proof {
            assert(nrows.take(nrows.len() as int) =~= nrows);
        }
        Ok(out)
    }

    /// Stage 4: decodes and groups the vote rows of the requested events;
    /// an unrecognized vote code aborts with a structural error.
    fn collect_votes(&self, ids: &Vec<i64>) -> (r: Result<Vec<(i64, VoteRecord)>, EventStoreError>)
        ensures
            match r {
                Ok(v) => spec_vote_groups(self@.vote_records, ids@) == Ok::<
                    Seq<(i64, SpecVoteRecord)>,
                    EventStoreError,
                >(view_vote_groups(v@)),
                Err(e) => spec_vote_groups(self@.vote_records, ids@) == Err::<
                    Seq<(i64, SpecVoteRecord)>,
                    EventStoreError,
                >(e),
            },
    {
        let ghost vrows = self@.vote_records;
        let mut out: Vec<(i64, VoteRecord)> = Vec::new();
        proof {
            assert(vrows.take(0) =~= Seq::<crate::rows::SpecVoteRecordRow>::empty());
            assert(view_vote_groups(out@) =~= Seq::<(i64, SpecVoteRecord)>::empty());
        }
        let mut i: usize = 0;
        while i < self.vote_records.len()
            invariant
                i <= self.vote_records@.len(),
                vrows == self@.vote_records,
                spec_vote_groups(vrows.take(i as int), ids@) == Ok::<
                    Seq<(i64, SpecVoteRecord)>,
                    EventStoreError,
                >(view_vote_groups(out@)),
            decreases self.vote_records@.len() - i,
        {
            proof {
                assert(vrows.take(i as int + 1).drop_last() =~= vrows.take(i as int));
                assert(vrows.take(i as int + 1).last() == vrows[i as int]);
            }
            let row = &self.vote_records[i];
            if contains_id(ids, row.event_id) {
                match decode_vote(row.vote_code) {
                    Some(vote) => {
                        let rec = VoteRecord {
                            public_key: row.public_key.clone(),
                            vote,
                            voter_node_id: row.voter_node_id.clone(),
                        };
                        proof {
                            assert(view_vote_groups(out@.push((row.event_id, rec)))
                                =~= view_vote_groups(out@).push((vrows[i as int].event_id, rec@)));
                        }
                        out.push((row.event_id, rec));
                    },
                    None => {
                        proof {
                            lemma_votes_err_persists(vrows, ids@, i as int + 1);
                        }
                        return Err(EventStoreError::InvalidStateError);
                    },
                }
            }
            i += 1;
        }
        proof {
            assert(vrows.take(vrows.len() as int) =~= vrows);
        }
        Ok(out)
    }
}

/// The finished services grouped under one event, in group order.
fn roster_for(groups: &Vec<(i64, ProposedService)>, id: i64) -> (r: Vec<ProposedService>)
    ensures
        view_services(r@) == spec_roster_for(view_service_groups(groups@), id),
{
    let ghost gs = view_service_groups(groups@);
    let mut out: Vec<ProposedService> = Vec::new();
    proof {
        assert(gs.take(0) =~= Seq::<(i64, SpecProposedService)>::empty());
        assert(view_services(out@) =~= Seq::<SpecProposedService>::empty());
    }
    let mut j: usize = 0;
    while j < groups.len()
        invariant
            j <= groups@.len(),
            gs == view_service_groups(groups@),
            view_services(out@) == spec_roster_for(gs.take(j as int), id),
        decreases groups@.len() - j,
    {
        proof {
            assert(gs.take(j as int + 1).drop_last() =~= gs.take(j as int));
            assert(gs.take(j as int + 1).last() == gs[j as int]);
        }
        if groups[j].0 == id {
            let s = groups[j].1.clone();
            proof {
                assert(s@ == gs[j as int].1);
                assert(view_services(out@.push(s)) =~= view_services(out@).push(s@));
            }
            out.push(s);
        }
        j += 1;
    }
    proof {
        assert(gs.take(gs.len() as int) =~= gs);
    }
    out
}

/// The finished nodes grouped under one event, in group order.
fn members_for(groups: &Vec<(i64, ProposedNode)>, id: i64) -> (r: Vec<ProposedNode>)
    ensures
        view_nodes(r@) == spec_members_for(view_node_groups(groups@), id),
{
    let ghost gs = view_node_groups(groups@);
    let mut out: Vec<ProposedNode> = Vec::new();
    proof {
        assert(gs.take(0) =~= Seq::<(i64, SpecProposedNode)>::empty());
        assert(view_nodes(out@) =~= Seq::<SpecProposedNode>::empty());
    }
    let mut j: usize = 0;
    while j < groups.len()
        invariant
            j <= groups@.len(),
            gs == view_node_groups(groups@),
            view_nodes(out@) == spec_members_for(gs.take(j as int), id),
        decreases groups@.len() - j,
    {
        proof {
            assert(gs.take(j as int + 1).drop_last() =~= gs.take(j as int));
            assert(gs.take(j as int + 1).last() == gs[j as int]);
        }
        if groups[j].0 == id {
            let n = groups[j].1.clone();
            proof {
                assert(n@ == gs[j as int].1);
                assert(view_nodes(out@.push(n)) =~= view_nodes(out@).push(n@));
            }
            out.push(n);
        }
        j += 1;
    }
    proof {
        assert(gs.take(gs.len() as int) =~= gs);
    }
    out
}

/// The decoded votes grouped under one event, in group order.
fn votes_for(groups: &Vec<(i64, VoteRecord)>, id: i64) -> (r: Vec<VoteRecord>)
    ensures
        view_votes(r@) == spec_votes_for(view_vote_groups(groups@), id),
{
    let ghost gs = view_vote_groups(groups@);
    let mut out: Vec<VoteRecord> = Vec::new();
    proof {
        assert(gs.take(0) =~= Seq::<(i64, SpecVoteRecord)>::empty());
        assert(view_votes(out@) =~= Seq::<SpecVoteRecord>::empty());
    }
    let mut j: usize = 0;
    while j < groups.len()
        invariant
            j <= groups@.len(),
            gs == view_vote_groups(groups@),
            view_votes(out@) == spec_votes_for(gs.take(j as int), id),
        decreases groups@.len() - j,
    {
        proof {
            assert(gs.take(j as int + 1).drop_last() =~= gs.take(j as int));
            assert(gs.take(j as int + 1).last() == gs[j as int]);
        }
        if groups[j].0 == id {
            let v = groups[j].1.clone();
            proof {
                assert(v@ == gs[j as int].1);
                assert(view_votes(out@.push(v)) =~= view_votes(out@).push(v@));
            }
            out.push(v);
        }
        j += 1;
    }
    proof {
        assert(gs.take(gs.len() as int) =~= gs);
    }
    out
}

/// Stage 5, per seed: attaches the event's groups, finalizes the builders
/// bottom-up, and converts the pair into the terminal event.
fn assemble_one(
    seed: Seed,
    services: &Vec<(i64, ProposedService)>,
    nodes: &Vec<(i64, ProposedNode)>,
    votes: &Vec<(i64, VoteRecord)>,
) -> (r: Result<AdminServiceEvent, EventStoreError>)
    ensures
        match r {
            Ok(ev) => spec_assemble_one(
                seed@,
                view_service_groups(services@),
                view_node_groups(nodes@),
                view_vote_groups(votes@),
            ) == Ok::<SpecAdminServiceEvent, EventStoreError>(ev@),
            Err(e) => spec_assemble_one(
                seed@,
                view_service_groups(services@),
                view_node_groups(nodes@),
                view_vote_groups(votes@),
            ) == Err::<SpecAdminServiceEvent, EventStoreError>(e),
        },
{
    let ghost sd = seed@;
    let ghost sv = view_service_groups(services@);
    let ghost nd = view_node_groups(nodes@);
    let ghost vt = view_vote_groups(votes@);
    let roster = roster_for(services, seed.event.id);
    let members = members_for(nodes, seed.event.id);
    let event_votes = votes_for(votes, seed.event.id);
    let has_votes = event_votes.len() > 0;
    let mut cb = seed.circuit;
    if roster.len() > 0 {
        cb = cb.with_roster(roster);
    }
    if members.len() > 0 {
        cb = cb.with_members(members);
    }
    proof {
        assert(cb@ =~~= (crate::builders::SpecProposedCircuitBuilder {
            roster: if spec_roster_for(sv, sd.event.id).len() > 0 {
                Some(spec_roster_for(sv, sd.event.id))
            } else {
                sd.circuit.roster
            },
            members: if spec_members_for(nd, sd.event.id).len() > 0 {
                Some(spec_members_for(nd, sd.event.id))
            } else {
                sd.circuit.members
            },
            ..sd.circuit
        }));
    }
    let circuit = match cb.build() {
        Ok(c) => c,
        Err(e) => {
            return Err(e);
        },
    };
    let mut pb = seed.proposal;
    if has_votes {
        pb = pb.with_votes(event_votes);
    }
    let pb = pb.with_circuit(circuit);
    proof {
        assert(pb@ =~~= (crate::builders::SpecCircuitProposalBuilder {
            circuit: Some(crate::builders::spec_build_circuit(cb@)->Ok_0),
            votes: if spec_votes_for(vt, sd.event.id).len() > 0 {
                Some(spec_votes_for(vt, sd.event.id))
            } else {
                sd.proposal.votes
            },
            ..sd.proposal
        }));
    }
    let proposal = match pb.build() {
        Ok(p) => p,
        Err(e) => {
            return Err(e);
        },
    };
    match decode_event_type(seed.event.event_type_code) {
        Some(event_type) => {
            let ev = AdminServiceEvent {
                event_id: seed.event.id,
                event_type,
                timestamp: seed.event.timestamp,
                proposal,
            };
            proof {
                assert(spec_assemble_one(sd, sv, nd, vt) == Ok::<
                    SpecAdminServiceEvent,
                    EventStoreError,
                >(ev@));
            }
            Ok(ev)
        },
        None => Err(EventStoreError::ConversionError),
    }
}

/// Stage 5: assembles every seed in seed order; the first failure aborts.
fn assemble(
    seeds: Vec<Seed>,
    services: &Vec<(i64, ProposedService)>,
    nodes: &Vec<(i64, ProposedNode)>,
    votes: &Vec<(i64, VoteRecord)>,
    Ghost(all): Ghost<Seq<SpecSeed>>,
) -> (r: Result<Vec<AdminServiceEvent>, EventStoreError>)
    requires
        view_seeds(seeds@) == all,
    ensures
        match r {
            Ok(v) => spec_assemble(
                all,
                view_service_groups(services@),
                view_node_groups(nodes@),
                view_vote_groups(votes@),
            ) == Ok::<Seq<SpecAdminServiceEvent>, EventStoreError>(view_events(v@)),
            Err(e) => spec_assemble(
                all,
                view_service_groups(services@),
                view_node_groups(nodes@),
                view_vote_groups(votes@),
            ) == Err::<Seq<SpecAdminServiceEvent>, EventStoreError>(e),
        },
{
    let ghost sv = view_service_groups(services@);
    let ghost nd = view_node_groups(nodes@);
    let ghost vt = view_vote_groups(votes@);
    let mut rest = seeds;
    let mut out: Vec<AdminServiceEvent> = Vec::new();
    proof {
        assert(all.take(0) =~= Seq::<SpecSeed>::empty());
        assert(view_events(out@) =~= Seq::<SpecAdminServiceEvent>::empty());
        assert(view_seeds(rest@) =~= all.skip(0));
    }
    while rest.len() > 0
        invariant
            out@.len() + rest@.len() == all.len(),
            view_seeds(rest@) == all.skip(out@.len() as int),
            spec_assemble(all.take(out@.len() as int), sv, nd, vt) == Ok::<
                Seq<SpecAdminServiceEvent>,
                EventStoreError,
            >(view_events(out@)),
            sv == view_service_groups(services@),
            nd == view_node_groups(nodes@),
            vt == view_vote_groups(votes@),
        decreases rest@.len(),
    {
        let ghost k = out@.len() as int;
        let ghost prev = rest@;
        proof {
            assert(all.take(k + 1).drop_last() =~= all.take(k));
            assert(all.take(k + 1).last() == all[k]);
            assert(view_seeds(prev)[0] == all[k]);
        }
        let seed = rest.remove(0);
        proof {
            assert(seed@ == all[k]);
            assert(view_seeds(rest@) =~= view_seeds(prev).skip(1));
            assert(view_seeds(prev).skip(1) =~= all.skip(k).skip(1));
            assert(all.skip(k).skip(1) =~= all.skip(k + 1));
        }
        match assemble_one(seed, services, nodes, votes) {
            Ok(ev) => {
                proof {
                    assert(view_events(out@.push(ev)) =~= view_events(out@).push(ev@));
                }
                out.push(ev);
            },
            Err(e) => {
                proof {
                    assert(spec_assemble(all.take(k + 1), sv, nd, vt) == Err::<
                        Seq<SpecAdminServiceEvent>,
                        EventStoreError,
                    >(e));
                    lemma_assemble_err_persists(all, sv, nd, vt, k + 1);
                }
                return Err(e);
            },
        }
    }
    proof {
        assert(all.take(all.len() as int) =~= all);
    }
    Ok(out)
}

/// Index at which an event with the given identifier is inserted to keep
/// the output ascending: just before the first strictly larger identifier.
fn insert_position(out: &Vec<AdminServiceEvent>, id: i64) -> (pos: usize)
    ensures
        pos <= out@.len(),
        forall|j: int| 0 <= j < pos ==> out@[j].event_id <= id,
        pos < out@.len() ==> id < out@[pos as int].event_id,
{
    let mut pos: usize = 0;
    while pos < out.len()
        invariant
            pos <= out@.len(),
            forall|j: int| 0 <= j < pos ==> out@[j].event_id <= id,
        decreases out@.len() - pos,
    {
        if id < out[pos].event_id {
            return pos;
        }
        pos += 1;
    }
    pos
}

/// Inserts one event into an already sorted output vector.
fn insert_by_id(out: &mut Vec<AdminServiceEvent>, ev: AdminServiceEvent)
    ensures
        view_events(final(out)@) == spec_insert_by_id(view_events(old(out)@), ev@),
{
    let pos = insert_position(out, ev.event_id);
    let ghost pre = out@;
    let ghost evspec = ev@;
    out.insert(pos, ev);
    proof {
        assert(forall|j: int| 0 <= j < pos ==> view_events(pre)[j].event_id <= evspec.event_id);
        assert(pos < pre.len() ==> evspec.event_id < view_events(pre)[pos as int].event_id);
        lemma_insert_position(view_events(pre), evspec, pos as int);
        assert(view_events(out@) =~= view_events(pre).take(pos as int) + seq![evspec]
            + view_events(pre).skip(pos as int));
    }
}

/// Sorts the assembled events ascending by event identifier.
fn sort_events(evs: Vec<AdminServiceEvent>, Ghost(all): Ghost<Seq<SpecAdminServiceEvent>>) -> (r:
    Vec<AdminServiceEvent>)
    requires
        view_events(evs@) == all,
    ensures
        view_events(r@) == spec_sort_events(all),
{
    let mut rest = evs;
    let mut out: Vec<AdminServiceEvent> = Vec::new();
    let ghost mut done: int = 0;
    proof {
        assert(all.take(0) =~= Seq::<SpecAdminServiceEvent>::empty());
        assert(view_events(out@) =~= Seq::<SpecAdminServiceEvent>::empty());
        assert(view_events(rest@) =~= all.skip(0));
    }
    while rest.len() > 0
        invariant
            0 <= done,
            done + rest@.len() == all.len(),
            view_events(rest@) == all.skip(done),
            view_events(out@) == spec_sort_events(all.take(done)),
        decreases rest@.len(),
    {
        let ghost k = done;
        let ghost prev = rest@;
        proof {
            assert(all.take(k + 1).drop_last() =~= all.take(k));
            assert(all.take(k + 1).last() == all[k]);
            assert(view_events(prev)[0] == all[k]);
        }
        let ev = rest.remove(0);
        proof {
            assert(ev@ == all[k]);
            assert(view_events(rest@) =~= view_events(prev).skip(1));
            assert(view_events(prev).skip(1) =~= all.skip(k).skip(1));
            assert(all.skip(k).skip(1) =~= all.skip(k + 1));
        }
        insert_by_id(&mut out, ev);
        proof {
            done = done + 1;
        }
    }
    proof {
        assert(all.take(all.len() as int) =~= all);
    }
    out
}

impl EventStore {
    /// The one entry point: reconstructs every requested event that has a
    /// complete stored record, sorted ascending by event identifier.
    ///
    /// The requested identifier set may be empty, may repeat identifiers,
    /// and may name identifiers the store does not hold; none of that is an
    /// error. The call returns either the full ordered result or the single
    /// error the first failing row produces — never partial results.
    pub fn list_events(&self, event_ids: Vec<i64>) -> (r: Result<
        Vec<AdminServiceEvent>,
        EventStoreError,
    >)
        ensures
            match r {
                Ok(v) => spec_list_events(self@, event_ids@) == Ok::<
                    Seq<SpecAdminServiceEvent>,
                    EventStoreError,
                >(view_events(v@)),
                Err(e) => spec_list_events(self@, event_ids@) == Err::<
                    Seq<SpecAdminServiceEvent>,
                    EventStoreError,
                >(e),
            },
    {
        let seeds = match self.collect_seeds(&event_ids) {
            Ok(s) => s,
            Err(e) => {
                return Err(e);
            },
        };
        let services = match self.collect_services(&event_ids) {
            Ok(s) => s,
            Err(e) => {
                return Err(e);
            },
        };
        let nodes = match self.collect_nodes(&event_ids) {
            Ok(n) => n,
            Err(e) => {
                return Err(e);
            },
        };
        let votes = match self.collect_votes(&event_ids) {
            Ok(v) => v,
            Err(e) => {
                return Err(e);
            },
        };
        let events = match assemble(
            seeds,
            &services,
            &nodes,
            &votes,
            Ghost(view_seeds(seeds@)),
        ) {
            Ok(v) => v,
            Err(e) => {
                return Err(e);
            },
        };
        Ok(sort_events(events, Ghost(view_events(events@))))
    }
}

/// Whether the grouped services already contain the composite key.
fn service_groups_contains(
    groups: &Vec<(i64, ProposedService)>,
    event_id: i64,
    service_id: &String,
) -> (r: bool)
    ensures
        r == service_key_in(view_service_groups(groups@), event_id, service_id@),
{
    let mut j: usize = 0;
    while j < groups.len()
        invariant
            j <= groups.len(),
            forall|k: int|
                0 <= k < j ==> !(#[trigger] view_service_groups(groups@)[k].0 == event_id
                    && view_service_groups(groups@)[k].1.service_id == service_id@),
        decreases groups.len() - j,
    {
        if groups[j].0 == event_id && groups[j].1.service_id == *service_id {
            proof {
                assert(view_service_groups(groups@)[j as int].0 == event_id
                    && view_service_groups(groups@)[j as int].1.service_id == service_id@);
            }
            return true;
        }
        j += 1;
    }
    false
}

/// Whether the grouped nodes already contain the composite key.
fn node_groups_contains(
    groups: &Vec<(i64, ProposedNode)>,
    event_id: i64,
    node_id: &String,
) -> (r: bool)
    ensures
        r == node_key_in(view_node_groups(groups@), event_id, node_id@),
{
    let mut j: usize = 0;
    while j < groups.len()
        invariant
            j <= groups.len(),
            forall|k: int|
                0 <= k < j ==> !(#[trigger] view_node_groups(groups@)[k].0 == event_id
                    && view_node_groups(groups@)[k].1.node_id == node_id@),
        decreases groups.len() - j,
    {
        if groups[j].0 == event_id && groups[j].1.node_id == *node_id {
            proof {
                assert(view_node_groups(groups@)[j as int].0 == event_id
                    && view_node_groups(groups@)[j as int].1.node_id == node_id@);
            }
            return true;
        }
        j += 1;
    }
    false
}

} // verus!
