//! The mathematical model of the reconstruction.
//!
//! These specification functions state, over row sequences, exactly what a
//! reconstruction call returns: which events are seeded, how child rows are
//! grouped and merged under composite keys, when decoding aborts the call,
//! and the final ascending order. The executable pipeline in [`crate::store`]
//! is proved equal to this model.

use vstd::prelude::*;

use crate::builders::{
    spec_build_circuit, spec_build_proposal, SpecCircuitProposalBuilder, SpecProposedCircuitBuilder,
};
use crate::codes::{
    spec_decode_authorization_type, spec_decode_durability_type, spec_decode_event_type,
    spec_decode_persistence_type, spec_decode_proposal_type, spec_decode_route_type,
    spec_decode_vote,
};
use crate::domain::{SpecAdminServiceEvent, SpecProposedNode, SpecProposedService, SpecServiceArgument, SpecVoteRecord};
use crate::rows::{
    EventRow, SpecCircuitProposalRow, SpecNodeEndpointRow, SpecProposedCircuitRow,
    SpecProposedNodeRow, SpecProposedServiceRow, SpecServiceArgumentRow, SpecVoteRecordRow,
};
use crate::EventStoreError;

verus! {

/// The consistent snapshot of the eight related tables a reconstruction
/// call reads.
#[verifier::ext_equal]
pub struct SpecStore {
    pub events: Seq<EventRow>,
    pub circuit_proposals: Seq<SpecCircuitProposalRow>,
    pub proposed_circuits: Seq<SpecProposedCircuitRow>,
    pub proposed_services: Seq<SpecProposedServiceRow>,
    pub service_arguments: Seq<SpecServiceArgumentRow>,
    pub proposed_nodes: Seq<SpecProposedNodeRow>,
    pub node_endpoints: Seq<SpecNodeEndpointRow>,
    pub vote_records: Seq<SpecVoteRecordRow>,
}

/// One seeded event: the base row together with the two partially-filled
/// builders the primary join produces for it.
#[verifier::ext_equal]
pub struct SpecSeed {
    pub event: EventRow,
    pub proposal: SpecCircuitProposalBuilder,
    pub circuit: SpecProposedCircuitBuilder,
}

// ---------------------------------------------------------------------------
// Stage 1: primary join and seeding
// ---------------------------------------------------------------------------

/// The first circuit-proposal row of the given event, if any.
pub open spec fn find_proposal_row(
    rows: Seq<SpecCircuitProposalRow>,
    id: i64,
) -> Option<SpecCircuitProposalRow>
    decreases rows.len(),
{
    if rows.len() == 0 {
        None
    } else if rows[0].event_id == id {
        Some(rows[0])
    } else {
        find_proposal_row(rows.skip(1), id)
    }
}

/// The first proposed-circuit row of the given event, if any.
pub open spec fn find_circuit_row(
    rows: Seq<SpecProposedCircuitRow>,
    id: i64,
) -> Option<SpecProposedCircuitRow>
    decreases rows.len(),
{
    if rows.len() == 0 {
        None
    } else if rows[0].event_id == id {
        Some(rows[0])
    } else {
        find_circuit_row(rows.skip(1), id)
    }
}

/// The builder pair seeded from one joined (proposal, circuit) row pair,
/// or nothing if any stored enumeration code fails to decode.
pub open spec fn spec_seed_builders(
    p: SpecCircuitProposalRow,
    c: SpecProposedCircuitRow,
) -> Option<(SpecCircuitProposalBuilder, SpecProposedCircuitBuilder)> {
    if spec_decode_proposal_type(p.proposal_type_code) is Some
        && spec_decode_authorization_type(c.authorization_code) is Some
        && spec_decode_persistence_type(c.persistence_code) is Some
        && spec_decode_durability_type(c.durability_code) is Some
        && spec_decode_route_type(c.route_code) is Some {
        Some(
            (
                SpecCircuitProposalBuilder {
                    proposal_type: spec_decode_proposal_type(p.proposal_type_code),
                    circuit_id: Some(p.circuit_id),
                    circuit_hash: Some(p.circuit_hash),
                    requester: Some(p.requester),
                    requester_node_id: Some(p.requester_node_id),
                    circuit: None,
                    votes: None,
                },
                SpecProposedCircuitBuilder {
                    circuit_id: Some(c.circuit_id),
                    authorization_type: spec_decode_authorization_type(c.authorization_code),
                    persistence: spec_decode_persistence_type(c.persistence_code),
                    durability: spec_decode_durability_type(c.durability_code),
                    routes: spec_decode_route_type(c.route_code),
                    circuit_management_type: Some(c.circuit_management_type),
                    application_metadata: c.application_metadata,
                    comments: c.comments,
                    display_name: c.display_name,
                    roster: None,
                    members: None,
                },
            ),
        )
    } else {
        None
    }
}

/// Stage 1: one seed per requested event that has both one-to-one child
/// rows, in event-table order; a decode failure aborts with a conversion
/// error. Events lacking either child row are silently excluded.
pub open spec fn spec_seeds(
    events: Seq<EventRow>,
    props: Seq<SpecCircuitProposalRow>,
    circs: Seq<SpecProposedCircuitRow>,
    ids: Seq<i64>,
) -> Result<Seq<SpecSeed>, EventStoreError>
    decreases events.len(),
{
    if events.len() == 0 {
        Ok(Seq::empty())
    } else {
        match spec_seeds(events.drop_last(), props, circs, ids) {
            Err(e) => Err(e),
            Ok(prefix) => {
                let ev = events.last();
                if !ids.contains(ev.id) {
                    Ok(prefix)
                } else {
                    match (find_proposal_row(props, ev.id), find_circuit_row(circs, ev.id)) {
                        (Some(p), Some(c)) => match spec_seed_builders(p, c) {
                            Some(bs) => Ok(
                                prefix.push(SpecSeed { event: ev, proposal: bs.0, circuit: bs.1 }),
                            ),
                            None => Err(EventStoreError::ConversionError),
                        },
                        _ => Ok(prefix),
                    }
                }
            },
        }
    }
}

// ---------------------------------------------------------------------------
// Stage 2: service aggregation
// ---------------------------------------------------------------------------

/// Whether the grouped services already contain the composite key.
pub open spec fn service_key_in(
    groups: Seq<(i64, SpecProposedService)>,
    event_id: i64,
    service_id: Seq<char>,
) -> bool {
    exists|i: int|
        0 <= i < groups.len() && groups[i].0 == event_id && groups[i].1.service_id == service_id
}

/// All argument rows of one (event, service) key, in argument-table order;
/// duplicates are kept, nothing is dropped or invented.
pub open spec fn spec_args_for(
    args: Seq<SpecServiceArgumentRow>,
    event_id: i64,
    service_id: Seq<char>,
) -> Seq<SpecServiceArgument>
    decreases args.len(),
{
    if args.len() == 0 {
        Seq::empty()
    } else {
        let prefix = spec_args_for(args.drop_last(), event_id, service_id);
        let a = args.last();
        if a.event_id == event_id && a.service_id == service_id {
            prefix.push(SpecServiceArgument { key: a.key, value: a.value })
        } else {
            prefix
        }
    }
}

/// Stage 2: one finished service per requested (event, service) key, in
/// first-occurrence order of the service rows; duplicate service rows for a
/// key are merged into the first, and each service carries every argument
/// row of its key.
pub open spec fn spec_service_groups(
    srows: Seq<SpecProposedServiceRow>,
    args: Seq<SpecServiceArgumentRow>,
    ids: Seq<i64>,
) -> Seq<(i64, SpecProposedService)>
    decreases srows.len(),
{
    if srows.len() == 0 {
        Seq::empty()
    } else {
        let prefix = spec_service_groups(srows.drop_last(), args, ids);
        let r = srows.last();
        if ids.contains(r.event_id) && !service_key_in(prefix, r.event_id, r.service_id) {
            prefix.push(
                (
                    r.event_id,
                    SpecProposedService {
                        service_id: r.service_id,
                        service_type: r.service_type,
                        node_id: r.node_id,
                        arguments: spec_args_for(args, r.event_id, r.service_id),
                    },
                ),
            )
        } else {
            prefix
        }
    }
}

// ---------------------------------------------------------------------------
// Stage 3: node aggregation
// ---------------------------------------------------------------------------

/// Whether the grouped nodes already contain the composite key.
pub open spec fn node_key_in(
    groups: Seq<(i64, SpecProposedNode)>,
    event_id: i64,
    node_id: Seq<char>,
) -> bool {
    exists|i: int|
        0 <= i < groups.len() && groups[i].0 == event_id && groups[i].1.node_id == node_id
}

/// All endpoint rows of one (event, node) key, in endpoint-table order.
pub open spec fn spec_endpoints_for(
    eps: Seq<SpecNodeEndpointRow>,
    event_id: i64,
    node_id: Seq<char>,
) -> Seq<Seq<char>>
    decreases eps.len(),
{
    if eps.len() == 0 {
        Seq::empty()
    } else {
        let prefix = spec_endpoints_for(eps.drop_last(), event_id, node_id);
        let e = eps.last();
        if e.event_id == event_id && e.node_id == node_id {
            prefix.push(e.endpoint)
        } else {
            prefix
        }
    }
}

/// Stage 3: one finished node per requested (event, node) key that the
/// inner join with the endpoint table retains, in first-occurrence order of
/// the node rows. A node without any endpoint row never appears; a node
/// with K endpoint rows carries exactly those K endpoints.
pub open spec fn spec_node_groups(
    nrows: Seq<SpecProposedNodeRow>,
    eps: Seq<SpecNodeEndpointRow>,
    ids: Seq<i64>,
) -> Seq<(i64, SpecProposedNode)>
    decreases nrows.len(),
{
    if nrows.len() == 0 {
        Seq::empty()
    } else {
        let prefix = spec_node_groups(nrows.drop_last(), eps, ids);
        let r = nrows.last();
        let endpoints = spec_endpoints_for(eps, r.event_id, r.node_id);
        if ids.contains(r.event_id) && endpoints.len() > 0 && !node_key_in(
            prefix,
            r.event_id,
            r.node_id,
        ) {
            prefix.push((r.event_id, SpecProposedNode { node_id: r.node_id, endpoints }))
        } else {
            prefix
        }
    }
}

// ---------------------------------------------------------------------------
// Stage 4: vote aggregation
// ---------------------------------------------------------------------------

/// One decoded vote record, or nothing if the stored vote code is
/// unrecognized.
pub open spec fn spec_decode_vote_row(v: SpecVoteRecordRow) -> Option<SpecVoteRecord> {
    match spec_decode_vote(v.vote_code) {
        Some(vote) => Some(
            SpecVoteRecord { public_key: v.public_key, vote, voter_node_id: v.voter_node_id },
        ),
        None => None,
    }
}

/// Stage 4: the decoded votes of the requested events, in vote-table order;
/// a decode failure aborts with a structural error.
pub open spec fn spec_vote_groups(
    vrows: Seq<SpecVoteRecordRow>,
    ids: Seq<i64>,
) -> Result<Seq<(i64, SpecVoteRecord)>, EventStoreError>
    decreases vrows.len(),
{
    if vrows.len() == 0 {
        Ok(Seq::empty())
    } else {
        match spec_vote_groups(vrows.drop_last(), ids) {
            Err(e) => Err(e),
            Ok(prefix) => {
                let v = vrows.last();
                if !ids.contains(v.event_id) {
                    Ok(prefix)
                } else {
                    match spec_decode_vote_row(v) {
                        Some(rec) => Ok(prefix.push((v.event_id, rec))),
                        None => Err(EventStoreError::InvalidStateError),
                    }
                }
            },
        }
    }
}

// ---------------------------------------------------------------------------
// Stage 5: assembly and ordering
// ---------------------------------------------------------------------------

/// The grouped services of one event, in group order.
pub open spec fn spec_roster_for(
    groups: Seq<(i64, SpecProposedService)>,
    id: i64,
) -> Seq<SpecProposedService>
    decreases groups.len(),
{
    if groups.len() == 0 {
        Seq::empty()
    } else {
        let prefix = spec_roster_for(groups.drop_last(), id);
        if groups.last().0 == id {
            prefix.push(groups.last().1)
        } else {
            prefix
        }
    }
}

/// The grouped nodes of one event, in group order.
pub open spec fn spec_members_for(
    groups: Seq<(i64, SpecProposedNode)>,
    id: i64,
) -> Seq<SpecProposedNode>
    decreases groups.len(),
{
    if groups.len() == 0 {
        Seq::empty()
    } else {
        let prefix = spec_members_for(groups.drop_last(), id);
        if groups.last().0 == id {
            prefix.push(groups.last().1)
        } else {
            prefix
        }
    }
}

/// The grouped votes of one event, in group order.
pub open spec fn spec_votes_for(
    groups: Seq<(i64, SpecVoteRecord)>,
    id: i64,
) -> Seq<SpecVoteRecord>
    decreases groups.len(),
{
    if groups.len() == 0 {
        Seq::empty()
    } else {
        let prefix = spec_votes_for(groups.drop_last(), id);
        if groups.last().0 == id {
            prefix.push(groups.last().1)
        } else {
            prefix
        }
    }
}

/// Attaches an event's groups to its builders (omitting empty groups, which
/// the builders default to empty anyway), finalizes bottom-up, and converts
/// the pair into the terminal event. A failed finalize is a structural
/// error; an unrecognized event-type code is a conversion error.
pub open spec fn spec_assemble_one(
    seed: SpecSeed,
    services: Seq<(i64, SpecProposedService)>,
    nodes: Seq<(i64, SpecProposedNode)>,
    votes: Seq<(i64, SpecVoteRecord)>,
) -> Result<SpecAdminServiceEvent, EventStoreError> {
    let roster = spec_roster_for(services, seed.event.id);
    let members = spec_members_for(nodes, seed.event.id);
    let event_votes = spec_votes_for(votes, seed.event.id);
    let cb = SpecProposedCircuitBuilder {
        roster: if roster.len() > 0 {
            Some(roster)
        } else {
            seed.circuit.roster
        },
        members: if members.len() > 0 {
            Some(members)
        } else {
            seed.circuit.members
        },
        ..seed.circuit
    };
    match spec_build_circuit(cb) {
        Err(e) => Err(e),
        Ok(circuit) => {
            let pb = SpecCircuitProposalBuilder {
                circuit: Some(circuit),
                votes: if event_votes.len() > 0 {
                    Some(event_votes)
                } else {
                    seed.proposal.votes
                },
                ..seed.proposal
            };
            match spec_build_proposal(pb) {
                Err(e) => Err(e),
                Ok(proposal) => match spec_decode_event_type(seed.event.event_type_code) {
                    Some(event_type) => Ok(
                        SpecAdminServiceEvent {
                            event_id: seed.event.id,
                            event_type,
                            timestamp: seed.event.timestamp,
                            proposal,
                        },
                    ),
                    None => Err(EventStoreError::ConversionError),
                },
            }
        },
    }
}

/// Stage 5: every seed assembled in seed order; the first failure aborts
/// the whole call.
pub open spec fn spec_assemble(
    seeds: Seq<SpecSeed>,
    services: Seq<(i64, SpecProposedService)>,
    nodes: Seq<(i64, SpecProposedNode)>,
    votes: Seq<(i64, SpecVoteRecord)>,
) -> Result<Seq<SpecAdminServiceEvent>, EventStoreError>
    decreases seeds.len(),
{
    if seeds.len() == 0 {
        Ok(Seq::empty())
    } else {
        match spec_assemble(seeds.drop_last(), services, nodes, votes) {
            Err(e) => Err(e),
            Ok(prefix) => match spec_assemble_one(seeds.last(), services, nodes, votes) {
                Ok(ev) => Ok(prefix.push(ev)),
                Err(e) => Err(e),
            },
        }
    }
}

/// Inserts an event into a sequence sorted ascending by event identifier,
/// before the first strictly larger identifier.
pub open spec fn spec_insert_by_id(
    sorted: Seq<SpecAdminServiceEvent>,
    ev: SpecAdminServiceEvent,
) -> Seq<SpecAdminServiceEvent>
    decreases sorted.len(),
{
    if sorted.len() == 0 {
        seq![ev]
    } else if ev.event_id < sorted[0].event_id {
        seq![ev] + sorted
    } else {
        seq![sorted[0]] + spec_insert_by_id(sorted.skip(1), ev)
    }
}

/// Inserting before the first strictly larger identifier is the same as
/// splitting the sorted sequence at that position.
pub proof fn lemma_insert_position(
    s: Seq<SpecAdminServiceEvent>,
    ev: SpecAdminServiceEvent,
    pos: int,
)
    requires
        0 <= pos <= s.len(),
        forall|j: int| 0 <= j < pos ==> s[j].event_id <= ev.event_id,
        pos < s.len() ==> ev.event_id < s[pos].event_id,
    ensures
        spec_insert_by_id(s, ev) == s.take(pos) + seq![ev] + s.skip(pos),
    decreases s.len(),
{
    if s.len() == 0 {
        assert(spec_insert_by_id(s, ev) =~= s.take(pos) + seq![ev] + s.skip(pos));
    } else if ev.event_id < s[0].event_id {
        assert(pos == 0);
        assert(seq![ev] + s =~= s.take(0) + seq![ev] + s.skip(0));
    } else {
        assert(pos >= 1);
        let rest = s.skip(1);
        assert(forall|j: int| 0 <= j < pos - 1 ==> rest[j].event_id <= ev.event_id);
        lemma_insert_position(rest, ev, pos - 1);
        assert(seq![s[0]] + (rest.take(pos - 1) + seq![ev] + rest.skip(pos - 1)) =~= s.take(pos)
            + seq![ev] + s.skip(pos));
    }
}

/// The deterministic final ordering: insertion sort ascending by event
/// identifier.
pub open spec fn spec_sort_events(evs: Seq<SpecAdminServiceEvent>) -> Seq<SpecAdminServiceEvent>
    decreases evs.len(),
{
    if evs.len() == 0 {
        Seq::empty()
    } else {
        spec_insert_by_id(spec_sort_events(evs.drop_last()), evs.last())
    }
}

// ---------------------------------------------------------------------------
// Error propagation
// ---------------------------------------------------------------------------

/// Once seeding has failed on a prefix of the event rows, the remaining
/// rows are never reached: the whole stage reports that first error.
pub proof fn lemma_seeds_err_persists(
    events: Seq<EventRow>,
    props: Seq<SpecCircuitProposalRow>,
    circs: Seq<SpecProposedCircuitRow>,
    ids: Seq<i64>,
    n: int,
)
    requires
        0 <= n <= events.len(),
        spec_seeds(events.take(n), props, circs, ids) is Err,
    ensures
        spec_seeds(events, props, circs, ids) == spec_seeds(events.take(n), props, circs, ids),
    decreases events.len() - n,
{
    if n == events.len() {
        assert(events.take(n) =~= events);
    } else {
        assert(events.take(n + 1).drop_last() =~= events.take(n));
        lemma_seeds_err_persists(events, props, circs, ids, n + 1);
    }
}

/// Once vote decoding has failed on a prefix of the vote rows, the whole
/// stage reports that first error.
pub proof fn lemma_votes_err_persists(vrows: Seq<SpecVoteRecordRow>, ids: Seq<i64>, n: int)
    requires
        0 <= n <= vrows.len(),
        spec_vote_groups(vrows.take(n), ids) is Err,
    ensures
        spec_vote_groups(vrows, ids) == spec_vote_groups(vrows.take(n), ids),
    decreases vrows.len() - n,
{
    if n == vrows.len() {
        assert(vrows.take(n) =~= vrows);
    } else {
        assert(vrows.take(n + 1).drop_last() =~= vrows.take(n));
        lemma_votes_err_persists(vrows, ids, n + 1);
    }
}

/// Once assembly has failed on a prefix of the seeds, the whole stage
/// reports that first error.
pub proof fn lemma_assemble_err_persists(
    seeds: Seq<SpecSeed>,
    services: Seq<(i64, SpecProposedService)>,
    nodes: Seq<(i64, SpecProposedNode)>,
    votes: Seq<(i64, SpecVoteRecord)>,
    n: int,
)
    requires
        0 <= n <= seeds.len(),
        spec_assemble(seeds.take(n), services, nodes, votes) is Err,
    ensures
        spec_assemble(seeds, services, nodes, votes) == spec_assemble(
            seeds.take(n),
            services,
            nodes,
            votes,
        ),
    decreases seeds.len() - n,
{
    if n == seeds.len() {
        assert(seeds.take(n) =~= seeds);
    } else {
        assert(seeds.take(n + 1).drop_last() =~= seeds.take(n));
        lemma_assemble_err_persists(seeds, services, nodes, votes, n + 1);
    }
}

// ---------------------------------------------------------------------------
// The whole call
// ---------------------------------------------------------------------------

/// What one reconstruction call returns for a snapshot and a requested
/// identifier set: either every requested, completely stored event —
/// assembled, merged under composite keys, and sorted ascending by event
/// identifier — or the single error the first failing row produces.
pub open spec fn spec_list_events(
    s: SpecStore,
    ids: Seq<i64>,
) -> Result<Seq<SpecAdminServiceEvent>, EventStoreError> {
    match spec_seeds(s.events, s.circuit_proposals, s.proposed_circuits, ids) {
        Err(e) => Err(e),
        Ok(seeds) => {
            let services = spec_service_groups(s.proposed_services, s.service_arguments, ids);
            let nodes = spec_node_groups(s.proposed_nodes, s.node_endpoints, ids);
            match spec_vote_groups(s.vote_records, ids) {
                Err(e) => Err(e),
                Ok(votes) => match spec_assemble(seeds, services, nodes, votes) {
                    Err(e) => Err(e),
                    Ok(evs) => Ok(spec_sort_events(evs)),
                },
            }
        },
    }
}

} // verus!
