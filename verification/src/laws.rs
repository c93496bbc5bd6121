//! The laws of the reconstruction, stated over the model and proved once
//! for every snapshot and every requested identifier set.

use vstd::prelude::*;

use crate::domain::{SpecAdminServiceEvent, SpecProposedNode, SpecProposedService, SpecVoteRecord};
use crate::model::{
    find_circuit_row, find_proposal_row, spec_args_for, spec_assemble, spec_assemble_one,
    spec_endpoints_for, spec_insert_by_id, spec_list_events, spec_node_groups, spec_seed_builders,
    spec_seeds, spec_service_groups, spec_sort_events, spec_vote_groups, lemma_seeds_err_persists,
    SpecSeed, SpecStore,
};
use crate::rows::{
    EventRow, SpecCircuitProposalRow, SpecNodeEndpointRow, SpecProposedCircuitRow,
    SpecProposedNodeRow, SpecProposedServiceRow, SpecServiceArgumentRow, SpecVoteRecordRow,
};
use crate::EventStoreError;

verus! {

// ---------------------------------------------------------------------------
// Vocabulary
// ---------------------------------------------------------------------------

/// Whether some base event row carries the given identifier.
pub open spec fn has_event_row(events: Seq<EventRow>, id: i64) -> bool {
    exists|i: int| 0 <= i < events.len() && events[i].id == id
}

/// Whether the store holds the full triple a reconstruction needs: a base
/// event row plus its one-to-one proposal and circuit rows.
pub open spec fn has_complete_record(s: SpecStore, id: i64) -> bool {
    has_event_row(s.events, id) && find_proposal_row(s.circuit_proposals, id) is Some
        && find_circuit_row(s.proposed_circuits, id) is Some
}

/// Whether a result sequence holds an event with the given identifier.
pub open spec fn result_has_id(evs: Seq<SpecAdminServiceEvent>, id: i64) -> bool {
    exists|i: int| 0 <= i < evs.len() && evs[i].event_id == id
}

/// Whether a seed sequence holds a seed for the given identifier.
pub open spec fn seeds_have_id(seeds: Seq<SpecSeed>, id: i64) -> bool {
    exists|i: int| 0 <= i < seeds.len() && seeds[i].event.id == id
}

/// Strictly ascending order by event identifier.
pub open spec fn strictly_sorted_by_id(evs: Seq<SpecAdminServiceEvent>) -> bool {
    forall|i: int, j: int| 0 <= i < j < evs.len() ==> evs[i].event_id < evs[j].event_id
}

/// No two events of the sequence share an identifier.
pub open spec fn unique_result_ids(evs: Seq<SpecAdminServiceEvent>) -> bool {
    forall|i: int, j: int| 0 <= i < j < evs.len() ==> evs[i].event_id != evs[j].event_id
}

/// No two base event rows share an identifier. This is the well-formedness
/// the storage schema guarantees: the event identifier is unique per
/// stored event.
pub open spec fn store_wf(s: SpecStore) -> bool {
    forall|i: int, j: int| 0 <= i < j < s.events.len() ==> s.events[i].id != s.events[j].id
}

/// How many argument rows carry one (event, service) key.
pub open spec fn count_args(
    args: Seq<SpecServiceArgumentRow>,
    event_id: i64,
    service_id: Seq<char>,
) -> nat
    decreases args.len(),
{
    if args.len() == 0 {
        0
    } else {
        count_args(args.drop_last(), event_id, service_id) + if args.last().event_id == event_id
            && args.last().service_id == service_id {
            1nat
        } else {
            0nat
        }
    }
}

/// How many endpoint rows carry one (event, node) key.
pub open spec fn count_endpoints(
    eps: Seq<SpecNodeEndpointRow>,
    event_id: i64,
    node_id: Seq<char>,
) -> nat
    decreases eps.len(),
{
    if eps.len() == 0 {
        0
    } else {
        count_endpoints(eps.drop_last(), event_id, node_id) + if eps.last().event_id == event_id
            && eps.last().node_id == node_id {
            1nat
        } else {
            0nat
        }
    }
}

// ---------------------------------------------------------------------------
// Which identifiers are seeded
// ---------------------------------------------------------------------------

proof fn lemma_event_row_split(events: Seq<EventRow>, id: i64)
    requires
        events.len() > 0,
    ensures
        has_event_row(events, id) <==> (has_event_row(events.drop_last(), id)
            || events.last().id == id),
{
    if has_event_row(events, id) {
        let i = choose|i: int| 0 <= i < events.len() && events[i].id == id;
        if i < events.len() - 1 {
            assert(events.drop_last()[i].id == id);
        }
    }
    if has_event_row(events.drop_last(), id) {
        let i = choose|i: int| 0 <= i < events.drop_last().len() && events.drop_last()[i].id == id;
        assert(events[i].id == id);
    }
}

proof fn lemma_seed_push_has_id(seeds: Seq<SpecSeed>, x: SpecSeed, id: i64)
    ensures
        seeds_have_id(seeds.push(x), id) <==> (seeds_have_id(seeds, id) || x.event.id == id),
{
    if seeds_have_id(seeds, id) {
        let i = choose|i: int| 0 <= i < seeds.len() && seeds[i].event.id == id;
        assert(seeds.push(x)[i].event.id == id);
    }
    if x.event.id == id {
        assert(seeds.push(x)[seeds.len() as int].event.id == id);
    }
    if seeds_have_id(seeds.push(x), id) {
        let i = choose|i: int| 0 <= i < seeds.push(x).len() && seeds.push(x)[i].event.id == id;
        if i < seeds.len() {
            assert(seeds[i].event.id == id);
        }
    }
}

/// A seed exists for an identifier precisely when the identifier was
/// requested and its full triple of rows is stored.
proof fn lemma_seeds_ids(
    events: Seq<EventRow>,
    props: Seq<SpecCircuitProposalRow>,
    circs: Seq<SpecProposedCircuitRow>,
    ids: Seq<i64>,
    seeds: Seq<SpecSeed>,
    id: i64,
)
    requires
        spec_seeds(events, props, circs, ids) == Ok::<Seq<SpecSeed>, EventStoreError>(seeds),
    ensures
        seeds_have_id(seeds, id) <==> (ids.contains(id) && has_event_row(events, id)
            && find_proposal_row(props, id) is Some && find_circuit_row(circs, id) is Some),
    decreases events.len(),
{
    if events.len() == 0 {
        assert(seeds =~= Seq::<SpecSeed>::empty());
    } else {
        let prefix_r = spec_seeds(events.drop_last(), props, circs, ids);
        let prefix = prefix_r->Ok_0;
        lemma_seeds_ids(events.drop_last(), props, circs, ids, prefix, id);
        lemma_event_row_split(events, id);
        let ev = events.last();
        if ids.contains(ev.id) && find_proposal_row(props, ev.id) is Some && find_circuit_row(
            circs,
            ev.id,
        ) is Some {
            let p = find_proposal_row(props, ev.id)->Some_0;
            let c = find_circuit_row(circs, ev.id)->Some_0;
            let bs = spec_seed_builders(p, c)->Some_0;
            lemma_seed_push_has_id(
                prefix,
                SpecSeed { event: ev, proposal: bs.0, circuit: bs.1 },
                id,
            );
        }
    }
}

// ---------------------------------------------------------------------------
// Assembly and sorting keep identifiers
// ---------------------------------------------------------------------------

proof fn lemma_assemble_one_id(
    seed: SpecSeed,
    services: Seq<(i64, SpecProposedService)>,
    nodes: Seq<(i64, SpecProposedNode)>,
    votes: Seq<(i64, SpecVoteRecord)>,
)
    requires
        spec_assemble_one(seed, services, nodes, votes) is Ok,
    ensures
        spec_assemble_one(seed, services, nodes, votes)->Ok_0.event_id == seed.event.id,
{
}

/// Assembly turns each seed into one event with the same identifier, in
/// the same order.
proof fn lemma_assemble_ids(
    seeds: Seq<SpecSeed>,
    services: Seq<(i64, SpecProposedService)>,
    nodes: Seq<(i64, SpecProposedNode)>,
    votes: Seq<(i64, SpecVoteRecord)>,
    evs: Seq<SpecAdminServiceEvent>,
)
    requires
        spec_assemble(seeds, services, nodes, votes) == Ok::<
            Seq<SpecAdminServiceEvent>,
            EventStoreError,
        >(evs),
    ensures
        evs.len() == seeds.len(),
        forall|i: int| 0 <= i < seeds.len() ==> evs[i].event_id == seeds[i].event.id,
    decreases seeds.len(),
{
    if seeds.len() > 0 {
        let prefix_r = spec_assemble(seeds.drop_last(), services, nodes, votes);
        let prefix = prefix_r->Ok_0;
        lemma_assemble_ids(seeds.drop_last(), services, nodes, votes, prefix);
        lemma_assemble_one_id(seeds.last(), services, nodes, votes);
    }
}

proof fn lemma_result_split(evs: Seq<SpecAdminServiceEvent>, id: i64)
    requires
        evs.len() > 0,
    ensures
        result_has_id(evs, id) <==> (result_has_id(evs.drop_last(), id) || evs.last().event_id
            == id),
{
    if result_has_id(evs, id) {
        let i = choose|i: int| 0 <= i < evs.len() && evs[i].event_id == id;
        if i < evs.len() - 1 {
            assert(evs.drop_last()[i].event_id == id);
        }
    }
    if result_has_id(evs.drop_last(), id) {
        let i = choose|i: int| 0 <= i < evs.drop_last().len() && evs.drop_last()[i].event_id == id;
        assert(evs[i].event_id == id);
    }
}

proof fn lemma_insert_ids(s: Seq<SpecAdminServiceEvent>, ev: SpecAdminServiceEvent, id: i64)
    ensures
        result_has_id(spec_insert_by_id(s, ev), id) <==> (result_has_id(s, id) || ev.event_id
            == id),
    decreases s.len(),
{
    let r = spec_insert_by_id(s, ev);
    if s.len() == 0 {
        assert(r[0].event_id == ev.event_id);
        if result_has_id(r, id) {
            let i = choose|i: int| 0 <= i < r.len() && r[i].event_id == id;
            assert(i == 0);
        }
    } else if ev.event_id < s[0].event_id {
        assert(r == seq![ev] + s);
        if result_has_id(s, id) {
            let i = choose|i: int| 0 <= i < s.len() && s[i].event_id == id;
            assert(r[i + 1].event_id == id);
        }
        if ev.event_id == id {
            assert(r[0].event_id == id);
        }
        if result_has_id(r, id) {
            let i = choose|i: int| 0 <= i < r.len() && r[i].event_id == id;
            if i > 0 {
                assert(s[i - 1].event_id == id);
            }
        }
    } else {
        let rest = spec_insert_by_id(s.skip(1), ev);
        lemma_insert_ids(s.skip(1), ev, id);
        assert(r == seq![s[0]] + rest);
        if result_has_id(s, id) {
            let i = choose|i: int| 0 <= i < s.len() && s[i].event_id == id;
            if i == 0 {
                assert(r[0].event_id == id);
            } else {
                assert(s.skip(1)[i - 1].event_id == id);
                let j = choose|j: int| 0 <= j < rest.len() && rest[j].event_id == id;
                assert(r[j + 1].event_id == id);
            }
        }
        if ev.event_id == id {
            let j = choose|j: int| 0 <= j < rest.len() && rest[j].event_id == id;
            assert(r[j + 1].event_id == id);
        }
        if result_has_id(r, id) {
            let i = choose|i: int| 0 <= i < r.len() && r[i].event_id == id;
            if i == 0 {
                assert(s[0].event_id == id);
            } else {
                assert(rest[i - 1].event_id == id);
                if !(ev.event_id == id) {
                    let j = choose|j: int|
                        0 <= j < s.skip(1).len() && s.skip(1)[j].event_id == id;
                    assert(s[j + 1].event_id == id);
                }
            }
        }
    }
}

proof fn lemma_sort_ids(evs: Seq<SpecAdminServiceEvent>, id: i64)
    ensures
        result_has_id(spec_sort_events(evs), id) <==> result_has_id(evs, id),
    decreases evs.len(),
{
    if evs.len() > 0 {
        lemma_sort_ids(evs.drop_last(), id);
        lemma_insert_ids(spec_sort_events(evs.drop_last()), evs.last(), id);
        lemma_result_split(evs, id);
    }
}

// ---------------------------------------------------------------------------
// Completeness
// ---------------------------------------------------------------------------

/// Completeness: a successful call returns exactly one event for each
/// requested identifier whose event, proposal and proposed-circuit rows are
/// all stored; identifiers lacking any of the triple are silently omitted.
pub proof fn lemma_completeness(
    s: SpecStore,
    ids: Seq<i64>,
    evs: Seq<SpecAdminServiceEvent>,
    id: i64,
)
    requires
        spec_list_events(s, ids) == Ok::<Seq<SpecAdminServiceEvent>, EventStoreError>(evs),
    ensures
        result_has_id(evs, id) <==> (ids.contains(id) && has_complete_record(s, id)),
{
    let seeds = spec_seeds(s.events, s.circuit_proposals, s.proposed_circuits, ids)->Ok_0;
    let services = spec_service_groups(s.proposed_services, s.service_arguments, ids);
    let nodes = spec_node_groups(s.proposed_nodes, s.node_endpoints, ids);
    let votes = spec_vote_groups(s.vote_records, ids)->Ok_0;
    let assembled = spec_assemble(seeds, services, nodes, votes)->Ok_0;
    lemma_seeds_ids(s.events, s.circuit_proposals, s.proposed_circuits, ids, seeds, id);
    lemma_assemble_ids(seeds, services, nodes, votes, assembled);
    lemma_sort_ids(assembled, id);
    if seeds_have_id(seeds, id) {
        let i = choose|i: int| 0 <= i < seeds.len() && seeds[i].event.id == id;
        assert(assembled[i].event_id == id);
    }
    if result_has_id(assembled, id) {
        let i = choose|i: int| 0 <= i < assembled.len() && assembled[i].event_id == id;
        assert(seeds[i].event.id == id);
    }
}

// ---------------------------------------------------------------------------
// Determinism and ordering
// ---------------------------------------------------------------------------

/// Determinism: the outcome of a call is a function of the snapshot and
/// the requested identifier set alone, so repeated calls against unchanged
/// storage return identical content.
pub proof fn lemma_determinism(s1: SpecStore, s2: SpecStore, ids1: Seq<i64>, ids2: Seq<i64>)
    requires
        s1 == s2,
        ids1 == ids2,
    ensures
        spec_list_events(s1, ids1) == spec_list_events(s2, ids2),
{
}

/// Every element of an insertion result is the inserted event or one of
/// the original elements.
proof fn lemma_insert_element_origin(
    s: Seq<SpecAdminServiceEvent>,
    ev: SpecAdminServiceEvent,
    j: int,
)
    requires
        0 <= j < spec_insert_by_id(s, ev).len(),
    ensures
        spec_insert_by_id(s, ev)[j] == ev || exists|k: int|
            0 <= k < s.len() && s[k] == spec_insert_by_id(s, ev)[j],
    decreases s.len(),
{
    let r = spec_insert_by_id(s, ev);
    if s.len() == 0 {
    } else if ev.event_id < s[0].event_id {
        if j > 0 {
            assert(s[j - 1] == r[j]);
        }
    } else {
        if j == 0 {
            assert(s[0] == r[0]);
        } else {
            lemma_insert_element_origin(s.skip(1), ev, j - 1);
            let rest = spec_insert_by_id(s.skip(1), ev);
            assert(r[j] == rest[j - 1]);
            if rest[j - 1] != ev {
                let k = choose|k: int| 0 <= k < s.skip(1).len() && s.skip(1)[k] == rest[j - 1];
                assert(s[k + 1] == r[j]);
            }
        }
    }
}

proof fn lemma_insert_strict(s: Seq<SpecAdminServiceEvent>, ev: SpecAdminServiceEvent)
    requires
        strictly_sorted_by_id(s),
        !result_has_id(s, ev.event_id),
    ensures
        strictly_sorted_by_id(spec_insert_by_id(s, ev)),
    decreases s.len(),
{
    let r = spec_insert_by_id(s, ev);
    if s.len() == 0 {
    } else if ev.event_id < s[0].event_id {
        assert(r == seq![ev] + s);
        assert forall|i: int, j: int| 0 <= i < j < r.len() implies r[i].event_id
            < r[j].event_id by {
            if i > 0 {
                assert(r[i] == s[i - 1]);
                assert(r[j] == s[j - 1]);
            } else {
                assert(r[j] == s[j - 1]);
                if j > 1 {
                    assert(s[0].event_id < s[j - 1].event_id);
                }
            }
        }
    } else {
        assert(ev.event_id != s[0].event_id) by {
            if ev.event_id == s[0].event_id {
                assert(s[0].event_id == ev.event_id);
                assert(result_has_id(s, ev.event_id));
            }
        }
        let tail = s.skip(1);
        assert(strictly_sorted_by_id(tail)) by {
            assert(forall|a: int, b: int|
                0 <= a < b < tail.len() ==> tail[a] == s[a + 1] && tail[b] == s[b + 1]);
        }
        assert(!result_has_id(tail, ev.event_id)) by {
            if result_has_id(tail, ev.event_id) {
                let k = choose|k: int| 0 <= k < tail.len() && tail[k].event_id == ev.event_id;
                assert(s[k + 1].event_id == ev.event_id);
            }
        }
        lemma_insert_strict(tail, ev);
        let rest = spec_insert_by_id(tail, ev);
        assert(r == seq![s[0]] + rest);
        assert forall|j: int| 0 <= j < rest.len() implies s[0].event_id < rest[j].event_id by {
            lemma_insert_element_origin(tail, ev, j);
            if rest[j] != ev {
                let k = choose|k: int| 0 <= k < tail.len() && tail[k] == rest[j];
                assert(s[0].event_id < s[k + 1].event_id);
            }
        }
        assert forall|i: int, j: int| 0 <= i < j < r.len() implies r[i].event_id
            < r[j].event_id by {
            if i > 0 {
                assert(r[i] == rest[i - 1]);
                assert(r[j] == rest[j - 1]);
            } else {
                assert(r[j] == rest[j - 1]);
            }
        }
    }
}

proof fn lemma_sort_strict(evs: Seq<SpecAdminServiceEvent>)
    requires
        unique_result_ids(evs),
    ensures
        strictly_sorted_by_id(spec_sort_events(evs)),
    decreases evs.len(),
{
    if evs.len() > 0 {
        let prefix = evs.drop_last();
        assert(unique_result_ids(prefix)) by {
            assert(forall|a: int, b: int|
                0 <= a < b < prefix.len() ==> prefix[a] == evs[a] && prefix[b] == evs[b]);
        }
        lemma_sort_strict(prefix);
        assert(!result_has_id(prefix, evs.last().event_id)) by {
            if result_has_id(prefix, evs.last().event_id) {
                let k = choose|k: int|
                    0 <= k < prefix.len() && prefix[k].event_id == evs.last().event_id;
                assert(evs[k].event_id == evs[evs.len() - 1].event_id);
            }
        }
        lemma_sort_ids(prefix, evs.last().event_id);
        lemma_insert_strict(spec_sort_events(prefix), evs.last());
    }
}

/// Seeds carry pairwise distinct identifiers whenever the base event rows
/// do.
proof fn lemma_seeds_unique(
    events: Seq<EventRow>,
    props: Seq<SpecCircuitProposalRow>,
    circs: Seq<SpecProposedCircuitRow>,
    ids: Seq<i64>,
    seeds: Seq<SpecSeed>,
)
    requires
        forall|i: int, j: int| 0 <= i < j < events.len() ==> events[i].id != events[j].id,
        spec_seeds(events, props, circs, ids) == Ok::<Seq<SpecSeed>, EventStoreError>(seeds),
    ensures
        forall|i: int, j: int| 0 <= i < j < seeds.len() ==> seeds[i].event.id != seeds[j].event.id,
    decreases events.len(),
{
    if events.len() > 0 {
        let prefix_events = events.drop_last();
        assert(forall|i: int, j: int|
            0 <= i < j < prefix_events.len() ==> prefix_events[i] == events[i]
                && prefix_events[j] == events[j]);
        let prefix = spec_seeds(prefix_events, props, circs, ids)->Ok_0;
        lemma_seeds_unique(prefix_events, props, circs, ids, prefix);
        let ev = events.last();
        if seeds != prefix {
            // the last row was seeded; its identifier is new to the prefix
            assert(!seeds_have_id(prefix, ev.id)) by {
                lemma_seeds_ids(prefix_events, props, circs, ids, prefix, ev.id);
                if has_event_row(prefix_events, ev.id) {
                    let k = choose|k: int|
                        0 <= k < prefix_events.len() && prefix_events[k].id == ev.id;
                    assert(events[k].id == events[events.len() - 1].id);
                }
            }
            assert forall|i: int, j: int|
                0 <= i < j < seeds.len() implies seeds[i].event.id != seeds[j].event.id by {
                if j == seeds.len() - 1 {
                    assert(seeds[i] == prefix[i]);
                    if prefix[i].event.id == ev.id {
                        assert(seeds_have_id(prefix, ev.id));
                    }
                } else {
                    assert(seeds[i] == prefix[i]);
                    assert(seeds[j] == prefix[j]);
                }
            }
        }
    }
}

/// Ordering: a successful call against a well-formed store returns its
/// events in strictly ascending order of event identifier; in particular
/// no two returned events share an identifier.
pub proof fn lemma_ordering(s: SpecStore, ids: Seq<i64>, evs: Seq<SpecAdminServiceEvent>)
    requires
        store_wf(s),
        spec_list_events(s, ids) == Ok::<Seq<SpecAdminServiceEvent>, EventStoreError>(evs),
    ensures
        strictly_sorted_by_id(evs),
{
    let seeds = spec_seeds(s.events, s.circuit_proposals, s.proposed_circuits, ids)->Ok_0;
    let services = spec_service_groups(s.proposed_services, s.service_arguments, ids);
    let nodes = spec_node_groups(s.proposed_nodes, s.node_endpoints, ids);
    let votes = spec_vote_groups(s.vote_records, ids)->Ok_0;
    let assembled = spec_assemble(seeds, services, nodes, votes)->Ok_0;
    lemma_seeds_unique(s.events, s.circuit_proposals, s.proposed_circuits, ids, seeds);
    lemma_assemble_ids(seeds, services, nodes, votes, assembled);
    assert(unique_result_ids(assembled));
    lemma_sort_strict(assembled);
}

// ---------------------------------------------------------------------------
// Grouping and accumulation counts
// ---------------------------------------------------------------------------

proof fn lemma_args_count(args: Seq<SpecServiceArgumentRow>, event_id: i64, service_id: Seq<char>)
    ensures
        spec_args_for(args, event_id, service_id).len() == count_args(args, event_id, service_id),
    decreases args.len(),
{
    if args.len() > 0 {
        lemma_args_count(args.drop_last(), event_id, service_id);
    }
}

proof fn lemma_endpoints_count(eps: Seq<SpecNodeEndpointRow>, event_id: i64, node_id: Seq<char>)
    ensures
        spec_endpoints_for(eps, event_id, node_id).len() == count_endpoints(
            eps,
            event_id,
            node_id,
        ),
    decreases eps.len(),
{
    if eps.len() > 0 {
        lemma_endpoints_count(eps.drop_last(), event_id, node_id);
    }
}

/// Grouping correctness: every grouped service carries exactly the
/// argument rows of its (event, service) key — duplicates included, none
/// dropped, none invented.
pub proof fn lemma_grouping(
    srows: Seq<SpecProposedServiceRow>,
    args: Seq<SpecServiceArgumentRow>,
    ids: Seq<i64>,
    j: int,
)
    requires
        0 <= j < spec_service_groups(srows, args, ids).len(),
    ensures
        spec_service_groups(srows, args, ids)[j].1.arguments == spec_args_for(
            args,
            spec_service_groups(srows, args, ids)[j].0,
            spec_service_groups(srows, args, ids)[j].1.service_id,
        ),
        spec_service_groups(srows, args, ids)[j].1.arguments.len() == count_args(
            args,
            spec_service_groups(srows, args, ids)[j].0,
            spec_service_groups(srows, args, ids)[j].1.service_id,
        ),
    decreases srows.len(),
{
    let groups = spec_service_groups(srows, args, ids);
    lemma_args_count(args, groups[j].0, groups[j].1.service_id);
    if srows.len() > 0 {
        let prefix = spec_service_groups(srows.drop_last(), args, ids);
        if j < prefix.len() {
            lemma_grouping(srows.drop_last(), args, ids, j);
        }
    }
}

/// Endpoint accumulation: every grouped node carries exactly the endpoint
/// rows of its (event, node) key, and only nodes with at least one
/// endpoint row appear.
pub proof fn lemma_endpoint_accumulation(
    nrows: Seq<SpecProposedNodeRow>,
    eps: Seq<SpecNodeEndpointRow>,
    ids: Seq<i64>,
    j: int,
)
    requires
        0 <= j < spec_node_groups(nrows, eps, ids).len(),
    ensures
        spec_node_groups(nrows, eps, ids)[j].1.endpoints == spec_endpoints_for(
            eps,
            spec_node_groups(nrows, eps, ids)[j].0,
            spec_node_groups(nrows, eps, ids)[j].1.node_id,
        ),
        spec_node_groups(nrows, eps, ids)[j].1.endpoints.len() == count_endpoints(
            eps,
            spec_node_groups(nrows, eps, ids)[j].0,
            spec_node_groups(nrows, eps, ids)[j].1.node_id,
        ),
        spec_node_groups(nrows, eps, ids)[j].1.endpoints.len() > 0,
    decreases nrows.len(),
{
    let groups = spec_node_groups(nrows, eps, ids);
    lemma_endpoints_count(eps, groups[j].0, groups[j].1.node_id);
    if nrows.len() > 0 {
        let prefix = spec_node_groups(nrows.drop_last(), eps, ids);
        if j < prefix.len() {
            lemma_endpoint_accumulation(nrows.drop_last(), eps, ids, j);
        }
    }
}

// ---------------------------------------------------------------------------
// Empty and unknown inputs
// ---------------------------------------------------------------------------

proof fn lemma_seeds_no_requested(
    events: Seq<EventRow>,
    props: Seq<SpecCircuitProposalRow>,
    circs: Seq<SpecProposedCircuitRow>,
    ids: Seq<i64>,
)
    requires
        forall|id: i64| ids.contains(id) ==> !has_event_row(events, id),
    ensures
        spec_seeds(events, props, circs, ids) == Ok::<Seq<SpecSeed>, EventStoreError>(
            Seq::empty(),
        ),
    decreases events.len(),
{
    if events.len() > 0 {
        let prefix = events.drop_last();
        assert forall|id: i64| ids.contains(id) implies !has_event_row(prefix, id) by {
            if has_event_row(prefix, id) {
                let k = choose|k: int| 0 <= k < prefix.len() && prefix[k].id == id;
                assert(events[k].id == id);
            }
        }
        lemma_seeds_no_requested(prefix, props, circs, ids);
        let ev = events.last();
        assert(!ids.contains(ev.id)) by {
            if ids.contains(ev.id) {
                assert(events[events.len() - 1].id == ev.id);
            }
        }
    }
}

proof fn lemma_services_no_requested(
    srows: Seq<SpecProposedServiceRow>,
    args: Seq<SpecServiceArgumentRow>,
    ids: Seq<i64>,
)
    requires
        forall|k: int| 0 <= k < srows.len() ==> !ids.contains(#[trigger] srows[k].event_id),
    ensures
        spec_service_groups(srows, args, ids) =~= Seq::<(i64, SpecProposedService)>::empty(),
    decreases srows.len(),
{
    if srows.len() > 0 {
        lemma_services_no_requested(srows.drop_last(), args, ids);
    }
}

proof fn lemma_nodes_no_requested(
    nrows: Seq<SpecProposedNodeRow>,
    eps: Seq<SpecNodeEndpointRow>,
    ids: Seq<i64>,
)
    requires
        forall|k: int| 0 <= k < nrows.len() ==> !ids.contains(#[trigger] nrows[k].event_id),
    ensures
        spec_node_groups(nrows, eps, ids) =~= Seq::<(i64, SpecProposedNode)>::empty(),
    decreases nrows.len(),
{
    if nrows.len() > 0 {
        lemma_nodes_no_requested(nrows.drop_last(), eps, ids);
    }
}

proof fn lemma_votes_no_requested(vrows: Seq<SpecVoteRecordRow>, ids: Seq<i64>)
    requires
        forall|k: int| 0 <= k < vrows.len() ==> !ids.contains(#[trigger] vrows[k].event_id),
    ensures
        spec_vote_groups(vrows, ids) == Ok::<Seq<(i64, SpecVoteRecord)>, EventStoreError>(
            Seq::empty(),
        ),
    decreases vrows.len(),
{
    if vrows.len() > 0 {
        lemma_votes_no_requested(vrows.drop_last(), ids);
    }
}

/// Empty input: an empty identifier set yields an empty result, never an
/// error.
pub proof fn lemma_empty_input(s: SpecStore)
    ensures
        spec_list_events(s, Seq::empty()) == Ok::<Seq<SpecAdminServiceEvent>, EventStoreError>(
            Seq::empty(),
        ),
{
    let ids = Seq::<i64>::empty();
    lemma_seeds_no_requested(s.events, s.circuit_proposals, s.proposed_circuits, ids);
    lemma_services_no_requested(s.proposed_services, s.service_arguments, ids);
    lemma_nodes_no_requested(s.proposed_nodes, s.node_endpoints, ids);
    lemma_votes_no_requested(s.vote_records, ids);
}

/// Whether any row of any table carries the given event identifier.
pub open spec fn store_mentions(s: SpecStore, id: i64) -> bool {
    has_event_row(s.events, id) || (exists|k: int|
        0 <= k < s.proposed_services.len() && s.proposed_services[k].event_id == id) || (
    exists|k: int|
        0 <= k < s.proposed_nodes.len() && s.proposed_nodes[k].event_id == id) || (exists|k: int|
        0 <= k < s.vote_records.len() && s.vote_records[k].event_id == id)
}

/// Unknown identifiers: requesting only identifiers that no stored row
/// carries yields an empty result, never an error.
pub proof fn lemma_unknown_ids(s: SpecStore, ids: Seq<i64>)
    requires
        forall|id: i64| ids.contains(id) ==> !store_mentions(s, id),
    ensures
        spec_list_events(s, ids) == Ok::<Seq<SpecAdminServiceEvent>, EventStoreError>(
            Seq::empty(),
        ),
{
    assert forall|id: i64| ids.contains(id) implies !has_event_row(s.events, id) by {
        assert(ids.contains(id) ==> !store_mentions(s, id));
    }
    lemma_seeds_no_requested(s.events, s.circuit_proposals, s.proposed_circuits, ids);
    assert forall|k: int|
        0 <= k < s.proposed_services.len() implies !ids.contains(
        #[trigger] s.proposed_services[k].event_id,
    ) by {
        if ids.contains(s.proposed_services[k].event_id) {
            assert(store_mentions(s, s.proposed_services[k].event_id));
        }
    }
    lemma_services_no_requested(s.proposed_services, s.service_arguments, ids);
    assert forall|k: int|
        0 <= k < s.proposed_nodes.len() implies !ids.contains(
        #[trigger] s.proposed_nodes[k].event_id,
    ) by {
        if ids.contains(s.proposed_nodes[k].event_id) {
            assert(store_mentions(s, s.proposed_nodes[k].event_id));
        }
    }
    lemma_nodes_no_requested(s.proposed_nodes, s.node_endpoints, ids);
    assert forall|k: int|
        0 <= k < s.vote_records.len() implies !ids.contains(
        #[trigger] s.vote_records[k].event_id,
    ) by {
        if ids.contains(s.vote_records[k].event_id) {
            assert(store_mentions(s, s.vote_records[k].event_id));
        }
    }
    lemma_votes_no_requested(s.vote_records, ids);
}

// ---------------------------------------------------------------------------
// Atomic failure
// ---------------------------------------------------------------------------

/// Seeding fails only with a conversion error.
proof fn lemma_seeds_err_kind(
    events: Seq<EventRow>,
    props: Seq<SpecCircuitProposalRow>,
    circs: Seq<SpecProposedCircuitRow>,
    ids: Seq<i64>,
)
    requires
        spec_seeds(events, props, circs, ids) is Err,
    ensures
        spec_seeds(events, props, circs, ids) == Err::<Seq<SpecSeed>, EventStoreError>(
            EventStoreError::ConversionError,
        ),
    decreases events.len(),
{
    if spec_seeds(events.drop_last(), props, circs, ids) is Err {
        lemma_seeds_err_kind(events.drop_last(), props, circs, ids);
    }
}

/// Atomic failure: one undecodable enumeration code on any seeded row
/// fails the whole call with a conversion error — zero events are
/// returned, whatever else would have reconstructed.
pub proof fn lemma_atomic_failure(s: SpecStore, ids: Seq<i64>, i: int)
    requires
        0 <= i < s.events.len(),
        ids.contains(s.events[i].id),
        find_proposal_row(s.circuit_proposals, s.events[i].id) is Some,
        find_circuit_row(s.proposed_circuits, s.events[i].id) is Some,
        spec_seed_builders(
            find_proposal_row(s.circuit_proposals, s.events[i].id)->Some_0,
            find_circuit_row(s.proposed_circuits, s.events[i].id)->Some_0,
        ) is None,
    ensures
        spec_list_events(s, ids) == Err::<Seq<SpecAdminServiceEvent>, EventStoreError>(
            EventStoreError::ConversionError,
        ),
{
    let events = s.events;
    let props = s.circuit_proposals;
    let circs = s.proposed_circuits;
    assert(events.take(i + 1).drop_last() =~= events.take(i));
    assert(events.take(i + 1).last() == events[i]);
    assert(spec_seeds(events.take(i + 1), props, circs, ids) is Err);
    lemma_seeds_err_persists(events, props, circs, ids, i + 1);
    lemma_seeds_err_kind(events, props, circs, ids);
}

} // verus!
