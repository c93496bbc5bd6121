//! Reconstruction of administrative events from normalized relational rows.
//!
//! Given a snapshot of the related tables of an event store and a set of
//! requested event identifiers, the library reassembles fully-formed,
//! hierarchical domain objects: an administrative event wrapping a circuit
//! proposal, which aggregates a proposed circuit, a roster of proposed
//! services with key/value arguments, a membership list of proposed nodes
//! with ordered endpoints, and a list of vote records.
//!
//! The storage edge (executing the filtered queries inside one transaction)
//! is left to the caller; the snapshot handed to [`store::EventStore`] stands
//! for the consistent point-in-time view those queries observe.

use vstd::prelude::*;

pub mod builders;
pub mod codes;
pub mod domain;
pub mod laws;
pub mod model;
pub mod rows;
pub mod store;

verus! {

/// The categories of failure a reconstruction call can surface.
///
/// A call either returns the full result sequence or exactly one of these;
/// no partial results accompany an error.
#[derive(Clone, Copy, Debug, PartialEq, Eq, Structural)]
pub enum EventStoreError {
    /// The underlying storage read failed. The in-memory reconstruction
    /// itself never produces this; it is reserved for the storage edge.
    StorageError,
    /// A stored enumeration code could not be decoded into its
    /// strongly-typed domain representation.
    ConversionError,
    /// A builder was finalized while a structurally required field was
    /// still unset.
    InvalidStateError,
}

} // verus!
