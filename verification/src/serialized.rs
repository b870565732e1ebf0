//! The persistence-neutral records: one for a domain event, one for an
//! aggregate snapshot. Repositories store and load these; this crate owns
//! only their shape and versioning.

use vstd::prelude::*;

use crate::value::JsonValue;
use crate::value::JsonView;

verus! {

/// A serialized version of an event with metadata.
/// Used by repositories to store and load events from a database.
#[derive(Debug)]
pub struct SerializedEvent {
    /// The id of the aggregate instance.
    pub aggregate_id: String,
    /// The sequence number of the event for this aggregate instance.
    pub sequence: usize,
    /// The type of aggregate the event applies to.
    pub aggregate_type: String,
    /// The type of event that is serialized.
    pub event_type: String,
    /// The version of event that is serialized.
    pub event_version: String,
    /// The serialized domain event.
    pub payload: JsonValue,
    /// Additional metadata, serialized from a flat string-to-string mapping.
    pub metadata: JsonValue,
}

/// The mathematical model of a [`SerializedEvent`].
#[verifier::ext_equal]
pub struct SerializedEventView {
    /// Model of the aggregate id.
    pub aggregate_id: Seq<char>,
    /// Model of the sequence number.
    pub sequence: int,
    /// Model of the aggregate type tag.
    pub aggregate_type: Seq<char>,
    /// Model of the event type tag.
    pub event_type: Seq<char>,
    /// Model of the event version tag.
    pub event_version: Seq<char>,
    /// Model of the serialized payload.
    pub payload: JsonView,
    /// Model of the serialized metadata.
    pub metadata: JsonView,
}

impl View for SerializedEvent {
    type V = SerializedEventView;

    open spec fn view(&self) -> SerializedEventView {
        SerializedEventView {
            aggregate_id: self.aggregate_id@,
            sequence: self.sequence as int,
            aggregate_type: self.aggregate_type@,
            event_type: self.event_type@,
            event_version: self.event_version@,
            payload: self.payload@,
            metadata: self.metadata@,
        }
    }
}

impl SerializedEvent {
    /// Create a new [`SerializedEvent`] with the given values.
    pub fn new(
        aggregate_id: String,
        sequence: usize,
        aggregate_type: String,
        event_type: String,
        event_version: String,
        payload: JsonValue,
        metadata: JsonValue,
    ) -> (r: Self)
        ensures
            r@ == (SerializedEventView {
                aggregate_id: aggregate_id@,
                sequence: sequence as int,
                aggregate_type: aggregate_type@,
                event_type: event_type@,
                event_version: event_version@,
                payload: payload@,
                metadata: metadata@,
            }),
    {
        Self {
            aggregate_id,
            sequence,
            aggregate_type,
            event_type,
            event_version,
            payload,
            metadata,
        }
    }

    /// Structural equality of two records: `true` exactly when every field
    /// is equal.
    pub fn equals(&self, other: &SerializedEvent) -> (r: bool)
        ensures
            r == (self@ == other@),
    {
        let r = self.aggregate_id.eq(&other.aggregate_id) && self.sequence == other.sequence
            && self.aggregate_type.eq(&other.aggregate_type)
            && self.event_type.eq(&other.event_type)
            && self.event_version.eq(&other.event_version) && self.payload.equals(&other.payload)
            && self.metadata.equals(&other.metadata);
        proof {
            if r {
                assert(self@ =~= other@);
            }
        }
        r
    }
}

/// A serialized version of a snapshot.
/// Used by repositories to store and load snapshots from a database.
#[derive(Debug)]
pub struct SerializedSnapshot {
    /// The aggregate ID of the aggregate instance that has been loaded.
    pub aggregate_id: String,
    /// The current state of the aggregate instance.
    pub aggregate: JsonValue,
    /// The last committed event sequence number for this aggregate instance.
    pub current_sequence: usize,
    /// The last committed snapshot version for this aggregate instance.
    pub current_snapshot: usize,
}

/// The mathematical model of a [`SerializedSnapshot`].
#[verifier::ext_equal]
pub struct SerializedSnapshotView {
    /// Model of the aggregate id.
    pub aggregate_id: Seq<char>,
    /// Model of the serialized aggregate state.
    pub aggregate: JsonView,
    /// Model of the last event sequence folded into the state.
    pub current_sequence: int,
    /// Model of the snapshot revision number.
    pub current_snapshot: int,
}

impl View for SerializedSnapshot {
    type V = SerializedSnapshotView;

    open spec fn view(&self) -> SerializedSnapshotView {
        SerializedSnapshotView {
            aggregate_id: self.aggregate_id@,
            aggregate: self.aggregate@,
            current_sequence: self.current_sequence as int,
            current_snapshot: self.current_snapshot as int,
        }
    }
}

impl SerializedSnapshot {
    /// Structural equality of two snapshot records: `true` exactly when
    /// every field is equal.
    pub fn equals(&self, other: &SerializedSnapshot) -> (r: bool)
        ensures
            r == (self@ == other@),
    {
        let r = self.aggregate_id.eq(&other.aggregate_id) && self.aggregate.equals(
            &other.aggregate,
        ) && self.current_sequence == other.current_sequence && self.current_snapshot
            == other.current_snapshot;
        proof {
            if r {
                assert(self@ =~= other@);
            }
        }
        r
    }
}

} // verus!
