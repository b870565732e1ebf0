//! The snapshot path: conversion between typed aggregate state and a
//! serialized snapshot record, and reconstruction of the aggregate load
//! context a repository hands to replay. Single-item and symmetric to the
//! event path, but with no upcasting: snapshots are assumed to be
//! re-materialized from current-schema events before being persisted again.

use vstd::prelude::*;

use crate::error::DecodeError;
use crate::error::PersistenceError;
use crate::event::Aggregate;
use crate::event::JsonCodec;
use crate::serialized::SerializedSnapshot;
use crate::serialized::SerializedSnapshotView;

verus! {

/// A loaded aggregate: its state, the last event sequence folded into it,
/// and the snapshot revision it came from, absent when the aggregate was
/// loaded purely from events.
pub struct EventStoreAggregateContext<A: Aggregate> {
    /// The aggregate instance that has been loaded.
    pub aggregate_id: String,
    /// The typed state of the aggregate instance.
    pub aggregate: A,
    /// The last committed event sequence number for this aggregate instance.
    pub current_sequence: usize,
    /// The last committed snapshot version, if a snapshot was ever taken.
    pub current_snapshot: Option<usize>,
}

/// The mathematical model of an [`EventStoreAggregateContext`].
#[verifier::ext_equal]
pub struct AggregateContextView<A: Aggregate> {
    /// Model of the aggregate id.
    pub aggregate_id: Seq<char>,
    /// Model of the typed state.
    pub aggregate: <A as View>::V,
    /// Model of the last committed event sequence number.
    pub current_sequence: int,
    /// Model of the snapshot revision, if any.
    pub current_snapshot: Option<int>,
}

impl<A: Aggregate> View for EventStoreAggregateContext<A> {
    type V = AggregateContextView<A>;

    open spec fn view(&self) -> AggregateContextView<A> {
        AggregateContextView {
            aggregate_id: self.aggregate_id@,
            aggregate: self.aggregate@,
            current_sequence: self.current_sequence as int,
            current_snapshot: match self.current_snapshot {
                Some(v) => Some(v as int),
                None => None,
            },
        }
    }
}

/// The record a typed state encodes to: the structural encoding of the
/// state, with identity and the two counters copied verbatim.
pub open spec fn spec_encode_snapshot<A: Aggregate>(
    aggregate_id: Seq<char>,
    state: <A as View>::V,
    current_sequence: int,
    current_snapshot: int,
) -> SerializedSnapshotView {
    SerializedSnapshotView {
        aggregate_id: aggregate_id,
        aggregate: A::encoding(state),
        current_sequence: current_sequence,
        current_snapshot: current_snapshot,
    }
}

/// The load context a snapshot record decodes to: defined exactly when the
/// stored state decodes to a typed state; the snapshot revision is wrapped
/// as present, since the record proves a snapshot was taken.
pub open spec fn spec_reconstruct<A: Aggregate>(
    s: SerializedSnapshotView,
) -> Option<AggregateContextView<A>> {
    match A::decoding(s.aggregate) {
        Some(state) => Some(AggregateContextView {
            aggregate_id: s.aggregate_id,
            aggregate: state,
            current_sequence: s.current_sequence,
            current_snapshot: Some(s.current_snapshot),
        }),
        None => None,
    }
}

/// Reconstructing an immediately-encoded snapshot gives back the state,
/// the sequence, and the snapshot revision wrapped as present.
pub proof fn lemma_snapshot_round_trip<A: Aggregate>(
    aggregate_id: Seq<char>,
    state: <A as View>::V,
    current_sequence: int,
    current_snapshot: int,
)
    requires
        A::encodable(state),
    ensures
        spec_reconstruct::<A>(
            spec_encode_snapshot::<A>(aggregate_id, state, current_sequence, current_snapshot),
        ) == Some(AggregateContextView::<A> {
            aggregate_id: aggregate_id,
            aggregate: state,
            current_sequence: current_sequence,
            current_snapshot: Some(current_snapshot),
        }),
{
    A::lemma_round_trip(state);
}

/// Encode an aggregate's materialized state as a snapshot record.
pub fn encode_snapshot<A: Aggregate>(
    aggregate_id: String,
    aggregate: &A,
    current_sequence: usize,
    current_snapshot: usize,
) -> (r: Result<SerializedSnapshot, PersistenceError>)
    ensures
        r is Ok <==> A::encodable(aggregate@),
        r matches Ok(s) ==> s@ == spec_encode_snapshot::<A>(
            aggregate_id@,
            aggregate@,
            current_sequence as int,
            current_snapshot as int,
        ),
        r matches Err(e) ==> e is Encode,
{
    let state = match aggregate.encode() {
        Ok(v) => v,
        Err(err) => {
            return Err(PersistenceError::Encode(err));
        },
    };
    let s = SerializedSnapshot {
        aggregate_id,
        aggregate: state,
        current_sequence,
        current_snapshot,
    };
    proof {
        assert(s@ =~= spec_encode_snapshot::<A>(
            aggregate_id@,
            aggregate@,
            current_sequence as int,
            current_snapshot as int,
        ));
    }
    Ok(s)
}

/// Turn a snapshot record into an aggregate load context: decode the
/// stored state, copy the sequence verbatim, and wrap the snapshot
/// revision as present. A record whose stored state does not match the
/// aggregate's shape yields a decode error carrying the record's identity.
pub fn reconstruct<A: Aggregate>(snapshot: SerializedSnapshot) -> (r: Result<
    EventStoreAggregateContext<A>,
    PersistenceError,
>)
    ensures
        r is Ok <==> spec_reconstruct::<A>(snapshot@) is Some,
        r matches Ok(ctx) ==> Some(ctx@) == spec_reconstruct::<A>(snapshot@),
        r matches Err(e) ==> e matches PersistenceError::Decode(d)
            && d.aggregate_id@ == snapshot@.aggregate_id
            && d.sequence as int == snapshot@.current_sequence,
{
    let aggregate = match A::decode(&snapshot.aggregate) {
        Some(state) => state,
        None => {
            return Err(PersistenceError::Decode(DecodeError {
                aggregate_id: snapshot.aggregate_id,
                sequence: snapshot.current_sequence,
            }));
        },
    };
    let ctx = EventStoreAggregateContext {
        aggregate_id: snapshot.aggregate_id,
        aggregate,
        current_sequence: snapshot.current_sequence,
        current_snapshot: Some(snapshot.current_snapshot),
    };
    proof {
        assert(spec_reconstruct::<A>(snapshot@) matches Some(v) && v =~= ctx@);
    }
    Ok(ctx)
}

} // verus!
