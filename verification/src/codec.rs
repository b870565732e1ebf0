//! The encoder and decoder: conversion between typed event envelopes and
//! serialized event records, singly and in order-preserving, all-or-nothing
//! batches.

use vstd::prelude::*;

use crate::error::DecodeError;
use crate::error::PersistenceError;
use crate::event::Aggregate;
use crate::event::DomainEvent;
use crate::event::EventEnvelope;
use crate::event::EventEnvelopeView;
use crate::event::JsonCodec;
use crate::event::metadata_view;
use crate::serialized::SerializedEvent;
use crate::serialized::SerializedEventView;
use crate::upcaster::EventUpcaster;
use crate::upcaster::apply_chain;
use crate::value::JsonValue;
use crate::value::JsonView;
use crate::value::json_obj_view;
use crate::value::json_view;
use crate::value::lemma_json_obj_view;

verus! {

/// The structured form of a metadata mapping: a map value whose entries
/// carry each pair's value as a string scalar, in order.
pub open spec fn metadata_encoding(m: Seq<(Seq<char>, Seq<char>)>) -> JsonView {
    JsonView::Obj(m.map_values(|p: (Seq<char>, Seq<char>)| (p.0, JsonView::Str(p.1))))
}

/// Whether every entry of a map value carries a string scalar.
pub open spec fn all_values_strings(entries: Seq<(Seq<char>, JsonView)>) -> bool {
    forall|i: int| 0 <= i < entries.len() ==> (#[trigger] entries[i].1) is Str
}

/// The metadata mapping a structured value decodes to: defined exactly on
/// map values all of whose entries are string scalars.
pub open spec fn metadata_decoding(j: JsonView) -> Option<Seq<(Seq<char>, Seq<char>)>> {
    match j {
        JsonView::Obj(entries) => if all_values_strings(entries) {
            Some(entries.map_values(|p: (Seq<char>, JsonView)| (p.0, p.1->Str_0)))
        } else {
            None
        },
        _ => None,
    }
}

/// Decoding an encoded metadata mapping gives the mapping back.
pub proof fn lemma_metadata_round_trip(m: Seq<(Seq<char>, Seq<char>)>)
    ensures
        metadata_decoding(metadata_encoding(m)) == Some(m),
{
    let entries = m.map_values(|p: (Seq<char>, Seq<char>)| (p.0, JsonView::Str(p.1)));
    assert(all_values_strings(entries));
    let back = entries.map_values(|p: (Seq<char>, JsonView)| (p.0, p.1->Str_0));
    assert(back =~= m);
}

/// Encode a flat string-to-string mapping as a structured value.
pub fn encode_metadata(m: &Vec<(String, String)>) -> (r: JsonValue)
    ensures
        r@ == metadata_encoding(metadata_view(m@)),
{
    let mut pairs: Vec<(String, JsonValue)> = Vec::new();
    let mut i: usize = 0;
    while i < m.len()
        invariant
            i <= m@.len(),
            pairs@.len() == i,
            forall|k: int| 0 <= k < i ==> (#[trigger] pairs@[k]).0@ == m@[k].0@
                && pairs@[k].1 == JsonValue::Str(m@[k].1),
        decreases m@.len() - i,
    {
        let entry = &m[i];
        pairs.push((entry.0.clone(), JsonValue::Str(entry.1.clone())));
        i = i + 1;
    }
    let r = JsonValue::Obj(pairs);
    proof {
        let ghost ps = r->Obj_0@;
        lemma_json_obj_view(ps);
        assert(r@ == JsonView::Obj(json_obj_view(ps)));
        assert forall|k: int| 0 <= k < ps.len() implies #[trigger] json_obj_view(ps)[k]
            == (m@[k].0@, JsonView::Str(m@[k].1@)) by {
            assert(json_obj_view(ps)[k] == (ps[k].0@, json_view(ps[k].1)));
        }
        assert(json_obj_view(ps) =~= metadata_view(m@).map_values(
            |p: (Seq<char>, Seq<char>)| (p.0, JsonView::Str(p.1)),
        ));
    }
    r
}

/// Reconstruct a flat string-to-string mapping from a structured value,
/// `None` if the value is not a map of string scalars.
#[verifier::loop_isolation(false)]
pub fn decode_metadata(j: &JsonValue) -> (r: Option<Vec<(String, String)>>)
    ensures
        r is Some <==> metadata_decoding(j@) is Some,
        r matches Some(m) ==> Some(metadata_view(m@)) == metadata_decoding(j@),
{
    match j {
        JsonValue::Obj(entries) => {
            let ghost es = json_obj_view(entries@);
            proof {
                lemma_json_obj_view(entries@);
            }
            let mut out: Vec<(String, String)> = Vec::new();
            let mut i: usize = 0;
            while i < entries.len()
                invariant
                    i <= entries@.len(),
                    out@.len() == i,
                    es == json_obj_view(entries@),
                    es.len() == entries@.len(),
                    forall|k: int| 0 <= k < entries@.len()
                        ==> #[trigger] es[k] == (entries@[k].0@, json_view(entries@[k].1)),
                    forall|k: int| 0 <= k < i ==> (#[trigger] es[k]).1 is Str,
                    forall|k: int| 0 <= k < i ==> (#[trigger] out@[k]).0@ == es[k].0
                        && out@[k].1@ == es[k].1->Str_0,
                decreases entries@.len() - i,
            {
                let entry = &entries[i];
                match &entry.1 {
                    JsonValue::Str(s) => {
                        out.push((entry.0.clone(), s.clone()));
                    },
                    _ => {
                        proof {
                            assert(!(es[i as int].1 is Str));
                            assert(!all_values_strings(es));
                            assert(j@ == JsonView::Obj(es));
                            assert(metadata_decoding(j@) is None);
                        }
                        return None;
                    },
                }
                i = i + 1;
            }
            proof {
                assert(all_values_strings(es));
                assert(metadata_view(out@) =~= es.map_values(
                    |p: (Seq<char>, JsonView)| (p.0, p.1->Str_0),
                ));
            }
            Some(out)
        },
        _ => None,
    }
}

/// The record a typed envelope encodes to: the aggregate's kind tag, the
/// payload's own type and version tags, and the structural encodings of
/// payload and metadata, with identity and position copied verbatim.
pub open spec fn spec_encode_event<A: Aggregate>(e: EventEnvelopeView<A>) -> SerializedEventView {
    SerializedEventView {
        aggregate_id: e.aggregate_id,
        sequence: e.sequence,
        aggregate_type: A::aggregate_type_spec(),
        event_type: <A::Event as DomainEvent>::type_of(e.payload),
        event_version: <A::Event as DomainEvent>::version_of(e.payload),
        payload: <A::Event as JsonCodec>::encoding(e.payload),
        metadata: metadata_encoding(e.metadata),
    }
}

/// The envelope a record decodes to: defined exactly when the payload
/// decodes to a typed event and the metadata to a string mapping, with
/// identity and position copied verbatim.
pub open spec fn spec_decode_event<A: Aggregate>(
    rec: SerializedEventView,
) -> Option<EventEnvelopeView<A>> {
    match (<A::Event as JsonCodec>::decoding(rec.payload), metadata_decoding(rec.metadata)) {
        (Some(p), Some(m)) => Some(EventEnvelopeView {
            aggregate_id: rec.aggregate_id,
            sequence: rec.sequence,
            payload: p,
            metadata: m,
        }),
        _ => None,
    }
}

/// Decoding an immediately-encoded envelope, with no upcasting applied,
/// gives a value-equal envelope back.
pub proof fn lemma_event_round_trip<A: Aggregate>(e: EventEnvelopeView<A>)
    requires
        <A::Event as JsonCodec>::encodable(e.payload),
    ensures
        spec_decode_event::<A>(spec_encode_event::<A>(e)) == Some(e),
{
    <A::Event as JsonCodec>::lemma_round_trip(e.payload);
    lemma_metadata_round_trip(e.metadata);
    let dec = spec_decode_event::<A>(spec_encode_event::<A>(e));
    assert(dec matches Some(v) && v =~= e);
}

/// Decoding a batch through a chain no rule of which matches the encoded
/// records gives every envelope back unchanged: the full round trip for a
/// record that is already at the current schema.
pub proof fn lemma_round_trip_through_chain<A: Aggregate, U: EventUpcaster>(
    rules: Seq<U>,
    e: EventEnvelopeView<A>,
)
    requires
        <A::Event as JsonCodec>::encodable(e.payload),
        forall|i: int| 0 <= i < rules.len() ==> !(#[trigger] rules[i].can_upcast_spec(
            spec_encode_event::<A>(e).event_type,
            spec_encode_event::<A>(e).event_version,
        )),
    ensures
        spec_decode_event::<A>(apply_chain(rules, spec_encode_event::<A>(e))) == Some(e),
{
    crate::upcaster::lemma_chain_no_match(rules, spec_encode_event::<A>(e));
    lemma_event_round_trip::<A>(e);
}

/// Decoding never changes a record's identity or position: a decoded
/// envelope carries its record's aggregate id and sequence verbatim, so a
/// batch decode returns its envelopes in input order with unchanged
/// sequence values.
pub proof fn lemma_decode_preserves_position<A: Aggregate>(rec: SerializedEventView)
    requires
        spec_decode_event::<A>(rec) is Some,
    ensures
        spec_decode_event::<A>(rec)->Some_0.sequence == rec.sequence,
        spec_decode_event::<A>(rec)->Some_0.aggregate_id == rec.aggregate_id,
{
}

/// Encode one typed envelope as a serialized record.
pub fn serialize_event<A: Aggregate>(event: &EventEnvelope<A>) -> (r: Result<
    SerializedEvent,
    PersistenceError,
>)
    ensures
        r is Ok <==> <A::Event as JsonCodec>::encodable(event@.payload),
        r matches Ok(rec) ==> rec@ == spec_encode_event::<A>(event@),
        r matches Err(e) ==> e is Encode,
{
    let aggregate_type = A::aggregate_type();
    let event_type = event.payload.event_type();
    let event_version = event.payload.event_version();
    let payload = match event.payload.encode() {
        Ok(v) => v,
        Err(err) => {
            return Err(PersistenceError::Encode(err));
        },
    };
    let metadata = encode_metadata(&event.metadata);
    let rec = SerializedEvent {
        aggregate_id: event.aggregate_id.clone(),
        sequence: event.sequence,
        aggregate_type,
        event_type,
        event_version,
        payload,
        metadata,
    };
    proof {
        assert(rec@ =~= spec_encode_event::<A>(event@));
    }
    Ok(rec)
}

/// Decode one serialized record into a typed envelope; a record whose
/// payload or metadata does not match the expected shape yields a decode
/// error carrying the record's identity and position.
pub fn deserialize_event<A: Aggregate>(event: SerializedEvent) -> (r: Result<
    EventEnvelope<A>,
    PersistenceError,
>)
    ensures
        r is Ok <==> spec_decode_event::<A>(event@) is Some,
        r matches Ok(env) ==> Some(env@) == spec_decode_event::<A>(event@),
        r matches Err(e) ==> e matches PersistenceError::Decode(d)
            && d.aggregate_id@ == event@.aggregate_id && d.sequence as int == event@.sequence,
{
    let payload = match <A::Event as JsonCodec>::decode(&event.payload) {
        Some(p) => p,
        None => {
            return Err(PersistenceError::Decode(DecodeError {
                aggregate_id: event.aggregate_id,
                sequence: event.sequence,
            }));
        },
    };
    let metadata = match decode_metadata(&event.metadata) {
        Some(m) => m,
        None => {
            return Err(PersistenceError::Decode(DecodeError {
                aggregate_id: event.aggregate_id,
                sequence: event.sequence,
            }));
        },
    };
    let env = EventEnvelope {
        aggregate_id: event.aggregate_id,
        sequence: event.sequence,
        payload,
        metadata,
    };
    proof {
        assert(spec_decode_event::<A>(event@) matches Some(v) && v =~= env@);
    }
    Ok(env)
}

/// Encode an ordered batch of envelopes, preserving order; on the first
/// envelope that cannot be encoded the whole batch fails with that
/// envelope's error and no records are produced.
pub fn serialize_events<A: Aggregate>(events: &Vec<EventEnvelope<A>>) -> (r: Result<
    Vec<SerializedEvent>,
    PersistenceError,
>)
    ensures
        r is Ok <==> (forall|i: int| 0 <= i < events@.len()
            ==> <A::Event as JsonCodec>::encodable((#[trigger] events@[i])@.payload)),
        r matches Ok(recs) ==> recs@.len() == events@.len() && (forall|i: int|
            0 <= i < events@.len()
                ==> (#[trigger] recs@[i])@ == spec_encode_event::<A>(events@[i]@)),
        r matches Err(e) ==> e is Encode,
{
    let mut result: Vec<SerializedEvent> = Vec::new();
    let mut i: usize = 0;
    while i < events.len()
        invariant
            i <= events@.len(),
            result@.len() == i,
            forall|k: int| 0 <= k < i
                ==> <A::Event as JsonCodec>::encodable((#[trigger] events@[k])@.payload),
            forall|k: int| 0 <= k < i
                ==> (#[trigger] result@[k])@ == spec_encode_event::<A>(events@[k]@),
        decreases events@.len() - i,
    {
        match serialize_event(&events[i]) {
            Ok(rec) => result.push(rec),
            Err(e) => {
                return Err(e);
            },
        }
        i = i + 1;
    }
    Ok(result)
}

/// The models of a batch of records, in order.
pub open spec fn records_view(events: Seq<SerializedEvent>) -> Seq<SerializedEventView> {
    events.map_values(|ev: SerializedEvent| ev@)
}

/// Whether item `k` of a batch of records is the first that fails to
/// decode after upcasting: every earlier item decodes, item `k` does not.
pub open spec fn spec_first_failure<A: Aggregate, U: EventUpcaster>(
    rules: Seq<U>,
    recs: Seq<SerializedEventView>,
    k: int,
) -> bool {
    &&& 0 <= k < recs.len()
    &&& spec_decode_event::<A>(apply_chain(rules, recs[k])) is None
    &&& forall|j: int| 0 <= j < k
        ==> spec_decode_event::<A>(apply_chain(rules, #[trigger] recs[j])) is Some
}

/// Run every record of an ordered batch through the upcaster chain and
/// decode it, preserving order; on the first record that fails to decode
/// the whole batch fails with that record's error and no envelopes are
/// produced.
#[verifier::loop_isolation(false)]
pub fn deserialize_events<A: Aggregate, U: EventUpcaster>(
    events: Vec<SerializedEvent>,
    upcasters: &Vec<U>,
) -> (r: Result<Vec<EventEnvelope<A>>, PersistenceError>)
    ensures
        r is Ok <==> (forall|i: int| 0 <= i < events@.len()
            ==> spec_decode_event::<A>(apply_chain(upcasters@, (#[trigger] events@[i])@)) is Some),
        r matches Ok(envs) ==> envs@.len() == events@.len() && (forall|i: int|
            0 <= i < events@.len() ==> Some((#[trigger] envs@[i])@)
                == spec_decode_event::<A>(apply_chain(upcasters@, events@[i]@))),
        r matches Err(e) ==> (exists|k: int|
            {
                &&& #[trigger] spec_first_failure::<A, U>(upcasters@, records_view(events@), k)
                &&& 0 <= k < events@.len()
                &&& e matches PersistenceError::Decode(d)
                &&& d.aggregate_id@ == apply_chain(upcasters@, events@[k]@).aggregate_id
                &&& d.sequence as int == apply_chain(upcasters@, events@[k]@).sequence
            }),
{
    let ghost orig = events@;
    let mut events = events;
    let mut results: Vec<EventEnvelope<A>> = Vec::new();
    while events.len() > 0
        invariant
            results@.len() + events@.len() == orig.len(),
            events@ == orig.skip(results@.len() as int),
            forall|k: int| 0 <= k < results@.len() ==> Some((#[trigger] results@[k])@)
                == spec_decode_event::<A>(apply_chain(upcasters@, orig[k]@)),
        decreases events@.len(),
    {
        let ghost n = results@.len() as int;
        proof {
            assert(events@[0] == orig.skip(n)[0]);
            assert(orig.skip(n)[0] == orig[n]);
        }
        let event = events.remove(0);
        let upcasted = event.upcast(upcasters);
        match deserialize_event::<A>(upcasted) {
            Ok(env) => results.push(env),
            Err(e) => {
                proof {
                    let recs = records_view(orig);
                    assert(recs[n] == orig[n]@);
                    assert(spec_decode_event::<A>(apply_chain(upcasters@, orig[n]@)) is None);
                    assert forall|j: int| 0 <= j < n implies spec_decode_event::<A>(
                        apply_chain(upcasters@, #[trigger] recs[j]),
                    ) is Some by {
                        assert(recs[j] == orig[j]@);
                        assert(Some((results@[j])@) == spec_decode_event::<A>(
                            apply_chain(upcasters@, orig[j]@),
                        ));
                    }
                    assert(spec_first_failure::<A, U>(upcasters@, recs, n));
                    assert(!(spec_decode_event::<A>(
                        apply_chain(upcasters@, (orig[n])@),
                    ) is Some));
                }
                return Err(e);
            },
        }
        proof {
            assert(orig.skip(n) =~= seq![orig[n]] + orig.skip(n + 1));
            assert(orig.skip(n).drop_first() =~= orig.skip(n + 1));
        }
    }
    proof {
        assert(results@.len() == orig.len());
        assert forall|i: int| 0 <= i < orig.len() implies spec_decode_event::<A>(
            apply_chain(upcasters@, (#[trigger] orig[i])@),
        ) is Some by {
            assert(Some((results@[i])@) == spec_decode_event::<A>(
                apply_chain(upcasters@, orig[i]@),
            ));
        }
    }
    Ok(results)
}

} // verus!
