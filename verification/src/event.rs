//! Typed events and aggregates, and the capability that lets them be
//! carried as structured values.
//!
//! The encoder and decoder do not know the concrete shape of a domain
//! event or an aggregate state; callers supply it through the
//! [`JsonCodec`] capability, whose contract pins the encoded form to a
//! mathematical model and obliges every implementor to prove that decoding
//! an encoded value gives the value back.

use vstd::prelude::*;

use crate::error::EncodeError;
use crate::value::JsonValue;
use crate::value::JsonView;

verus! {

/// A typed value that can be carried as a structured value.
///
/// `encoding` and `decoding` are the mathematical models of the two
/// conversions; `lemma_round_trip` obliges every implementor to prove that
/// decoding an encoded value yields the value itself, which is what the
/// round-trip law of the encoder rests on.
pub trait JsonCodec: View + Sized {
    /// Whether this value can be encoded at all.
    spec fn encodable(v: Self::V) -> bool;

    /// The structured form of an encodable value.
    spec fn encoding(v: Self::V) -> JsonView;

    /// The typed value a structured value decodes to, if its shape matches.
    spec fn decoding(j: JsonView) -> Option<Self::V>;

    /// Decoding an encoded value gives the value back.
    proof fn lemma_round_trip(v: Self::V)
        requires
            Self::encodable(v),
        ensures
            Self::decoding(Self::encoding(v)) == Some(v),
    ;

    /// Structurally encode this value.
    fn encode(&self) -> (r: Result<JsonValue, EncodeError>)
        ensures
            r is Ok <==> Self::encodable(self@),
            r matches Ok(j) ==> j@ == Self::encoding(self@),
    ;

    /// Reconstruct a typed value from a structured value, `None` if the
    /// shape does not match.
    fn decode(j: &JsonValue) -> (r: Option<Self>)
        ensures
            r is Some <==> Self::decoding(j@) is Some,
            r matches Some(v) ==> Some(v@) == Self::decoding(j@),
    ;
}

/// A domain event: a typed fact about an aggregate, tagged with its own
/// logical kind and schema version.
pub trait DomainEvent: JsonCodec {
    /// The logical kind of the event.
    spec fn type_of(v: Self::V) -> Seq<char>;

    /// The schema version of the event.
    spec fn version_of(v: Self::V) -> Seq<char>;

    /// The logical kind of the event, as stored in a record.
    fn event_type(&self) -> (r: String)
        ensures
            r@ == Self::type_of(self@),
    ;

    /// The schema version of the event, as stored in a record.
    fn event_version(&self) -> (r: String)
        ensures
            r@ == Self::version_of(self@),
    ;
}

/// An aggregate: a consistency boundary whose state is derived by folding
/// its ordered events, and whose kind names the stream records belong to.
pub trait Aggregate: JsonCodec {
    /// The events of this aggregate.
    type Event: DomainEvent;

    /// The kind tag written into every record of this aggregate's streams.
    spec fn aggregate_type_spec() -> Seq<char>;

    /// The kind tag written into every record of this aggregate's streams.
    fn aggregate_type() -> (r: String)
        ensures
            r@ == Self::aggregate_type_spec(),
    ;
}

/// A domain event paired with its stream position and metadata.
pub struct EventEnvelope<A: Aggregate> {
    /// The aggregate instance the event belongs to.
    pub aggregate_id: String,
    /// The position of the event within its aggregate's stream.
    pub sequence: usize,
    /// The typed domain event.
    pub payload: A::Event,
    /// Additional metadata, a flat string-to-string mapping.
    pub metadata: Vec<(String, String)>,
}

/// The mathematical model of an [`EventEnvelope`].
#[verifier::ext_equal]
pub struct EventEnvelopeView<A: Aggregate> {
    /// Model of the aggregate id.
    pub aggregate_id: Seq<char>,
    /// Model of the stream position.
    pub sequence: int,
    /// Model of the typed payload.
    pub payload: <A::Event as View>::V,
    /// Model of the metadata mapping.
    pub metadata: Seq<(Seq<char>, Seq<char>)>,
}

/// The model of a metadata mapping: each pair as character sequences.
pub open spec fn metadata_view(m: Seq<(String, String)>) -> Seq<(Seq<char>, Seq<char>)> {
    m.map_values(|p: (String, String)| (p.0@, p.1@))
}

impl<A: Aggregate> View for EventEnvelope<A> {
    type V = EventEnvelopeView<A>;

    open spec fn view(&self) -> EventEnvelopeView<A> {
        EventEnvelopeView {
            aggregate_id: self.aggregate_id@,
            sequence: self.sequence as int,
            payload: self.payload@,
            metadata: metadata_view(self.metadata@),
        }
    }
}

} // verus!
