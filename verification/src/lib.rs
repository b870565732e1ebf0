//! Event serialization and schema evolution for an event-sourced
//! persistence layer.
//!
//! The crate converts typed domain events, their metadata and aggregate
//! snapshots into a persistence-neutral structured representation and back,
//! and upgrades records stored under an older schema through an ordered
//! chain of upcasting rules before they are decoded.

pub mod codec;
pub mod error;
pub mod event;
pub mod sample;
pub mod serialized;
pub mod snapshot;
pub mod upcaster;
pub mod value;

pub use codec::deserialize_event;
pub use codec::deserialize_events;
pub use codec::serialize_event;
pub use codec::serialize_events;
pub use error::DecodeError;
pub use error::EncodeError;
pub use error::PersistenceError;
pub use event::Aggregate;
pub use event::DomainEvent;
pub use event::EventEnvelope;
pub use event::JsonCodec;
pub use serialized::SerializedEvent;
pub use serialized::SerializedSnapshot;
pub use snapshot::EventStoreAggregateContext;
pub use snapshot::encode_snapshot;
pub use snapshot::reconstruct;
pub use upcaster::EventUpcaster;
pub use value::JsonValue;
pub use value::JsonView;
