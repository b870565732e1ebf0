//! Integration tests for the encoder, decoder and batch conversion,
//! driven through the sample account domain.

use event_codec::EncodeError;
use event_codec::EventEnvelope;
use event_codec::JsonValue;
use event_codec::PersistenceError;
use event_codec::SerializedEvent;
use event_codec::deserialize_event;
use event_codec::deserialize_events;
use event_codec::sample::Account;
use event_codec::sample::AccountEvent;
use event_codec::sample::AddFieldUpcaster;
use event_codec::serialize_event;
use event_codec::serialize_events;

fn s(x: &str) -> String {
    x.to_string()
}

fn int_obj(key: &str, v: i64) -> JsonValue {
    JsonValue::Obj(vec![(s(key), JsonValue::Int(v))])
}

fn open_envelope(id: &str, sequence: usize, balance: u64) -> EventEnvelope<Account> {
    EventEnvelope {
        aggregate_id: s(id),
        sequence,
        payload: AccountEvent::AccountOpened { balance },
        metadata: vec![(s("correlation_id"), s("c-1"))],
    }
}

#[test]
fn round_trip_event() {
    let envelope = open_envelope("acct-1", 1, 0);
    let record = serialize_event(&envelope).unwrap();
    assert_eq!(record.aggregate_id, "acct-1");
    assert_eq!(record.sequence, 1);
    assert_eq!(record.aggregate_type, "Account");
    assert_eq!(record.event_type, "AccountOpened");
    assert_eq!(record.event_version, "1.0");
    assert!(record.payload.equals(&int_obj("balance", 0)));
    assert!(record.metadata.equals(&JsonValue::Obj(vec![(
        s("correlation_id"),
        JsonValue::Str(s("c-1")),
    )])));

    let back: EventEnvelope<Account> = deserialize_event(record).unwrap();
    assert_eq!(back.aggregate_id, envelope.aggregate_id);
    assert_eq!(back.sequence, envelope.sequence);
    assert_eq!(back.payload, envelope.payload);
    assert_eq!(back.metadata, envelope.metadata);
}

#[test]
fn round_trip_deposit_event() {
    let envelope = EventEnvelope::<Account> {
        aggregate_id: s("acct-2"),
        sequence: 4,
        payload: AccountEvent::MoneyDeposited { amount: 250 },
        metadata: vec![],
    };
    let record = serialize_event(&envelope).unwrap();
    assert_eq!(record.event_type, "MoneyDeposited");
    assert!(record.payload.equals(&int_obj("amount", 250)));
    let back: EventEnvelope<Account> = deserialize_event(record).unwrap();
    assert_eq!(back.payload, AccountEvent::MoneyDeposited { amount: 250 });
    assert_eq!(back.metadata, vec![]);
}

#[test]
fn serialized_event_new_sets_every_field() {
    let record = SerializedEvent::new(
        s("acct-9"),
        3,
        s("Account"),
        s("AccountOpened"),
        s("1.0"),
        int_obj("balance", 7),
        JsonValue::Obj(vec![]),
    );
    assert_eq!(record.aggregate_id, "acct-9");
    assert_eq!(record.sequence, 3);
    assert_eq!(record.aggregate_type, "Account");
    assert_eq!(record.event_type, "AccountOpened");
    assert_eq!(record.event_version, "1.0");
    assert!(record.payload.equals(&int_obj("balance", 7)));
    assert!(record.metadata.equals(&JsonValue::Obj(vec![])));
}

#[test]
fn encode_rejects_unsupported_balance() {
    let envelope = open_envelope("acct-1", 1, u64::MAX);
    match serialize_event(&envelope) {
        Err(PersistenceError::Encode(e)) => assert_eq!(e, EncodeError::UnsupportedValue),
        _ => panic!("expected an encode error"),
    }
}

#[test]
fn decode_error_carries_identity() {
    let record = SerializedEvent::new(
        s("acct-3"),
        8,
        s("Account"),
        s("AccountOpened"),
        s("1.0"),
        JsonValue::Str(s("not a map")),
        JsonValue::Obj(vec![]),
    );
    match deserialize_event::<Account>(record) {
        Err(PersistenceError::Decode(d)) => {
            assert_eq!(d.aggregate_id, "acct-3");
            assert_eq!(d.sequence, 8);
        },
        _ => panic!("expected a decode error"),
    }
}

#[test]
fn decode_rejects_negative_balance() {
    let record = SerializedEvent::new(
        s("acct-3"),
        2,
        s("Account"),
        s("AccountOpened"),
        s("1.0"),
        int_obj("balance", -1),
        JsonValue::Obj(vec![]),
    );
    assert!(deserialize_event::<Account>(record).is_err());
}

#[test]
fn decode_rejects_bad_metadata() {
    let record = SerializedEvent::new(
        s("acct-3"),
        2,
        s("Account"),
        s("AccountOpened"),
        s("1.0"),
        int_obj("balance", 1),
        JsonValue::Obj(vec![(s("correlation_id"), JsonValue::Int(5))]),
    );
    assert!(deserialize_event::<Account>(record).is_err());
}

#[test]
fn metadata_round_trip_preserves_entries() {
    let envelope = EventEnvelope::<Account> {
        aggregate_id: s("acct-7"),
        sequence: 1,
        payload: AccountEvent::AccountOpened { balance: 10 },
        metadata: vec![(s("causation_id"), s("a")), (s("correlation_id"), s("b"))],
    };
    let record = serialize_event(&envelope).unwrap();
    let back: EventEnvelope<Account> = deserialize_event(record).unwrap();
    assert_eq!(back.metadata, vec![(s("causation_id"), s("a")), (s("correlation_id"), s("b"))]);
}

#[test]
fn decode_many_preserves_order() {
    let envelopes = vec![
        open_envelope("acct-1", 7, 1),
        open_envelope("acct-1", 8, 2),
        open_envelope("acct-1", 9, 3),
    ];
    let records = serialize_events(&envelopes).unwrap();
    assert_eq!(records.len(), 3);
    let no_match = vec![AddFieldUpcaster {
        event_type: s("AccountOpened"),
        from_version: s("9.9"),
        to_version: s("10.0"),
        field: s("currency"),
        value: s("USD"),
    }];
    let back: Vec<EventEnvelope<Account>> = deserialize_events(records, &no_match).unwrap();
    assert_eq!(back.len(), 3);
    assert_eq!(back[0].sequence, 7);
    assert_eq!(back[1].sequence, 8);
    assert_eq!(back[2].sequence, 9);
    assert_eq!(back[0].payload, AccountEvent::AccountOpened { balance: 1 });
    assert_eq!(back[1].payload, AccountEvent::AccountOpened { balance: 2 });
    assert_eq!(back[2].payload, AccountEvent::AccountOpened { balance: 3 });
}

#[test]
fn batch_decode_fails_atomically() {
    let envelopes = vec![open_envelope("acct-1", 1, 1), open_envelope("acct-1", 3, 3)];
    let mut records = serialize_events(&envelopes).unwrap();
    let bad = SerializedEvent::new(
        s("acct-1"),
        2,
        s("Account"),
        s("AccountOpened"),
        s("1.0"),
        JsonValue::Null,
        JsonValue::Obj(vec![]),
    );
    records.insert(1, bad);
    let chain: Vec<AddFieldUpcaster> = vec![];
    match deserialize_events::<Account, AddFieldUpcaster>(records, &chain) {
        Err(PersistenceError::Decode(d)) => {
            assert_eq!(d.aggregate_id, "acct-1");
            assert_eq!(d.sequence, 2);
        },
        _ => panic!("expected the batch to fail with the failing item's error"),
    }
}

#[test]
fn batch_encode_fails_atomically() {
    let envelopes = vec![
        open_envelope("acct-1", 1, 1),
        open_envelope("acct-1", 2, u64::MAX),
        open_envelope("acct-1", 3, 3),
    ];
    match serialize_events(&envelopes) {
        Err(PersistenceError::Encode(e)) => assert_eq!(e, EncodeError::UnsupportedValue),
        _ => panic!("expected the batch to fail with an encode error"),
    }
}

#[test]
fn empty_batches_convert_to_empty() {
    let envelopes: Vec<EventEnvelope<Account>> = vec![];
    let records = serialize_events(&envelopes).unwrap();
    assert!(records.is_empty());
    let chain: Vec<AddFieldUpcaster> = vec![];
    let back: Vec<EventEnvelope<Account>> = deserialize_events(vec![], &chain).unwrap();
    assert!(back.is_empty());
}

#[test]
fn json_equals_is_structural() {
    let a = JsonValue::Obj(vec![
        (s("a"), JsonValue::Int(1)),
        (s("b"), JsonValue::Arr(vec![JsonValue::Bool(true), JsonValue::Null])),
    ]);
    let b = JsonValue::Obj(vec![
        (s("a"), JsonValue::Int(1)),
        (s("b"), JsonValue::Arr(vec![JsonValue::Bool(true), JsonValue::Null])),
    ]);
    assert!(a.equals(&b));
    let reordered = JsonValue::Obj(vec![
        (s("b"), JsonValue::Arr(vec![JsonValue::Bool(true), JsonValue::Null])),
        (s("a"), JsonValue::Int(1)),
    ]);
    assert!(!a.equals(&reordered));
    assert!(!a.equals(&JsonValue::Null));
}
