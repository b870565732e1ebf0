//! Integration tests for the upcaster chain and the snapshot path.

use event_codec::EventStoreAggregateContext;
use event_codec::JsonValue;
use event_codec::PersistenceError;
use event_codec::SerializedEvent;
use event_codec::SerializedSnapshot;
use event_codec::encode_snapshot;
use event_codec::reconstruct;
use event_codec::sample::Account;
use event_codec::sample::AddFieldUpcaster;

fn s(x: &str) -> String {
    x.to_string()
}

fn opened_record(version: &str) -> SerializedEvent {
    SerializedEvent::new(
        s("acct-1"),
        1,
        s("Account"),
        s("AccountOpened"),
        s(version),
        JsonValue::Obj(vec![(s("balance"), JsonValue::Int(0))]),
        JsonValue::Obj(vec![]),
    )
}

fn currency_rule(from: &str, to: &str) -> AddFieldUpcaster {
    AddFieldUpcaster {
        event_type: s("AccountOpened"),
        from_version: s(from),
        to_version: s(to),
        field: s("currency"),
        value: s("USD"),
    }
}

fn region_rule(from: &str, to: &str) -> AddFieldUpcaster {
    AddFieldUpcaster {
        event_type: s("AccountOpened"),
        from_version: s(from),
        to_version: s(to),
        field: s("region"),
        value: s("EU"),
    }
}

#[test]
fn account_opened_upcast_scenario() {
    let record = opened_record("1.0");
    let chain = vec![currency_rule("1.0", "2.0")];
    let upcasted = record.upcast(&chain);
    assert_eq!(upcasted.event_version, "2.0");
    assert!(upcasted.payload.equals(&JsonValue::Obj(vec![
        (s("balance"), JsonValue::Int(0)),
        (s("currency"), JsonValue::Str(s("USD"))),
    ])));
    match &upcasted.payload {
        JsonValue::Obj(entries) => {
            let currency = entries.iter().find(|(k, _)| k == "currency").unwrap();
            assert!(currency.1.equals(&JsonValue::Str(s("USD"))));
        },
        _ => panic!("expected an object payload"),
    }
}

#[test]
fn upcast_current_version_is_identity() {
    let record = opened_record("2.0");
    let chain = vec![currency_rule("1.0", "2.0")];
    let reference = opened_record("2.0");
    let upcasted = record.upcast(&chain);
    assert!(upcasted.equals(&reference));
}

#[test]
fn upcast_empty_chain_is_identity() {
    let record = opened_record("1.0");
    let chain: Vec<AddFieldUpcaster> = vec![];
    let reference = opened_record("1.0");
    let upcasted = record.upcast(&chain);
    assert!(upcasted.equals(&reference));
}

#[test]
fn upcast_single_pass_converges() {
    let record = opened_record("1.0");
    let chain = vec![currency_rule("1.0", "2.0"), region_rule("2.0", "3.0")];
    let upcasted = record.upcast(&chain);
    assert_eq!(upcasted.event_version, "3.0");
    assert!(upcasted.payload.equals(&JsonValue::Obj(vec![
        (s("balance"), JsonValue::Int(0)),
        (s("currency"), JsonValue::Str(s("USD"))),
        (s("region"), JsonValue::Str(s("EU"))),
    ])));
}

#[test]
fn upcast_reversed_order_stops_midway() {
    let record = opened_record("1.0");
    let chain = vec![region_rule("2.0", "3.0"), currency_rule("1.0", "2.0")];
    let upcasted = record.upcast(&chain);
    assert_eq!(upcasted.event_version, "2.0");
    assert!(upcasted.payload.equals(&JsonValue::Obj(vec![
        (s("balance"), JsonValue::Int(0)),
        (s("currency"), JsonValue::Str(s("USD"))),
    ])));
}

#[test]
fn upcast_skips_other_event_types() {
    let mut record = opened_record("1.0");
    record.event_type = s("MoneyDeposited");
    let chain = vec![currency_rule("1.0", "2.0")];
    let upcasted = record.upcast(&chain);
    assert_eq!(upcasted.event_version, "1.0");
    assert!(upcasted.payload.equals(&JsonValue::Obj(vec![(s("balance"), JsonValue::Int(0))])));
}

#[test]
fn snapshot_round_trip() {
    let state = Account { balance: 42 };
    let snapshot = encode_snapshot(s("acct-5"), &state, 5, 2).unwrap();
    assert_eq!(snapshot.aggregate_id, "acct-5");
    assert_eq!(snapshot.current_sequence, 5);
    assert_eq!(snapshot.current_snapshot, 2);
    assert!(snapshot.aggregate.equals(&JsonValue::Obj(vec![(s("balance"), JsonValue::Int(42))])));

    let context: EventStoreAggregateContext<Account> = reconstruct(snapshot).unwrap();
    assert_eq!(context.aggregate_id, "acct-5");
    assert_eq!(context.aggregate, Account { balance: 42 });
    assert_eq!(context.current_sequence, 5);
    assert_eq!(context.current_snapshot, Some(2));
}

#[test]
fn reconstruct_rejects_bad_state() {
    let snapshot = SerializedSnapshot {
        aggregate_id: s("acct-5"),
        aggregate: JsonValue::Int(3),
        current_sequence: 9,
        current_snapshot: 1,
    };
    match reconstruct::<Account>(snapshot) {
        Err(PersistenceError::Decode(d)) => {
            assert_eq!(d.aggregate_id, "acct-5");
            assert_eq!(d.sequence, 9);
        },
        _ => panic!("expected a decode error"),
    }
}

#[test]
fn encode_snapshot_rejects_unsupported_state() {
    let state = Account { balance: u64::MAX };
    assert!(encode_snapshot(s("acct-5"), &state, 1, 1).is_err());
}
