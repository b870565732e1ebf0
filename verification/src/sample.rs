//! A small sample domain: a bank account aggregate with two events and a
//! schema-bumping upcaster rule. It shows how the capability traits are
//! implemented and proved, and gives the integration tests concrete types
//! to drive the encoder, decoder and upcaster chain with.

use vstd::prelude::*;
use vstd::string::StringExecFns;

use crate::error::EncodeError;
use crate::event::Aggregate;
use crate::event::DomainEvent;
use crate::event::JsonCodec;
use crate::serialized::SerializedEvent;
use crate::serialized::SerializedEventView;
use crate::upcaster::EventUpcaster;
use crate::value::JsonValue;
use crate::value::JsonView;
use crate::value::json_obj_view;
use crate::value::lemma_json_obj_view;

verus! {

/// An event of the sample account aggregate.
#[derive(Clone, Copy, Debug, PartialEq, Eq, Structural)]
pub enum AccountEvent {
    /// The account was opened with an initial balance.
    AccountOpened {
        /// The initial balance.
        balance: u64,
    },
    /// Money was deposited into the account.
    MoneyDeposited {
        /// The deposited amount.
        amount: u64,
    },
}

impl View for AccountEvent {
    type V = AccountEvent;

    open spec fn view(&self) -> AccountEvent {
        *self
    }
}

impl JsonCodec for AccountEvent {
    open spec fn encodable(v: AccountEvent) -> bool {
        match v {
            AccountEvent::AccountOpened { balance } => balance <= i64::MAX as u64,
            AccountEvent::MoneyDeposited { amount } => amount <= i64::MAX as u64,
        }
    }

    open spec fn encoding(v: AccountEvent) -> JsonView {
        match v {
            AccountEvent::AccountOpened { balance } => JsonView::Obj(
                seq![("balance"@, JsonView::Int(balance as int))],
            ),
            AccountEvent::MoneyDeposited { amount } => JsonView::Obj(
                seq![("amount"@, JsonView::Int(amount as int))],
            ),
        }
    }

    open spec fn decoding(j: JsonView) -> Option<AccountEvent> {
        match j {
            JsonView::Obj(entries) => if entries.len() == 1 && entries[0].0 == "balance"@
                && entries[0].1 is Int && 0 <= entries[0].1->Int_0 <= i64::MAX as u64 {
                Some(AccountEvent::AccountOpened { balance: entries[0].1->Int_0 as u64 })
            } else if entries.len() == 1 && entries[0].0 == "amount"@ && entries[0].1 is Int && 0
                <= entries[0].1->Int_0 <= i64::MAX as u64 {
                Some(AccountEvent::MoneyDeposited { amount: entries[0].1->Int_0 as u64 })
            } else {
                None
            },
            _ => None,
        }
    }

    proof fn lemma_round_trip(v: AccountEvent) {
        reveal_strlit("balance");
        reveal_strlit("amount");
        assert("balance"@.len() == 7);
        assert("amount"@.len() == 6);
        match v {
            AccountEvent::AccountOpened { balance } => {
                assert(Self::decoding(Self::encoding(v)) == Some(v));
            },
            AccountEvent::MoneyDeposited { amount } => {
                assert("amount"@ != "balance"@);
                assert(Self::decoding(Self::encoding(v)) == Some(v));
            },
        }
    }

    fn encode(&self) -> (r: Result<JsonValue, EncodeError>) {
        let (key, quantity): (&str, u64) = match self {
            AccountEvent::AccountOpened { balance } => ("balance", *balance),
            AccountEvent::MoneyDeposited { amount } => ("amount", *amount),
        };
        if quantity > i64::MAX as u64 {
            return Err(EncodeError::UnsupportedValue);
        }
        let mut pairs: Vec<(String, JsonValue)> = Vec::new();
        pairs.push((String::from_str(key), JsonValue::Int(quantity as i64)));
        let r = JsonValue::Obj(pairs);
        proof {
            lemma_json_obj_view(r->Obj_0@);
            assert(json_obj_view(r->Obj_0@) =~= seq![(key@, JsonView::Int(quantity as int))]);
        }
        Ok(r)
    }

    fn decode(j: &JsonValue) -> (r: Option<AccountEvent>) {
        match j {
            JsonValue::Obj(entries) => {
                proof {
                    lemma_json_obj_view(entries@);
                }
                if entries.len() != 1 {
                    return None;
                }
                let entry = &entries[0];
                match &entry.1 {
                    JsonValue::Int(v) => {
                        if *v < 0 {
                            return None;
                        }
                        let key_balance = String::from_str("balance");
                        if entry.0.eq(&key_balance) {
                            return Some(AccountEvent::AccountOpened { balance: *v as u64 });
                        }
                        let key_amount = String::from_str("amount");
                        if entry.0.eq(&key_amount) {
                            return Some(AccountEvent::MoneyDeposited { amount: *v as u64 });
                        }
                        None
                    },
                    _ => None,
                }
            },
            _ => None,
        }
    }
}

impl DomainEvent for AccountEvent {
    open spec fn type_of(v: AccountEvent) -> Seq<char> {
        match v {
            AccountEvent::AccountOpened { .. } => "AccountOpened"@,
            AccountEvent::MoneyDeposited { .. } => "MoneyDeposited"@,
        }
    }

    open spec fn version_of(v: AccountEvent) -> Seq<char> {
        "1.0"@
    }

    fn event_type(&self) -> (r: String) {
        match self {
            AccountEvent::AccountOpened { .. } => String::from_str("AccountOpened"),
            AccountEvent::MoneyDeposited { .. } => String::from_str("MoneyDeposited"),
        }
    }

    fn event_version(&self) -> (r: String) {
        String::from_str("1.0")
    }
}

/// The state of the sample account aggregate.
#[derive(Clone, Copy, Debug, PartialEq, Eq, Structural)]
pub struct Account {
    /// The current balance.
    pub balance: u64,
}

impl View for Account {
    type V = Account;

    open spec fn view(&self) -> Account {
        *self
    }
}

impl JsonCodec for Account {
    open spec fn encodable(v: Account) -> bool {
        v.balance <= i64::MAX as u64
    }

    open spec fn encoding(v: Account) -> JsonView {
        JsonView::Obj(seq![("balance"@, JsonView::Int(v.balance as int))])
    }

    open spec fn decoding(j: JsonView) -> Option<Account> {
        match j {
            JsonView::Obj(entries) => if entries.len() == 1 && entries[0].0 == "balance"@
                && entries[0].1 is Int && 0 <= entries[0].1->Int_0 <= i64::MAX as u64 {
                Some(Account { balance: entries[0].1->Int_0 as u64 })
            } else {
                None
            },
            _ => None,
        }
    }

    proof fn lemma_round_trip(v: Account) {
    }

    fn encode(&self) -> (r: Result<JsonValue, EncodeError>) {
        if self.balance > i64::MAX as u64 {
            return Err(EncodeError::UnsupportedValue);
        }
        let mut pairs: Vec<(String, JsonValue)> = Vec::new();
        pairs.push((String::from_str("balance"), JsonValue::Int(self.balance as i64)));
        let r = JsonValue::Obj(pairs);
        proof {
            lemma_json_obj_view(r->Obj_0@);
            assert(json_obj_view(r->Obj_0@) =~= seq![
                ("balance"@, JsonView::Int(self.balance as int)),
            ]);
        }
        Ok(r)
    }

    fn decode(j: &JsonValue) -> (r: Option<Account>) {
        match j {
            JsonValue::Obj(entries) => {
                proof {
                    lemma_json_obj_view(entries@);
                }
                if entries.len() != 1 {
                    return None;
                }
                let entry = &entries[0];
                match &entry.1 {
                    JsonValue::Int(v) => {
                        if *v < 0 {
                            return None;
                        }
                        let key_balance = String::from_str("balance");
                        if entry.0.eq(&key_balance) {
                            return Some(Account { balance: *v as u64 });
                        }
                        None
                    },
                    _ => None,
                }
            },
            _ => None,
        }
    }
}

impl Aggregate for Account {
    type Event = AccountEvent;

    open spec fn aggregate_type_spec() -> Seq<char> {
        "Account"@
    }

    fn aggregate_type() -> (r: String) {
        String::from_str("Account")
    }
}

/// A sample upcaster rule: matches one event type at one schema version,
/// bumps the record to a target version and appends one string field to an
/// object payload. A payload that is not a map is left untouched.
pub struct AddFieldUpcaster {
    /// The event type this rule applies to.
    pub event_type: String,
    /// The schema version this rule migrates from.
    pub from_version: String,
    /// The schema version this rule migrates to.
    pub to_version: String,
    /// The key of the appended field.
    pub field: String,
    /// The string value of the appended field.
    pub value: String,
}

impl EventUpcaster for AddFieldUpcaster {
    open spec fn can_upcast_spec(&self, event_type: Seq<char>, event_version: Seq<char>) -> bool {
        event_type == self.event_type@ && event_version == self.from_version@
    }

    open spec fn upcast_spec(&self, event: SerializedEventView) -> SerializedEventView {
        SerializedEventView {
            aggregate_id: event.aggregate_id,
            sequence: event.sequence,
            aggregate_type: event.aggregate_type,
            event_type: event.event_type,
            event_version: self.to_version@,
            payload: match event.payload {
                JsonView::Obj(entries) => JsonView::Obj(
                    entries.push((self.field@, JsonView::Str(self.value@))),
                ),
                _ => event.payload,
            },
            metadata: event.metadata,
        }
    }

    fn can_upcast(&self, event_type: &str, event_version: &str) -> (r: bool) {
        let t = String::from_str(event_type);
        let v = String::from_str(event_version);
        t.eq(&self.event_type) && v.eq(&self.from_version)
    }

    fn upcast(&self, event: SerializedEvent) -> (r: SerializedEvent) {
        let SerializedEvent {
            aggregate_id,
            sequence,
            aggregate_type,
            event_type,
            event_version: _,
            payload,
            metadata,
        } = event;
        let new_payload = match payload {
            JsonValue::Obj(entries) => {
                let ghost entries0 = entries@;
                let mut entries = entries;
                entries.push((self.field.clone(), JsonValue::Str(self.value.clone())));
                let p = JsonValue::Obj(entries);
                proof {
                    lemma_json_obj_view(entries0);
                    lemma_json_obj_view(p->Obj_0@);
                    assert(json_obj_view(p->Obj_0@) =~= json_obj_view(entries0).push(
                        (self.field@, JsonView::Str(self.value@)),
                    ));
                }
                p
            },
            other => other,
        };
        SerializedEvent {
            aggregate_id,
            sequence,
            aggregate_type,
            event_type,
            event_version: self.to_version.clone(),
            payload: new_payload,
            metadata,
        }
    }
}

} // verus!
