//! The upcaster chain: an ordered set of schema-migration rules applied to
//! a serialized event record before it is decoded.
//!
//! Processing is a single forward pass, a left fold: each rule in order is
//! asked whether it matches the record's *current* event type and version;
//! if it does, its transform replaces the record, and the result — which
//! may carry a different type or version — is what the next rule sees. A
//! rule earlier in the list is never re-evaluated after a later rule
//! changes the record; authors are expected to order rules by ascending
//! source version so one pass walks a record to the latest schema.

use vstd::prelude::*;

use crate::serialized::SerializedEvent;
use crate::serialized::SerializedEventView;

verus! {

/// A schema-migration rule: rewrites a serialized event stored under an
/// older schema into a newer one.
///
/// `can_upcast_spec` and `upcast_spec` are the rule's mathematical model;
/// the two methods are obliged to agree with it. A transform must be total
/// for every record its predicate matches — this stage cannot fail.
pub trait EventUpcaster: Sized {
    /// Whether this rule applies to a record with the given event type and
    /// version.
    spec fn can_upcast_spec(&self, event_type: Seq<char>, event_version: Seq<char>) -> bool;

    /// The record this rule rewrites a matched record to.
    spec fn upcast_spec(&self, event: SerializedEventView) -> SerializedEventView;

    /// Whether this rule applies to a record with the given event type and
    /// version.
    fn can_upcast(&self, event_type: &str, event_version: &str) -> (r: bool)
        ensures
            r == self.can_upcast_spec(event_type@, event_version@),
    ;

    /// Rewrite a matched record.
    fn upcast(&self, event: SerializedEvent) -> (r: SerializedEvent)
        requires
            self.can_upcast_spec(event@.event_type, event@.event_version),
        ensures
            r@ == self.upcast_spec(event@),
    ;
}

/// One step of the chain: the record a single rule leaves behind — its
/// rewrite if the rule matches the record's current tags, the record
/// unchanged otherwise.
pub open spec fn apply_rule<U: EventUpcaster>(
    rule: U,
    event: SerializedEventView,
) -> SerializedEventView {
    if rule.can_upcast_spec(event.event_type, event.event_version) {
        rule.upcast_spec(event)
    } else {
        event
    }
}

/// The record an ordered chain of rules leaves behind: a left fold of
/// [`apply_rule`] over the rules, in order, in a single forward pass.
pub open spec fn apply_chain<U: EventUpcaster>(
    rules: Seq<U>,
    event: SerializedEventView,
) -> SerializedEventView
    decreases rules.len(),
{
    if rules.len() == 0 {
        event
    } else {
        apply_chain(rules.drop_first(), apply_rule(rules.first(), event))
    }
}

impl SerializedEvent {
    /// Run this record through an ordered chain of upcasting rules in a
    /// single forward pass.
    pub fn upcast<U: EventUpcaster>(self, upcasters: &Vec<U>) -> (r: Self)
        ensures
            r@ == apply_chain(upcasters@, self@),
    {
        let ghost orig = self@;
        let mut event = self;
        let mut i: usize = 0;
        proof {
            assert(upcasters@.skip(0) =~= upcasters@);
        }
        while i < upcasters.len()
            invariant
                i <= upcasters@.len(),
                apply_chain(upcasters@.skip(i as int), event@) == apply_chain(upcasters@, orig),
            decreases upcasters@.len() - i,
        {
            proof {
                assert(upcasters@.skip(i as int).first() == upcasters@[i as int]);
                assert(upcasters@.skip(i as int).drop_first() =~= upcasters@.skip(i as int + 1));
            }
            let rule = &upcasters[i];
            if rule.can_upcast(event.event_type.as_str(), event.event_version.as_str()) {
                event = rule.upcast(event);
            }
            i = i + 1;
        }
        proof {
            assert(upcasters@.skip(upcasters@.len() as int) =~= Seq::<U>::empty());
        }
        event
    }
}

/// A record no rule of the chain ever matches — in particular one already
/// at the current schema, whose tags every rule declines at every step —
/// passes through the whole chain unchanged.
pub proof fn lemma_chain_no_match<U: EventUpcaster>(rules: Seq<U>, event: SerializedEventView)
    requires
        forall|i: int| 0 <= i < rules.len()
            ==> !(#[trigger] rules[i].can_upcast_spec(event.event_type, event.event_version)),
    ensures
        apply_chain(rules, event) == event,
    decreases rules.len(),
{
    if rules.len() > 0 {
        assert(rules[0].can_upcast_spec(event.event_type, event.event_version) == false);
        assert(forall|i: int| 0 <= i < rules.drop_first().len()
            ==> rules.drop_first()[i] == rules[i + 1]);
        lemma_chain_no_match(rules.drop_first(), event);
    }
}

/// Rules ordered by ascending source version converge in one pass: if the
/// first rule matches the record and the second matches the first rule's
/// output, a two-rule chain rewrites the record through both.
pub proof fn lemma_chain_converges<U: EventUpcaster>(r1: U, r2: U, event: SerializedEventView)
    requires
        r1.can_upcast_spec(event.event_type, event.event_version),
        r2.can_upcast_spec(
            r1.upcast_spec(event).event_type,
            r1.upcast_spec(event).event_version,
        ),
    ensures
        apply_chain(seq![r1, r2], event) == r2.upcast_spec(r1.upcast_spec(event)),
{
    reveal_with_fuel(apply_chain, 3);
    assert(seq![r1, r2].first() == r1);
    assert(seq![r1, r2].drop_first() =~= seq![r2]);
    assert(seq![r2].first() == r2);
    assert(seq![r2].drop_first() =~= Seq::<U>::empty());
    let e1 = apply_rule(r1, event);
    assert(apply_chain(seq![r1, r2], event) == apply_chain(seq![r2], e1));
    assert(apply_chain(seq![r2], e1) == apply_chain(Seq::<U>::empty(), apply_rule(r2, e1)));
}

/// With the same two rules in the opposite order, the pass stops halfway:
/// the later rule's target version is never re-examined, so the record
/// ends at the intermediate schema.
pub proof fn lemma_chain_reversed_stops<U: EventUpcaster>(r1: U, r2: U, event: SerializedEventView)
    requires
        !r2.can_upcast_spec(event.event_type, event.event_version),
        r1.can_upcast_spec(event.event_type, event.event_version),
    ensures
        apply_chain(seq![r2, r1], event) == r1.upcast_spec(event),
{
    reveal_with_fuel(apply_chain, 3);
    assert(seq![r2, r1].first() == r2);
    assert(seq![r2, r1].drop_first() =~= seq![r1]);
    assert(seq![r1].first() == r1);
    assert(seq![r1].drop_first() =~= Seq::<U>::empty());
    assert(apply_chain(seq![r2, r1], event) == apply_chain(seq![r1], event));
    assert(apply_chain(seq![r1], event) == apply_chain(Seq::<U>::empty(), apply_rule(r1, event)));
}

} // verus!
