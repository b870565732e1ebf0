//! The structured value: a nested, self-describing container used as the
//! wire-neutral representation of event payloads, metadata and snapshots.

use vstd::prelude::*;

verus! {

broadcast use vstd::std_specs::vec::axiom_vec_index_decreases;

/// A persistence-neutral structured value: scalars, sequences and
/// string-keyed maps, arbitrarily nested.
///
/// Records carry their payload and metadata as values of this type, so any
/// backend able to store such a structure can host them.
#[derive(Debug)]
pub enum JsonValue {
    /// The absent value.
    Null,
    /// A boolean scalar.
    Bool(bool),
    /// An integer scalar.
    Int(i64),
    /// A string scalar.
    Str(String),
    /// An ordered sequence of values.
    Arr(Vec<JsonValue>),
    /// A string-keyed map, kept in insertion order.
    Obj(Vec<(String, JsonValue)>),
}

/// The mathematical model of a [`JsonValue`]: the same tree with strings as
/// character sequences and vectors as sequences.
pub enum JsonView {
    /// Model of [`JsonValue::Null`].
    Null,
    /// Model of [`JsonValue::Bool`].
    Bool(bool),
    /// Model of [`JsonValue::Int`].
    Int(int),
    /// Model of [`JsonValue::Str`].
    Str(Seq<char>),
    /// Model of [`JsonValue::Arr`].
    Arr(Seq<JsonView>),
    /// Model of [`JsonValue::Obj`].
    Obj(Seq<(Seq<char>, JsonView)>),
}

/// The model of one structured value.
pub open spec fn json_view(v: JsonValue) -> JsonView
    decreases v,
{
    match v {
        JsonValue::Null => JsonView::Null,
        JsonValue::Bool(b) => JsonView::Bool(b),
        JsonValue::Int(i) => JsonView::Int(i as int),
        JsonValue::Str(s) => JsonView::Str(s@),
        JsonValue::Arr(items) => JsonView::Arr(json_seq_view(items@)),
        JsonValue::Obj(pairs) => JsonView::Obj(json_obj_view(pairs@)),
    }
}

/// The model of the elements of a sequence value.
pub open spec fn json_seq_view(s: Seq<JsonValue>) -> Seq<JsonView>
    decreases s,
{
    if s.len() == 0 {
        Seq::empty()
    } else {
        json_seq_view(s.drop_last()).push(json_view(s.last()))
    }
}

/// The model of the entries of a map value.
pub open spec fn json_obj_view(s: Seq<(String, JsonValue)>) -> Seq<(Seq<char>, JsonView)>
    decreases s,
{
    if s.len() == 0 {
        Seq::empty()
    } else {
        json_obj_view(s.drop_last()).push((s.last().0@, json_view(s.last().1)))
    }
}

impl View for JsonValue {
    type V = JsonView;

    open spec fn view(&self) -> JsonView {
        json_view(*self)
    }
}

impl JsonValue {
    /// Structural equality of two values: `true` exactly when the two
    /// trees are equal, key order included.
    #[verifier::loop_isolation(false)]
    pub fn equals(&self, other: &JsonValue) -> (r: bool)
        ensures
            r == (self@ == other@),
        decreases *self,
    {
        match (self, other) {
            (JsonValue::Null, JsonValue::Null) => true,
            (JsonValue::Bool(x), JsonValue::Bool(y)) => x == y,
            (JsonValue::Int(x), JsonValue::Int(y)) => x == y,
            (JsonValue::Str(x), JsonValue::Str(y)) => x.eq(y),
            (JsonValue::Arr(xs), JsonValue::Arr(ys)) => {
                proof {
                    lemma_json_seq_view(xs@);
                    lemma_json_seq_view(ys@);
                }
                if xs.len() != ys.len() {
                    return false;
                }
                let mut i: usize = 0;
                while i < xs.len()
                    invariant
                        i <= xs@.len(),
                        xs@.len() == ys@.len(),
                        forall|k: int| 0 <= k < i
                            ==> #[trigger] json_view(xs@[k]) == json_view(ys@[k]),
                    decreases xs@.len() - i,
                {
                    if !xs[i].equals(&ys[i]) {
                        proof {
                            assert(json_seq_view(xs@)[i as int] != json_seq_view(ys@)[i as int]);
                        }
                        return false;
                    }
                    i = i + 1;
                }
                proof {
                    assert(json_seq_view(xs@) =~= json_seq_view(ys@));
                }
                true
            },
            (JsonValue::Obj(xs), JsonValue::Obj(ys)) => {
                proof {
                    lemma_json_obj_view(xs@);
                    lemma_json_obj_view(ys@);
                }
                if xs.len() != ys.len() {
                    return false;
                }
                let mut i: usize = 0;
                while i < xs.len()
                    invariant
                        i <= xs@.len(),
                        xs@.len() == ys@.len(),
                        forall|k: int| 0 <= k < i ==> (#[trigger] xs@[k]).0@ == ys@[k].0@
                            && json_view(xs@[k].1) == json_view(ys@[k].1),
                    decreases xs@.len() - i,
                {
                    let x = &xs[i];
                    let y = &ys[i];
                    if !x.0.eq(&y.0) {
                        proof {
                            assert(json_obj_view(xs@)[i as int] != json_obj_view(ys@)[i as int]);
                        }
                        return false;
                    }
                    if !x.1.equals(&y.1) {
                        proof {
                            assert(json_obj_view(xs@)[i as int] != json_obj_view(ys@)[i as int]);
                        }
                        return false;
                    }
                    i = i + 1;
                }
                proof {
                    assert(json_obj_view(xs@) =~= json_obj_view(ys@));
                }
                true
            },
            _ => false,
        }
    }
}

/// The model of a sequence value has one element for each element of the
/// sequence, in order.
pub proof fn lemma_json_seq_view(s: Seq<JsonValue>)
    ensures
        json_seq_view(s).len() == s.len(),
        forall|i: int| 0 <= i < s.len() ==> json_seq_view(s)[i] == json_view(s[i]),
    decreases s.len(),
{
    if s.len() > 0 {
        lemma_json_seq_view(s.drop_last());
    }
}

/// The model of a map value has one entry for each entry of the map, in
/// order, with the key as a character sequence.
pub proof fn lemma_json_obj_view(s: Seq<(String, JsonValue)>)
    ensures
        json_obj_view(s).len() == s.len(),
        forall|i: int| 0 <= i < s.len() ==> json_obj_view(s)[i] == (s[i].0@, json_view(s[i].1)),
    decreases s.len(),
{
    if s.len() > 0 {
        lemma_json_obj_view(s.drop_last());
    }
}

} // verus!
