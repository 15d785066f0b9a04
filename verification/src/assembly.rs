//! A verified model of the code the generator emits: builder instances with
//! one optional slot per field, setters that overwrite, and an assembly
//! operation that reports the first missing field in declaration order and
//! leaves the builder untouched.

use vstd::prelude::*;
use vstd::pervasive::VecAdditionalExecFns;
use vstd::string::StringExecFns;
use crate::schema::RecordDef;

verus! {

/// A runtime field value. The generated code stores each field in its own
/// declared type; the model covers the record shapes the scenarios use with
/// a text value and an integer value.
#[derive(Debug, PartialEq)]
pub enum Value {
    Text(String),
    Integer(i64),
}

/// The mathematical content of a `Value`.
pub enum ValueModel {
    Text(Seq<char>),
    Integer(i64),
}

impl View for Value {
    type V = ValueModel;

    open spec fn view(&self) -> ValueModel {
        match self {
            Value::Text(s) => ValueModel::Text(s@),
            Value::Integer(i) => ValueModel::Integer(*i),
        }
    }
}

impl Clone for Value {
    /// Assembly copies stored values out of the builder, so cloning must
    /// preserve a value's content exactly.
    fn clone(&self) -> (r: Self)
        ensures
            r@ == self@,
    {
        match self {
            Value::Text(s) => Value::Text(s.clone()),
            Value::Integer(i) => Value::Integer(*i),
        }
    }
}

/// What a slot holds, seen abstractly: absent, or present with a value.
pub open spec fn slot_model(o: Option<Value>) -> Option<ValueModel> {
    match o {
        Some(v) => Some(v@),
        None => None,
    }
}

/// A record instance produced by a successful assembly: the record's name
/// and one value per field, in declaration order.
#[derive(Debug, PartialEq)]
pub struct RecordValue {
    pub name: String,
    pub values: Vec<Value>,
}

/// The recoverable failure of an assembly attempt: exactly one field is
/// named, the first one in declaration order that was never set.
#[derive(Debug)]
pub struct MissingFieldError {
    pub field: String,
}

impl MissingFieldError {
    /// The human-readable report, `"<field_name> is missing"`.
    pub fn message(&self) -> (r: String)
        ensures
            r@ == self.field@ + " is missing"@,
    {
        let mut m = self.field.clone();
        m.append(" is missing");
        m
    }
}

/// The index of the first absent slot in declaration order, if any slot is
/// absent at all.
pub open spec fn first_missing(slots: Seq<Option<ValueModel>>) -> Option<int>
    decreases slots.len(),
{
    if slots.len() == 0 {
        None
    } else if slots[0] is None {
        Some(0int)
    } else {
        match first_missing(slots.drop_first()) {
            Some(i) => Some(i + 1),
            None => None,
        }
    }
}

/// `first_missing` finds exactly the earliest absent slot: whenever slot `k`
/// is absent and every earlier slot is present, the report names `k` — never
/// a later absent slot.
pub proof fn lemma_first_missing_is_earliest(slots: Seq<Option<ValueModel>>, k: int)
    requires
        0 <= k < slots.len(),
        slots[k] is None,
        forall|j: int| 0 <= j < k ==> slots[j] is Some,
    ensures
        first_missing(slots) == Some(k),
    decreases slots.len(),
{
    if k == 0 {
    } else {
        assert(slots[0] is Some);
        assert(forall|j: int| 0 <= j < k - 1 ==> slots.drop_first()[j] is Some);
        lemma_first_missing_is_earliest(slots.drop_first(), k - 1);
    }
}

/// When every slot is present, nothing is reported missing.
pub proof fn lemma_no_missing_when_all_present(slots: Seq<Option<ValueModel>>)
    requires
        forall|i: int| 0 <= i < slots.len() ==> slots[i] is Some,
    ensures
        first_missing(slots) is None,
    decreases slots.len(),
{
    if slots.len() > 0 {
        assert(forall|j: int| 0 <= j < slots.len() - 1 ==> slots.drop_first()[j] is Some);
        lemma_no_missing_when_all_present(slots.drop_first());
    }
}

/// Whatever `first_missing` answers is right: a reported index is an absent
/// slot preceded only by present slots, and a silent answer means every slot
/// is present.
pub proof fn lemma_first_missing_correct(slots: Seq<Option<ValueModel>>)
    ensures
        match first_missing(slots) {
            Some(k) => 0 <= k < slots.len() && slots[k] is None && (forall|j: int|
                0 <= j < k ==> slots[j] is Some),
            None => forall|i: int| 0 <= i < slots.len() ==> slots[i] is Some,
        },
    decreases slots.len(),
{
    if slots.len() > 0 && slots[0] is Some {
        let rest = slots.drop_first();
        lemma_first_missing_correct(rest);
        match first_missing(rest) {
            Some(k) => {
                assert(slots[k + 1] == rest[k]);
                assert forall|j: int| 0 <= j < k + 1 implies slots[j] is Some by {
                    if j > 0 {
                        assert(slots[j] == rest[j - 1]);
                    }
                }
            },
            None => {
                assert forall|i: int| 0 <= i < slots.len() implies slots[i] is Some by {
                    if i > 0 {
                        assert(slots[i] == rest[i - 1]);
                    }
                }
            },
        }
    }
}

/// A builder instance: one slot per field of one record definition, each
/// slot mutated only by `set` and read, never cleared, by `build`.
pub struct Builder {
    pub record_name: String,
    pub field_names: Vec<String>,
    pub slots: Vec<Option<Value>>,
}

impl Builder {
    /// One slot stands beside each field name.
    pub open spec fn wf(&self) -> bool {
        self.field_names@.len() == self.slots@.len()
    }

    /// The field names in declaration order, as character sequences.
    pub open spec fn names_model(&self) -> Seq<Seq<char>> {
        self.field_names@.map_values(|s: String| s@)
    }

    /// The slot contents in declaration order, seen abstractly.
    pub open spec fn slots_model(&self) -> Seq<Option<ValueModel>> {
        self.slots@.map_values(|o: Option<Value>| slot_model(o))
    }
}

impl RecordDef {
    /// The generated factory operation: a fresh builder for this record,
    /// with every slot absent. It cannot fail.
    pub fn builder(&self) -> (b: Builder)
        ensures
            b.wf(),
            b.record_name@ == self.name@,
            b.names_model().len() == self.fields@.len(),
            forall|i: int|
                0 <= i < self.fields@.len() ==> b.names_model()[i] == self.fields@[i].name@,
            b.slots_model().len() == self.fields@.len(),
            forall|i: int| 0 <= i < self.fields@.len() ==> b.slots_model()[i] is None,
    {
        let mut field_names: Vec<String> = Vec::new();
        let mut slots: Vec<Option<Value>> = Vec::new();
        let n = self.fields.len();
        for i in 0..n
            invariant
                n == self.fields@.len(),
                field_names@.len() == i,
                slots@.len() == i,
                forall|j: int| 0 <= j < i ==> field_names@[j]@ == self.fields@[j].name@,
                forall|j: int| 0 <= j < i ==> slots@[j] is None,
        {
            field_names.push(self.fields[i].name.clone());
            slots.push(None);
        }
        Builder { record_name: self.name.clone(), field_names, slots }
    }
}

impl Builder {
    /// The generated setter for the field at declaration position `index`:
    /// it stores the value as present, overwriting whatever the slot held,
    /// and touches nothing else. It cannot fail. The emitted setters return
    /// a handle to the builder so calls can be chained; here that surface
    /// convenience is dropped and only the store remains.
    pub fn set(&mut self, index: usize, value: Value)
        requires
            old(self).wf(),
            index < old(self).slots@.len(),
        ensures
            final(self).wf(),
            final(self).record_name@ == old(self).record_name@,
            final(self).names_model() == old(self).names_model(),
            final(self).slots_model() == old(self).slots_model().update(
                index as int,
                Some(value@),
            ),
    {
        let ghost v_model = value@;
        self.slots.set(index, Some(value));
        proof {
            assert(self.slots_model() =~= old(self).slots_model().update(
                index as int,
                Some(v_model),
            ));
        }
    }

    /// The generated assembly operation: checks each slot in declaration
    /// order, and on the first absent one reports that field and stops; when
    /// every slot is present it copies the stored values out into a record
    /// instance. The builder itself is left exactly as it was, so a failed
    /// attempt can be completed and retried.
    pub fn build(&mut self) -> (r: Result<RecordValue, MissingFieldError>)
        requires
            old(self).wf(),
        ensures
            *final(self) == *old(self),
            match r {
                Ok(rec) => {
                    &&& first_missing(old(self).slots_model()) is None
                    &&& rec.name@ == old(self).record_name@
                    &&& rec.values@.len() == old(self).slots_model().len()
                    &&& forall|i: int|
                        0 <= i < rec.values@.len() ==> Some(#[trigger] rec.values@[i]@)
                            == old(self).slots_model()[i]
                },
                Err(e) => first_missing(old(self).slots_model()) matches Some(k) && e.field@
                    == old(self).names_model()[k],
            },
    {
        let mut values: Vec<Value> = Vec::new();
        let n = self.slots.len();
        for i in 0..n
            invariant
                *self == *old(self),
                self.wf(),
                n == self.slots@.len(),
                values@.len() == i,
                forall|j: int| 0 <= j < i ==> self.slots_model()[j] is Some,
                forall|j: int|
                    0 <= j < i ==> Some(#[trigger] values@[j]@) == self.slots_model()[j],
        {
            match &self.slots[i] {
                Some(v) => {
                    values.push(v.clone());
                },
                None => {
                    proof {
                        lemma_first_missing_is_earliest(self.slots_model(), i as int);
                    }
                    let field = self.field_names[i].clone();
                    return Err(MissingFieldError { field });
                },
            }
        }
        proof {
            lemma_no_missing_when_all_present(self.slots_model());
        }
        Ok(RecordValue { name: self.record_name.clone(), values })
    }
}

} // verus!
