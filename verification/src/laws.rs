//! The general laws of builder behaviour, stated over the abstract slot
//! model that the contracts of `assembly` speak of and proved for every
//! record shape and every sequence of setter calls.
//!
//! `Builder::set` ensures that each call turns the slot state `s` into
//! `s.update(i, Some(v))`, and `Builder::build` ensures that assembly
//! succeeds exactly when `first_missing` reports nothing and otherwise
//! names the reported field. The laws below therefore speak of slot states,
//! updates and `first_missing`, and through those contracts they cover
//! every chain of calls on a builder instance.

use vstd::prelude::*;
use crate::assembly::ValueModel;
use crate::assembly::first_missing;
use crate::assembly::lemma_first_missing_correct;
use crate::assembly::lemma_no_missing_when_all_present;

verus! {

/// One setter call, abstractly: the declaration position it writes and the
/// value it stores.
pub struct SetOp {
    pub index: int,
    pub value: ValueModel,
}

/// The slot state after a sequence of setter calls, applied in order.
pub open spec fn apply_ops(
    slots: Seq<Option<ValueModel>>,
    ops: Seq<SetOp>,
) -> Seq<Option<ValueModel>>
    decreases ops.len(),
{
    if ops.len() == 0 {
        slots
    } else {
        apply_ops(slots, ops.drop_last()).update(ops.last().index, Some(ops.last().value))
    }
}

/// The value stored by the most recent setter call that wrote position `i`,
/// if any call wrote it at all.
pub open spec fn last_write(ops: Seq<SetOp>, i: int) -> Option<ValueModel>
    decreases ops.len(),
{
    if ops.len() == 0 {
        None
    } else if ops.last().index == i {
        Some(ops.last().value)
    } else {
        last_write(ops.drop_last(), i)
    }
}

proof fn lemma_apply_ops_len(slots: Seq<Option<ValueModel>>, ops: Seq<SetOp>)
    requires
        forall|k: int| 0 <= k < ops.len() ==> 0 <= (#[trigger] ops[k]).index < slots.len(),
    ensures
        apply_ops(slots, ops).len() == slots.len(),
    decreases ops.len(),
{
    if ops.len() > 0 {
        assert(forall|k: int| 0 <= k < ops.len() - 1 ==> ops.drop_last()[k] == ops[k]);
        lemma_apply_ops_len(slots, ops.drop_last());
        assert(ops.last() == ops[ops.len() - 1]);
    }
}

/// Setting a field twice overwrites the first value: after any sequence of
/// setter calls, a slot holds exactly the value of the most recent call
/// that wrote it, and a slot that no call wrote keeps its prior content.
/// Assembly therefore reflects only the most recent value of each field.
pub proof fn lemma_assembly_sees_last_write(
    slots: Seq<Option<ValueModel>>,
    ops: Seq<SetOp>,
    i: int,
)
    requires
        0 <= i < slots.len(),
        forall|k: int| 0 <= k < ops.len() ==> 0 <= (#[trigger] ops[k]).index < slots.len(),
    ensures
        apply_ops(slots, ops).len() == slots.len(),
        apply_ops(slots, ops)[i] == match last_write(ops, i) {
            Some(v) => Some(v),
            None => slots[i],
        },
    decreases ops.len(),
{
    lemma_apply_ops_len(slots, ops);
    if ops.len() > 0 {
        assert(forall|k: int| 0 <= k < ops.len() - 1 ==> ops.drop_last()[k] == ops[k]);
        lemma_assembly_sees_last_write(slots, ops.drop_last(), i);
        assert(ops.last() == ops[ops.len() - 1]);
    }
}

/// Whether some call in the sequence writes declaration position `i`.
pub open spec fn writes(ops: Seq<SetOp>, i: int) -> bool {
    exists|k: int| 0 <= k < ops.len() && (#[trigger] ops[k]).index == i
}

proof fn lemma_covered_write_is_some(ops: Seq<SetOp>, i: int)
    requires
        writes(ops, i),
    ensures
        last_write(ops, i) is Some,
    decreases ops.len(),
{
    if ops.last().index != i {
        let k = choose|k: int| 0 <= k < ops.len() && (#[trigger] ops[k]).index == i;
        assert(ops.drop_last()[k] == ops[k]);
        assert(writes(ops.drop_last(), i));
        lemma_covered_write_is_some(ops.drop_last(), i);
    }
}

/// Setting every field at least once, in any order, makes assembly succeed,
/// and the assembled record holds for each field exactly the most recent
/// value that was set for it.
pub proof fn lemma_set_all_then_build_succeeds(slots: Seq<Option<ValueModel>>, ops: Seq<SetOp>)
    requires
        forall|k: int| 0 <= k < ops.len() ==> 0 <= (#[trigger] ops[k]).index < slots.len(),
        forall|i: int| 0 <= i < slots.len() ==> #[trigger] writes(ops, i),
    ensures
        apply_ops(slots, ops).len() == slots.len(),
        first_missing(apply_ops(slots, ops)) is None,
        forall|i: int|
            0 <= i < slots.len() ==> #[trigger] apply_ops(slots, ops)[i] == last_write(ops, i),
{
    lemma_apply_ops_len(slots, ops);
    assert forall|i: int|
        0 <= i < slots.len() implies #[trigger] apply_ops(slots, ops)[i] == last_write(ops, i)
        && apply_ops(slots, ops)[i] is Some by {
        lemma_assembly_sees_last_write(slots, ops, i);
        lemma_covered_write_is_some(ops, i);
    }
    lemma_no_missing_when_all_present(apply_ops(slots, ops));
}

/// Assembling an untouched builder of any supported record shape fails and
/// reports the first declared field.
pub proof fn lemma_untouched_builder_reports_first_field(slots: Seq<Option<ValueModel>>)
    requires
        slots.len() > 0,
        forall|i: int| 0 <= i < slots.len() ==> slots[i] is None,
    ensures
        first_missing(slots) == Some(0int),
{
    assert(slots[0] is None);
}

/// Assembly may be retried after a failure: when an attempt reported field
/// `k` and every other field is present, setting `k` makes the next attempt
/// succeed. Together with `Builder::build` leaving the builder unchanged,
/// this is the build, inspect, patch, rebuild workflow.
pub proof fn lemma_set_reported_field_then_build_succeeds(
    slots: Seq<Option<ValueModel>>,
    k: int,
    v: ValueModel,
)
    requires
        first_missing(slots) == Some(k),
        forall|j: int| 0 <= j < slots.len() && j != k ==> slots[j] is Some,
    ensures
        first_missing(slots.update(k, Some(v))) is None,
{
    lemma_first_missing_correct(slots);
    assert(forall|i: int| 0 <= i < slots.len() ==> slots.update(k, Some(v))[i] is Some);
    lemma_no_missing_when_all_present(slots.update(k, Some(v)));
}

} // verus!
