//! What a generated builder does, as a value that can be run.
//!
//! A [`Builder`] stands for an instance of the builder type generated for a
//! record: one slot per field, in declaration order, each empty or holding a
//! value. It is created empty, setters fill slots, and `build` copies the
//! values out into an [`Instance`] or names the first field whose slot is
//! empty. Values are of one type `V`, which stands for the values of all the
//! record's fields.

use crate::descriptor::{DescriptorView, TypeDescriptor};
use vstd::prelude::*;
use vstd::string::StringExecFns;

verus! {

/// Whether every slot holds a value.
pub open spec fn complete<V>(slots: Seq<Option<V>>) -> bool {
    forall|i: int| 0 <= i < slots.len() ==> (#[trigger] slots[i]) is Some
}

/// Whether slot `k` is empty and every slot before it holds a value.
pub open spec fn is_first_absent<V>(slots: Seq<Option<V>>, k: int) -> bool {
    &&& 0 <= k < slots.len()
    &&& slots[k] is None
    &&& forall|j: int| 0 <= j < k ==> (#[trigger] slots[j]) is Some
}

/// The position of the first empty slot, if there is one.
pub open spec fn first_absent<V>(slots: Seq<Option<V>>) -> Option<int> {
    if exists|k: int| is_first_absent(slots, k) {
        Some(choose|k: int| is_first_absent(slots, k))
    } else {
        None
    }
}

/// The mathematical value of a [`Builder`]: the record it builds and its
/// slots.
pub ghost struct BuilderView<V> {
    pub target: DescriptorView,
    pub slots: Seq<Option<V>>,
}

impl<V> BuilderView<V> {
    /// A builder has exactly one slot per field of its record.
    pub open spec fn well_formed(self) -> bool {
        self.slots.len() == self.target.fields.len()
    }

    /// The builder for `target` with every slot empty.
    pub open spec fn empty(target: DescriptorView) -> Self {
        BuilderView { target, slots: Seq::new(target.fields.len(), |i: int| None::<V>) }
    }

    /// This builder after the setter of field `field` was given `value`.
    pub open spec fn set(self, field: int, value: V) -> Self {
        BuilderView { target: self.target, slots: self.slots.update(field, Some(value)) }
    }

    /// The name of the first field, in declaration order, whose slot is
    /// empty.
    pub open spec fn missing(self) -> Option<Seq<char>> {
        match first_absent(self.slots) {
            Some(k) => Some(self.target.fields[k].name),
            None => None,
        }
    }
}

/// The failure of `build`: a field was never set.
#[derive(Debug, Clone, PartialEq, Eq)]
pub struct MissingFieldError {
    /// The name of the first field, in declaration order, that has no value.
    pub field: String,
}

/// The message that reports the field called `field` as missing.
pub open spec fn missing_field_text(field: Seq<char>) -> Seq<char> {
    "Missing \""@ + field + "\" field"@
}

impl MissingFieldError {
    /// The message of this error, which names the field.
    pub fn message(&self) -> (text: String)
        ensures
            text@ == missing_field_text(self.field@),
    {
        let mut text = String::from_str("Missing \"");
        text.append(self.field.as_str());
        text.append("\" field");
        text
    }
}

/// An instance of a record: the record's name and one value per field, in
/// declaration order.
#[derive(Debug, Clone, PartialEq, Eq)]
pub struct Instance<V> {
    pub target: String,
    pub values: Vec<V>,
}

/// The mathematical value of an [`Instance`].
pub ghost struct InstanceView<V> {
    pub target: Seq<char>,
    pub values: Seq<V>,
}

impl<V> View for Instance<V> {
    type V = InstanceView<V>;

    open spec fn view(&self) -> InstanceView<V> {
        InstanceView { target: self.target@, values: self.values@ }
    }
}

/// The mathematical value of the outcome of `build`: the instance, or the
/// name of the field that the error reports.
pub open spec fn built_view<V>(outcome: Result<Instance<V>, MissingFieldError>) -> Result<
    InstanceView<V>,
    Seq<char>,
> {
    match outcome {
        Ok(instance) => Ok(instance@),
        Err(error) => Err(error.field@),
    }
}

/// Whether `outcome` is an outcome of `build` on `builder`.
///
/// `build` succeeds exactly when every slot holds a value; the instance then
/// is of the builder's record and holds, field by field, a copy of the
/// slot's value. Otherwise `build` fails, and the error names the first
/// field, in declaration order, whose slot is empty.
pub open spec fn builds<V: Clone>(
    builder: BuilderView<V>,
    outcome: Result<InstanceView<V>, Seq<char>>,
) -> bool {
    match outcome {
        Ok(instance) => {
            &&& complete(builder.slots)
            &&& instance.target == builder.target.name
            &&& instance.values.len() == builder.slots.len()
            &&& forall|i: int|
                0 <= i < builder.slots.len() ==> cloned(
                    builder.slots[i]->Some_0,
                    #[trigger] instance.values[i],
                )
        },
        Err(field) => builder.missing() == Some(field),
    }
}

/// A builder for instances of one record.
pub struct Builder<V> {
    target: TypeDescriptor,
    slots: Vec<Option<V>>,
}

impl<V> View for Builder<V> {
    type V = BuilderView<V>;

    closed spec fn view(&self) -> BuilderView<V> {
        BuilderView { target: self.target@, slots: self.slots@ }
    }
}

impl<V> Builder<V> {
    #[verifier::type_invariant]
    spec fn one_slot_per_field(self) -> bool {
        self.slots@.len() == self.target.fields@.len()
    }

    /// The builder for `target`, with every slot empty.
    pub fn new(target: TypeDescriptor) -> (builder: Self)
        ensures
            builder@ == BuilderView::<V>::empty(target@),
    {
        let mut slots: Vec<Option<V>> = Vec::new();
        let mut i: usize = 0;
        while i < target.fields.len()
            invariant
                i <= target.fields.len(),
                slots@.len() == i,
                forall|j: int| 0 <= j < i ==> (#[trigger] slots@[j]) is None,
            decreases target.fields.len() - i,
        {
            slots.push(None);
            i += 1;
        }
        assert(slots@ =~= BuilderView::<V>::empty(target@).slots);
        Builder { target, slots }
    }

    /// The number of slots, which is the number of fields of the record.
    pub fn len(&self) -> (n: usize)
        ensures
            n == self@.slots.len(),
            n == self@.target.fields.len(),
    {
        proof {
            use_type_invariant(self);
        }
        self.slots.len()
    }

    /// The record that this builder builds.
    pub fn target(&self) -> (target: &TypeDescriptor)
        ensures
            target@ == self@.target,
    {
        &self.target
    }

    /// The slot of field `field`.
    pub fn slot(&self, field: usize) -> (slot: &Option<V>)
        requires
            field < self@.slots.len(),
        ensures
            *slot == self@.slots[field as int],
    {
        &self.slots[field]
    }

    /// The setter of field `field`: stores `value` in the field's slot, over
    /// whatever the slot held, and hands the builder back so that calls can
    /// be chained. No other slot changes.
    pub fn set(&mut self, field: usize, value: V) -> (same: &mut Self)
        requires
            field < old(self)@.slots.len(),
        ensures
            same@ == old(self)@.set(field as int, value),
            same@.well_formed(),
            *final(self) == *final(same),
    {
        proof {
            use_type_invariant(&*self);
        }
        self.slots[field] = Some(value);
        self
    }
}

impl<V: Clone> Builder<V> {
    /// Builds an instance from copies of the slots' values, or fails at the
    /// first field, in declaration order, whose slot is empty. The builder is
    /// left as it was and can build again.
    pub fn build(&self) -> (outcome: Result<Instance<V>, MissingFieldError>)
        ensures
            self@.well_formed(),
            builds(self@, built_view(outcome)),
            outcome is Ok <==> complete(self@.slots),
    {
        proof {
            use_type_invariant(self);
        }
        let mut values: Vec<V> = Vec::new();
        let mut i: usize = 0;
        while i < self.slots.len()
            invariant
                i <= self.slots.len(),
                self.slots@.len() == self.target.fields@.len(),
                values@.len() == i,
                forall|j: int| 0 <= j < i ==> (#[trigger] self.slots@[j]) is Some,
                forall|j: int|
                    0 <= j < i ==> cloned(self.slots@[j]->Some_0, #[trigger] values@[j]),
            decreases self.slots.len() - i,
        {
            match &self.slots[i] {
                Some(value) => {
                    values.push(value.clone());
                },
                None => {
                    proof {
                        lemma_first_absent(self.slots@, i as int);
                    }
                    return Err(MissingFieldError { field: self.target.fields[i].name.clone() });
                },
            }
            i += 1;
        }
        proof {
            lemma_complete(self.slots@);
        }
        Ok(Instance { target: self.target.name.clone(), values })
    }
}

/// The first empty slot is the one that is empty with none empty before it.
pub proof fn lemma_first_absent<V>(slots: Seq<Option<V>>, k: int)
    requires
        is_first_absent(slots, k),
    ensures
        first_absent(slots) == Some(k),
{
    let chosen = choose|c: int| is_first_absent(slots, c);
    assert(is_first_absent(slots, chosen));
    if chosen < k {
        assert(slots[chosen] is Some);
    } else if k < chosen {
        assert(slots[k] is Some);
    }
}

/// No slot is the first empty one exactly when every slot holds a value.
pub proof fn lemma_complete<V>(slots: Seq<Option<V>>)
    ensures
        first_absent(slots) is None <==> complete(slots),
{
    if complete(slots) {
        if first_absent(slots) is Some {
            let k = first_absent(slots)->Some_0;
            assert(is_first_absent(slots, k));
            assert(slots[k] is Some);
        }
    } else {
        let k = lemma_least_absent(slots, slots.len() as int);
        lemma_first_absent(slots, k);
    }
}

/// Among the first `n` slots, if one is empty then one is the first empty.
proof fn lemma_least_absent<V>(slots: Seq<Option<V>>, n: int) -> (k: int)
    requires
        0 <= n <= slots.len(),
        exists|i: int| 0 <= i < n && (#[trigger] slots[i]) is None,
    ensures
        is_first_absent(slots, k),
        k < n,
    decreases n,
{
    if exists|i: int| 0 <= i < n - 1 && (#[trigger] slots[i]) is None {
        lemma_least_absent(slots, n - 1)
    } else {
        n - 1
    }
}

/// A new builder has one slot per field and every slot empty: `build` on it
/// names the record's first field.
pub proof fn lemma_empty_builder<V>(target: DescriptorView)
    requires
        target.fields.len() > 0,
    ensures
        BuilderView::<V>::empty(target).well_formed(),
        BuilderView::<V>::empty(target).target == target,
        forall|i: int|
            0 <= i < target.fields.len() ==> (#[trigger] BuilderView::<V>::empty(
                target,
            ).slots[i]) is None,
        BuilderView::<V>::empty(target).missing() == Some(target.fields[0].name),
{
    let slots = BuilderView::<V>::empty(target).slots;
    assert(slots[0] is None);
    lemma_first_absent(slots, 0);
}

/// A setter fills its own slot and leaves every other slot, and the record,
/// as they were.
pub proof fn lemma_set_changes_one_slot<V>(builder: BuilderView<V>, field: int, value: V)
    requires
        builder.well_formed(),
        0 <= field < builder.slots.len(),
    ensures
        builder.set(field, value).well_formed(),
        builder.set(field, value).target == builder.target,
        builder.set(field, value).slots[field] == Some(value),
        forall|other: int|
            0 <= other < builder.slots.len() && other != field ==> builder.set(
                field,
                value,
            ).slots[other] == builder.slots[other],
{
}

/// Setting a field to one value and then to another leaves the builder as
/// if only the second had been set: the slot holds the second value.
pub proof fn lemma_set_overwrites<V>(builder: BuilderView<V>, field: int, first: V, second: V)
    requires
        builder.well_formed(),
        0 <= field < builder.slots.len(),
    ensures
        builder.set(field, first).set(field, second) == builder.set(field, second),
        builder.set(field, first).set(field, second).slots[field] == Some(second),
{
    assert(builder.set(field, first).set(field, second).slots =~= builder.set(
        field,
        second,
    ).slots);
}

/// With every slot filled, `build` succeeds: the instance is of the builder's
/// record and each of its values is a copy of the value in the field's slot.
/// The builder is not part of the outcome and stays as it was.
pub proof fn lemma_build_succeeds<V: Clone>(
    builder: BuilderView<V>,
    outcome: Result<InstanceView<V>, Seq<char>>,
)
    requires
        builder.well_formed(),
        complete(builder.slots),
        builds(builder, outcome),
    ensures
        outcome is Ok,
        outcome->Ok_0.target == builder.target.name,
        outcome->Ok_0.values.len() == builder.target.fields.len(),
        forall|i: int|
            0 <= i < builder.slots.len() ==> cloned(
                builder.slots[i]->Some_0,
                #[trigger] outcome->Ok_0.values[i],
            ),
{
    lemma_complete(builder.slots);
}

/// The instance that `build` returns holds, for a field that was set more
/// than once, a copy of the value that was set last.
pub proof fn lemma_build_returns_last_value<V: Clone>(
    builder: BuilderView<V>,
    field: int,
    first: V,
    second: V,
    instance: InstanceView<V>,
)
    requires
        builder.well_formed(),
        0 <= field < builder.slots.len(),
        builds(builder.set(field, first).set(field, second), Ok(instance)),
    ensures
        cloned(second, instance.values[field]),
{
    lemma_set_overwrites(builder, field, first, second);
}

/// Where a copy of a value always equals the value, the instance that
/// `build` returns holds exactly the values of the slots.
pub proof fn lemma_build_copies_exactly<V: Clone>(
    builder: BuilderView<V>,
    instance: InstanceView<V>,
)
    requires
        builder.well_formed(),
        builds(builder, Ok(instance)),
        forall|a: V, b: V| #[trigger] cloned(a, b) ==> a == b,
    ensures
        forall|i: int|
            0 <= i < builder.slots.len() ==> #[trigger] builder.slots[i] == Some(
                instance.values[i],
            ),
{
    assert forall|i: int| 0 <= i < builder.slots.len() implies #[trigger] builder.slots[i]
        == Some(instance.values[i]) by {
        assert(builder.slots[i] is Some);
        assert(cloned(builder.slots[i]->Some_0, instance.values[i]));
    }
}

/// With an empty slot, `build` fails and produces no instance; the error
/// names a field at or before the empty slot.
pub proof fn lemma_build_fails_when_absent<V: Clone>(
    builder: BuilderView<V>,
    k: int,
    outcome: Result<InstanceView<V>, Seq<char>>,
)
    requires
        builder.well_formed(),
        0 <= k < builder.slots.len(),
        builder.slots[k] is None,
        builds(builder, outcome),
    ensures
        outcome is Err,
        exists|j: int|
            0 <= j <= k && #[trigger] is_first_absent(builder.slots, j) && outcome == Err::<
                InstanceView<V>,
                Seq<char>,
            >(builder.target.fields[j].name),
{
    let j = lemma_least_absent(builder.slots, k + 1);
    lemma_first_absent(builder.slots, j);
}

/// With slot `k` empty and every slot before it filled, `build` fails with
/// the error that names field `k`, whatever the slots after `k` hold.
pub proof fn lemma_build_names_first_absent<V: Clone>(
    builder: BuilderView<V>,
    k: int,
    outcome: Result<InstanceView<V>, Seq<char>>,
)
    requires
        builder.well_formed(),
        is_first_absent(builder.slots, k),
        builds(builder, outcome),
    ensures
        outcome == Err::<InstanceView<V>, Seq<char>>(builder.target.fields[k].name),
{
    lemma_first_absent(builder.slots, k);
    lemma_build_fails_when_absent(builder, k, outcome);
}

/// Declaration order decides which field is reported: while slot `earlier`
/// is the first empty one, `build` names its field and never the field of a
/// later slot, empty or not.
pub proof fn lemma_declaration_order_precedence<V: Clone>(
    builder: BuilderView<V>,
    earlier: int,
    later: int,
    outcome: Result<InstanceView<V>, Seq<char>>,
)
    requires
        builder.well_formed(),
        builder.target.well_formed(),
        is_first_absent(builder.slots, earlier),
        earlier < later < builder.slots.len(),
        builds(builder, outcome),
    ensures
        outcome == Err::<InstanceView<V>, Seq<char>>(builder.target.fields[earlier].name),
        outcome != Err::<InstanceView<V>, Seq<char>>(builder.target.fields[later].name),
{
    lemma_build_names_first_absent(builder, earlier, outcome);
    assert(builder.target.fields[earlier].name != builder.target.fields[later].name);
}

} // verus!
