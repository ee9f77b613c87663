//! Runtime semantics of a synthesized builder: a direct model of the
//! declarations a printer renders from a plan. A builder holds one slot per
//! field in declaration order, setters store values one at a time and chain,
//! and assembly validates required fields before producing the record.

use vstd::pervasive::VecAdditionalExecFns;
use vstd::prelude::*;

use crate::errors::BuilderError;
use crate::synth::{AssemblyFieldPlan, BuilderPlan};

verus! {

/// The value a finished record holds for one field: a required field's value
/// stands plain; an optional field keeps the wrapper's own encoding, whose
/// empty representation is `None`.
#[derive(Debug, PartialEq, Eq)]
pub enum FieldValue<V> {
    Plain(V),
    Wrapped(Option<V>),
}

/// One field of an assembled record: its name and its value, in declaration
/// order.
#[derive(Debug, PartialEq, Eq)]
pub struct AssembledField<V> {
    pub name: String,
    pub value: FieldValue<V>,
}

/// A builder under construction: the assembly entries of its plan, and one
/// value slot per field, in declaration order. Field values are modeled by
/// one copyable value type.
#[derive(Debug)]
pub struct BuilderState<V> {
    pub fields: Vec<AssemblyFieldPlan>,
    pub slots: Vec<Option<V>>,
}

impl<V> BuilderState<V> {
    /// One slot per planned field.
    pub open spec fn well_formed(&self) -> bool {
        self.slots@.len() == self.fields@.len()
    }

    /// Whether every required field holds a value.
    pub open spec fn all_required_set(&self) -> bool {
        forall|i: int|
            0 <= i < self.fields@.len() && !(#[trigger] self.fields@[i]).is_optional
                ==> self.slots@[i] is Some
    }

    /// Whether field `i` is required and unset while every field before it
    /// passes validation.
    pub open spec fn first_missing_at(&self, i: int) -> bool {
        &&& 0 <= i < self.fields@.len()
        &&& !self.fields@[i].is_optional
        &&& self.slots@[i] is None
        &&& forall|j: int|
            0 <= j < i ==> ((#[trigger] self.fields@[j]).is_optional || self.slots@[j] is Some)
    }

    /// The value assembly owes field `i`: an optional field's slot is copied
    /// through under the wrapper's encoding, a required field's value stands
    /// plain.
    pub open spec fn assembled_value(&self, i: int) -> FieldValue<V> {
        if self.fields@[i].is_optional {
            FieldValue::Wrapped(self.slots@[i])
        } else {
            FieldValue::Plain(self.slots@[i]->0)
        }
    }
}

/// Everything assembly promises of a builder left untouched by it: success
/// exactly when every required field is set; on success one output field per
/// plan entry, carrying the field's name and its owed value; on failure the
/// error names the first required field, in declaration order, found unset.
pub open spec fn assemble_post<V>(
    b: BuilderState<V>,
    r: Result<Vec<AssembledField<V>>, BuilderError>,
) -> bool {
    &&& (r is Ok <==> b.all_required_set())
    &&& (r matches Ok(out) ==> {
        &&& out@.len() == b.fields@.len()
        &&& forall|i: int|
            0 <= i < b.fields@.len() ==> (#[trigger] out@[i]).name == b.fields@[i].name
                && out@[i].value == b.assembled_value(i)
    })
    &&& (r matches Err(e) ==> exists|i: int|
        #[trigger] b.first_missing_at(i) && e == BuilderError::MissingRequiredField(
            b.fields@[i].name,
        ))
}

impl<V: Copy> BuilderState<V> {
    /// The zero-argument factory entry point the record type gains: a fresh
    /// builder for the plan. Every slot starts empty: a required field's
    /// storage is explicitly absent, an optional field's storage is the
    /// wrapper's own empty representation.
    pub fn for_plan(plan: &BuilderPlan) -> (b: Self)
        ensures
            b.well_formed(),
            b.fields@ == plan.assembly_field_plans@,
            forall|i: int| 0 <= i < b.slots@.len() ==> b.slots@[i] is None,
    {
        let fields = plan.assembly_field_plans.clone();
        proof {
            assert(fields@ =~= plan.assembly_field_plans@);
        }
        let mut slots: Vec<Option<V>> = Vec::new();
        let mut i: usize = 0;
        while i < fields.len()
            invariant
                slots@.len() == i,
                i <= fields@.len(),
                forall|j: int| 0 <= j < i ==> slots@[j] is None,
            decreases fields@.len() - i,
        {
            slots.push(None);
            i = i + 1;
        }
        BuilderState { fields, slots }
    }

    /// The setter for field `index`: stores the value as present and hands
    /// the builder back for further chained calls. For an optional-shaped
    /// field this is the wrapping step: the argument is the wrapper's inner
    /// value and it is stored in the wrapper's present form.
    pub fn set_value(&mut self, index: usize, value: V) -> (rest: &mut Self)
        requires
            old(self).well_formed(),
            index < old(self).fields@.len(),
        ensures
            rest.well_formed(),
            rest.fields == old(self).fields,
            rest.slots@ == old(self).slots@.update(index as int, Some(value)),
            *final(self) == *final(rest),
    {
        self.slots.set(index, Some(value));
        self
    }

    /// Assembles the record: walks the fields in declaration order, demands
    /// presence of every required field, and copies optional fields through
    /// as they stand. Validation stops at the first absent required field
    /// and reports only that one. The builder is not consumed and not
    /// changed, so assembly can be invoked again.
    pub fn assemble(&self) -> (r: Result<Vec<AssembledField<V>>, BuilderError>)
        requires
            self.well_formed(),
        ensures
            assemble_post(*self, r),
    {
        let mut out: Vec<AssembledField<V>> = Vec::new();
        let mut i: usize = 0;
        while i < self.fields.len()
            invariant
                self.well_formed(),
                i <= self.fields@.len(),
                out@.len() == i,
                forall|j: int|
                    0 <= j < i ==> (#[trigger] out@[j]).name == self.fields@[j].name
                        && out@[j].value == self.assembled_value(j),
                forall|j: int|
                    0 <= j < i ==> ((#[trigger] self.fields@[j]).is_optional || self.slots@[j]
                        is Some),
            decreases self.fields@.len() - i,
        {
            let field = &self.fields[i];
            if field.is_optional {
                let slot: Option<V> = self.slots[i];
                out.push(AssembledField { name: field.name.clone(), value: FieldValue::Wrapped(slot) });
            } else {
                match &self.slots[i] {
                    Some(value) => {
                        out.push(
                            AssembledField { name: field.name.clone(), value: FieldValue::Plain(*value) },
                        );
                    },
                    None => {
                        let err = BuilderError::MissingRequiredField(field.name.clone());
                        proof {
                            assert(self.first_missing_at(i as int));
                            assert(!self.all_required_set());
                        }
                        return Err(err);
                    },
                }
            }
            i = i + 1;
        }
        Ok(out)
    }
}

/// Law: setters chain, and assembly reflects the last value set. If a
/// builder went through a setter storing `value` for field `index` —
/// whatever stood in that slot before — an assembly that succeeds afterwards
/// carries exactly `value` for that field: plain for a required field,
/// wrapped as present for an optional one.
pub proof fn lemma_setter_then_assembly<V>(
    before: BuilderState<V>,
    after: BuilderState<V>,
    index: int,
    value: V,
    r: Result<Vec<AssembledField<V>>, BuilderError>,
)
    requires
        before.well_formed(),
        0 <= index < before.fields@.len(),
        after.fields == before.fields,
        after.slots@ == before.slots@.update(index, Some(value)),
        assemble_post(after, r),
    ensures
        r matches Ok(out) ==> out@[index].value == (if after.fields@[index].is_optional {
            FieldValue::Wrapped(Some(value))
        } else {
            FieldValue::Plain(value)
        }),
{
}

/// Law: assembling a freshly constructed builder whose fields are all
/// required, with no setter called, fails, and the error names the first
/// field in declaration order.
pub proof fn lemma_fresh_all_required_fails<V>(
    b: BuilderState<V>,
    r: Result<Vec<AssembledField<V>>, BuilderError>,
)
    requires
        b.well_formed(),
        b.fields@.len() > 0,
        forall|i: int| 0 <= i < b.fields@.len() ==> !(#[trigger] b.fields@[i]).is_optional,
        forall|i: int| 0 <= i < b.slots@.len() ==> (#[trigger] b.slots@[i]) is None,
        assemble_post(b, r),
    ensures
        r == Err::<Vec<AssembledField<V>>, BuilderError>(
            BuilderError::MissingRequiredField(b.fields@[0].name),
        ),
{
    assert(!b.fields@[0].is_optional && b.slots@[0] is None);
    assert(!b.all_required_set());
    let e = r->Err_0;
    let i = choose|i: int|
        b.first_missing_at(i) && e == BuilderError::MissingRequiredField(b.fields@[i].name);
    if i != 0 {
        assert(b.fields@[0].is_optional || b.slots@[0] is Some);
    }
}

/// Law: assembly succeeds whenever every required field has been set,
/// whatever state the optional fields are in, and the output holds one field
/// per plan entry with exactly the values that were stored.
pub proof fn lemma_all_required_set_succeeds<V>(
    b: BuilderState<V>,
    r: Result<Vec<AssembledField<V>>, BuilderError>,
)
    requires
        b.well_formed(),
        b.all_required_set(),
        assemble_post(b, r),
    ensures
        r is Ok,
        r matches Ok(out) ==> out@.len() == b.fields@.len(),
        r matches Ok(out) ==> forall|i: int|
            0 <= i < b.fields@.len() ==> (#[trigger] out@[i]).name == b.fields@[i].name
                && out@[i].value == b.assembled_value(i),
{
}

/// Law: assembly is idempotent. Two assemblies of one builder, with no
/// setter call between them, yield equal outcomes: success together or
/// failure together, field-for-field equal records, and equal errors.
pub proof fn lemma_assembly_idempotent<V>(
    b: BuilderState<V>,
    r1: Result<Vec<AssembledField<V>>, BuilderError>,
    r2: Result<Vec<AssembledField<V>>, BuilderError>,
)
    requires
        b.well_formed(),
        assemble_post(b, r1),
        assemble_post(b, r2),
    ensures
        r1 is Ok <==> r2 is Ok,
        r1 matches Ok(o1) ==> (r2 matches Ok(o2) && o1@ == o2@),
        r1 matches Err(e1) ==> (r2 matches Err(e2) && e1 == e2),
{
    if r1 is Ok && r2 is Ok {
        let o1 = r1->Ok_0;
        let o2 = r2->Ok_0;
        assert forall|i: int| 0 <= i < o1@.len() implies o1@[i] == o2@[i] by {
            assert(o1@[i].name == b.fields@[i].name && o1@[i].value == b.assembled_value(i));
            assert(o2@[i].name == b.fields@[i].name && o2@[i].value == b.assembled_value(i));
        }
        assert(o1@ =~= o2@);
    }
    if r1 is Err && r2 is Err {
        let e1 = r1->Err_0;
        let e2 = r2->Err_0;
        let i1 = choose|i: int|
            b.first_missing_at(i) && e1 == BuilderError::MissingRequiredField(b.fields@[i].name);
        let i2 = choose|i: int|
            b.first_missing_at(i) && e2 == BuilderError::MissingRequiredField(b.fields@[i].name);
        if i1 < i2 {
            assert(b.fields@[i1].is_optional || b.slots@[i1] is Some);
        }
        if i2 < i1 {
            assert(b.fields@[i2].is_optional || b.slots@[i2] is Some);
        }
    }
}

} // verus!
