//! Builder synthesis: the rules that decide, per field, the builder's
//! storage shape, its setter shape, and its assembly treatment, and the
//! function that assembles them into a whole plan.

use vstd::prelude::*;
use vstd::string::StringExecFns;

use crate::classify::{classify, inner_type, is_optional_shape, wrapper_name, Optionality};
use crate::schema::{
    lemma_type_refs_model, type_refs_model, FieldModel, TypeRef, TypeRefModel, TypeSchema,
    TypeSchemaModel, Visibility,
};

verus! {

/// One storage field of the builder type.
#[derive(Debug, PartialEq, Eq)]
pub struct StorageFieldPlan {
    pub visibility: Visibility,
    pub name: String,
    pub ty: TypeRef,
}

/// Mathematical model of a [`StorageFieldPlan`].
pub struct StorageFieldModel {
    pub visibility: Visibility,
    pub name: Seq<char>,
    pub ty: TypeRefModel,
}

impl View for StorageFieldPlan {
    type V = StorageFieldModel;

    open spec fn view(&self) -> StorageFieldModel {
        StorageFieldModel { visibility: self.visibility, name: self.name@, ty: self.ty@ }
    }
}

/// One setter of the builder type.
#[derive(Debug, PartialEq, Eq)]
pub struct SetterPlan {
    pub visibility: Visibility,
    pub name: String,
    pub param_ty: TypeRef,
}

/// Mathematical model of a [`SetterPlan`].
pub struct SetterModel {
    pub visibility: Visibility,
    pub name: Seq<char>,
    pub param_ty: TypeRefModel,
}

impl View for SetterPlan {
    type V = SetterModel;

    open spec fn view(&self) -> SetterModel {
        SetterModel { visibility: self.visibility, name: self.name@, param_ty: self.param_ty@ }
    }
}

/// How assembly treats one field: an optional field is copied through as it
/// stands, a required field must be present or assembly fails naming it.
#[derive(Debug, PartialEq, Eq)]
pub struct AssemblyFieldPlan {
    pub name: String,
    pub is_optional: bool,
}

/// Mathematical model of an [`AssemblyFieldPlan`].
pub struct AssemblyFieldModel {
    pub name: Seq<char>,
    pub is_optional: bool,
}

impl View for AssemblyFieldPlan {
    type V = AssemblyFieldModel;

    open spec fn view(&self) -> AssemblyFieldModel {
        AssemblyFieldModel { name: self.name@, is_optional: self.is_optional }
    }
}

impl Clone for AssemblyFieldPlan {
    /// A clone is equal to the original.
    fn clone(&self) -> (res: Self)
        ensures
            res == *self,
    {
        AssemblyFieldPlan { name: self.name.clone(), is_optional: self.is_optional }
    }
}

/// The synthesizer's whole output: the structural description of the builder
/// type, its setters, and the assembly treatment of every field, in the
/// schema's declaration order. The plan carries no behavior; a printer
/// renders it into declarations of the host language.
#[derive(Debug, PartialEq, Eq)]
pub struct BuilderPlan {
    pub builder_name: String,
    pub builder_visibility: Visibility,
    pub storage_fields: Vec<StorageFieldPlan>,
    pub setters: Vec<SetterPlan>,
    pub assembly_field_plans: Vec<AssemblyFieldPlan>,
}

/// Mathematical model of a [`BuilderPlan`].
pub struct BuilderPlanModel {
    pub builder_name: Seq<char>,
    pub builder_visibility: Visibility,
    pub storage_fields: Seq<StorageFieldModel>,
    pub setters: Seq<SetterModel>,
    pub assembly_field_plans: Seq<AssemblyFieldModel>,
}

impl View for BuilderPlan {
    type V = BuilderPlanModel;

    open spec fn view(&self) -> BuilderPlanModel {
        BuilderPlanModel {
            builder_name: self.builder_name@,
            builder_visibility: self.builder_visibility,
            storage_fields: Seq::new(self.storage_fields@.len(), |i: int| self.storage_fields@[i]@),
            setters: Seq::new(self.setters@.len(), |i: int| self.setters@[i]@),
            assembly_field_plans: Seq::new(
                self.assembly_field_plans@.len(),
                |i: int| self.assembly_field_plans@[i]@,
            ),
        }
    }
}

/// The builder type's name: the record's name followed by `Builder`.
pub open spec fn builder_name_of(record_name: Seq<char>) -> Seq<char> {
    record_name + "Builder"@
}

/// The builder's storage type for a field: an optional-shaped field keeps
/// its original type unchanged (the wrapper itself already encodes absence,
/// so no second layer is added); any other field is wrapped once in the
/// optional wrapper.
pub open spec fn storage_type_of(t: TypeRefModel) -> TypeRefModel {
    if is_optional_shape(t) {
        t
    } else {
        TypeRefModel::Generic { name: wrapper_name(), args: seq![t] }
    }
}

/// The parameter type of a field's setter: the wrapper's single argument for
/// an optional-shaped field (the setter wraps it on invocation), the original
/// type for any other field.
pub open spec fn setter_param_of(t: TypeRefModel) -> TypeRefModel {
    if is_optional_shape(t) {
        inner_type(t)
    } else {
        t
    }
}

/// What the plan owes one field: visibility and name propagated unchanged to
/// storage field and setter, the storage and setter types given by the
/// per-field rules, and the assembly treatment matching the classification.
pub open spec fn field_planned(
    field: FieldModel,
    storage: StorageFieldModel,
    setter: SetterModel,
    assembly: AssemblyFieldModel,
) -> bool {
    &&& storage.visibility == field.visibility
    &&& storage.name == field.name
    &&& storage.ty == storage_type_of(field.ty)
    &&& setter.visibility == field.visibility
    &&& setter.name == field.name
    &&& setter.param_ty == setter_param_of(field.ty)
    &&& assembly.name == field.name
    &&& assembly.is_optional == is_optional_shape(field.ty)
}

/// What synthesis owes the whole schema: the builder's name and visibility,
/// one storage field, one setter and one assembly entry per schema field,
/// in declaration order, each obeying the per-field rules.
pub open spec fn plan_matches(schema: TypeSchemaModel, plan: BuilderPlanModel) -> bool {
    &&& plan.builder_name == builder_name_of(schema.name)
    &&& plan.builder_visibility == schema.visibility
    &&& plan.storage_fields.len() == schema.fields.len()
    &&& plan.setters.len() == schema.fields.len()
    &&& plan.assembly_field_plans.len() == schema.fields.len()
    &&& forall|i: int|
        0 <= i < schema.fields.len() ==> field_planned(
            schema.fields[i],
            plan.storage_fields[i],
            plan.setters[i],
            plan.assembly_field_plans[i],
        )
}

/// Wraps a type once in the optional wrapper.
fn wrap_in_optional(t: TypeRef) -> (r: TypeRef)
    ensures
        r@ == (TypeRefModel::Generic { name: wrapper_name(), args: seq![t@] }),
{
    let ghost t_model = t@;
    let mut args: Vec<TypeRef> = Vec::new();
    args.push(t);
    proof {
        lemma_type_refs_model(args@);
        assert(type_refs_model(args@) =~= seq![t_model]);
    }
    TypeRef::Generic { name: String::from_str("Option"), args }
}

/// Synthesizes the builder plan for a schema.
///
/// For each field, in declaration order: an optional-shaped field is stored
/// under its original type, its setter takes the wrapper's argument, and
/// assembly copies it through as it stands; any other field is stored
/// wrapped once in the optional wrapper, its setter takes the original type,
/// and assembly demands its presence. Names and visibility pass through
/// unchanged, and the builder itself takes the record's visibility and the
/// record's name followed by `Builder`.
pub fn synthesize(schema: &TypeSchema) -> (plan: BuilderPlan)
    ensures
        plan_matches(schema@, plan@),
{
    let mut storage_fields: Vec<StorageFieldPlan> = Vec::new();
    let mut setters: Vec<SetterPlan> = Vec::new();
    let mut assembly_field_plans: Vec<AssemblyFieldPlan> = Vec::new();
    let mut i: usize = 0;
    while i < schema.fields.len()
        invariant
            i <= schema.fields@.len(),
            storage_fields@.len() == i,
            setters@.len() == i,
            assembly_field_plans@.len() == i,
            forall|j: int|
                0 <= j < i ==> field_planned(
                    schema.fields@[j]@,
                    storage_fields@[j]@,
                    setters@[j]@,
                    assembly_field_plans@[j]@,
                ),
        decreases schema.fields@.len() - i,
    {
        let field = &schema.fields[i];
        match classify(&field.ty) {
            Optionality::Optional(inner) => {
                storage_fields.push(
                    StorageFieldPlan {
                        visibility: field.visibility,
                        name: field.name.clone(),
                        ty: field.ty.clone(),
                    },
                );
                setters.push(
                    SetterPlan {
                        visibility: field.visibility,
                        name: field.name.clone(),
                        param_ty: inner,
                    },
                );
                assembly_field_plans.push(
                    AssemblyFieldPlan { name: field.name.clone(), is_optional: true },
                );
            },
            Optionality::Required(original) => {
                storage_fields.push(
                    StorageFieldPlan {
                        visibility: field.visibility,
                        name: field.name.clone(),
                        ty: wrap_in_optional(original),
                    },
                );
                setters.push(
                    SetterPlan {
                        visibility: field.visibility,
                        name: field.name.clone(),
                        param_ty: field.ty.clone(),
                    },
                );
                assembly_field_plans.push(
                    AssemblyFieldPlan { name: field.name.clone(), is_optional: false },
                );
            },
        }
        i = i + 1;
    }
    let builder_name = schema.name.clone().concat("Builder");
    BuilderPlan {
        builder_name,
        builder_visibility: schema.visibility,
        storage_fields,
        setters,
        assembly_field_plans,
    }
}

} // verus!
