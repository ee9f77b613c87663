//! Structural description of record types: type references, field
//! descriptors, whole-type schemas, and the extractor that normalizes a raw
//! type definition into a schema.

use vstd::prelude::*;

use crate::errors::BuilderError;

verus! {

/// Visibility marker carried from a source declaration to everything the
/// synthesizer emits for it.
#[derive(Clone, Copy, Debug, PartialEq, Eq, Structural)]
pub enum Visibility {
    /// Exported visibility.
    Public,
    /// Default (non-exported) visibility.
    Inherited,
}

/// A reference to a type: either a plain name, or a name applied to a list
/// of type arguments. Only instantiations with exactly one argument are ever
/// meaningful to classification; other arities are representable so that the
/// classifier can recognize and reject them.
#[derive(Debug, PartialEq, Eq)]
pub enum TypeRef {
    Plain { name: String },
    Generic { name: String, args: Vec<TypeRef> },
}

/// Mathematical model of a [`TypeRef`].
pub enum TypeRefModel {
    Plain { name: Seq<char> },
    Generic { name: Seq<char>, args: Seq<TypeRefModel> },
}

/// The model of a sequence of type references.
pub open spec fn type_refs_model(ts: Seq<TypeRef>) -> Seq<TypeRefModel>
    decreases ts,
{
    if ts.len() == 0 {
        Seq::empty()
    } else {
        seq![type_ref_model(ts[0])] + type_refs_model(ts.drop_first())
    }
}

/// The model of one type reference.
pub open spec fn type_ref_model(t: TypeRef) -> TypeRefModel
    decreases t,
{
    match t {
        TypeRef::Plain { name } => TypeRefModel::Plain { name: name@ },
        TypeRef::Generic { name, args } => TypeRefModel::Generic {
            name: name@,
            args: type_refs_model(args@),
        },
    }
}

impl View for TypeRef {
    type V = TypeRefModel;

    open spec fn view(&self) -> TypeRefModel {
        type_ref_model(*self)
    }
}

/// The model of a sequence is pointwise: same length, and each element is
/// the model of the corresponding type reference.
pub proof fn lemma_type_refs_model(ts: Seq<TypeRef>)
    ensures
        type_refs_model(ts).len() == ts.len(),
        forall|i: int| 0 <= i < ts.len() ==> type_refs_model(ts)[i] == type_ref_model(ts[i]),
    decreases ts.len(),
{
    if ts.len() > 0 {
        lemma_type_refs_model(ts.drop_first());
    }
}

impl Clone for TypeRef {
    /// Cloning preserves the model.
    fn clone(&self) -> (res: Self)
        ensures
            res@ == self@,
        decreases *self,
    {
        match self {
            TypeRef::Plain { name } => TypeRef::Plain { name: name.clone() },
            TypeRef::Generic { name, args } => {
                let mut cloned_args: Vec<TypeRef> = Vec::new();
                let mut i: usize = 0;
                while i < args.len()
                    invariant
                        *self is Generic,
                        self->Generic_args == *args,
                        i <= args@.len(),
                        cloned_args@.len() == i,
                        forall|j: int| 0 <= j < i ==> cloned_args@[j]@ == args@[j]@,
                    decreases args@.len() - i,
                {
                    proof {
                        assert(self->Generic_args == *args);
                        assert(decreases_to!(*self => self->Generic_args));
                        assert(decreases_to!(self->Generic_args => self->Generic_args@));
                        assert(decreases_to!(self->Generic_args@ => self->Generic_args@[i as int]));
                    }
                    cloned_args.push(args[i].clone());
                    i = i + 1;
                }
                proof {
                    lemma_type_refs_model(args@);
                    lemma_type_refs_model(cloned_args@);
                    assert(type_refs_model(cloned_args@) =~= type_refs_model(args@));
                }
                TypeRef::Generic { name: name.clone(), args: cloned_args }
            },
        }
    }
}

/// One field of a record: its visibility, its name, and its type, all
/// propagated unchanged from the source declaration.
#[derive(Debug, PartialEq, Eq)]
pub struct FieldDescriptor {
    pub visibility: Visibility,
    pub name: String,
    pub ty: TypeRef,
}

/// Mathematical model of a [`FieldDescriptor`].
pub struct FieldModel {
    pub visibility: Visibility,
    pub name: Seq<char>,
    pub ty: TypeRefModel,
}

impl View for FieldDescriptor {
    type V = FieldModel;

    open spec fn view(&self) -> FieldModel {
        FieldModel { visibility: self.visibility, name: self.name@, ty: self.ty@ }
    }
}

impl Clone for FieldDescriptor {
    /// Cloning preserves the model.
    fn clone(&self) -> (res: Self)
        ensures
            res@ == self@,
    {
        FieldDescriptor { visibility: self.visibility, name: self.name.clone(), ty: self.ty.clone() }
    }
}

/// The model of a sequence of fields, pointwise.
pub open spec fn fields_model(fields: Seq<FieldDescriptor>) -> Seq<FieldModel> {
    Seq::new(fields.len(), |i: int| fields[i]@)
}

/// A normalized record type: name, visibility, and its fields in declaration
/// order. Field order is significant and preserved end-to-end; it decides
/// storage order, setter order, and the order of required-field validation.
#[derive(Debug, PartialEq, Eq)]
pub struct TypeSchema {
    pub visibility: Visibility,
    pub name: String,
    pub fields: Vec<FieldDescriptor>,
}

/// Mathematical model of a [`TypeSchema`].
pub struct TypeSchemaModel {
    pub visibility: Visibility,
    pub name: Seq<char>,
    pub fields: Seq<FieldModel>,
}

impl View for TypeSchema {
    type V = TypeSchemaModel;

    open spec fn view(&self) -> TypeSchemaModel {
        TypeSchemaModel {
            visibility: self.visibility,
            name: self.name@,
            fields: fields_model(self.fields@),
        }
    }
}

/// A raw type definition as a front end hands it over, before any check of
/// its shape. Only a record with named fields can be turned into a schema.
#[derive(Debug, PartialEq, Eq)]
pub enum RawTypeDef {
    /// A record type with named fields.
    NamedFieldRecord { visibility: Visibility, name: String, fields: Vec<FieldDescriptor> },
    /// A record type with positional, unnamed fields.
    TupleRecord { visibility: Visibility, name: String, element_types: Vec<TypeRef> },
    /// A record type with no fields at all.
    UnitRecord { visibility: Visibility, name: String },
    /// A type definition that is not a record (a sum type, for example).
    NonRecord { name: String },
}

/// Mathematical model of a [`RawTypeDef`].
pub enum RawTypeDefModel {
    NamedFieldRecord { visibility: Visibility, name: Seq<char>, fields: Seq<FieldModel> },
    TupleRecord { visibility: Visibility, name: Seq<char>, element_types: Seq<TypeRefModel> },
    UnitRecord { visibility: Visibility, name: Seq<char> },
    NonRecord { name: Seq<char> },
}

impl View for RawTypeDef {
    type V = RawTypeDefModel;

    open spec fn view(&self) -> RawTypeDefModel {
        match *self {
            RawTypeDef::NamedFieldRecord { visibility, name, fields } => RawTypeDefModel::NamedFieldRecord {
                visibility,
                name: name@,
                fields: fields_model(fields@),
            },
            RawTypeDef::TupleRecord { visibility, name, element_types } => RawTypeDefModel::TupleRecord {
                visibility,
                name: name@,
                element_types: Seq::new(element_types@.len(), |i: int| element_types@[i]@),
            },
            RawTypeDef::UnitRecord { visibility, name } => RawTypeDefModel::UnitRecord {
                visibility,
                name: name@,
            },
            RawTypeDef::NonRecord { name } => RawTypeDefModel::NonRecord { name: name@ },
        }
    }
}

/// Normalizes a raw type definition into a schema.
///
/// Exactly the named-field records are accepted; their name, visibility,
/// field count and field order are preserved without change. Every other
/// shape is rejected with [`BuilderError::UnsupportedShape`], and no schema
/// is produced for it.
pub fn extract_schema(raw: RawTypeDef) -> (result: Result<TypeSchema, BuilderError>)
    ensures
        raw@ matches RawTypeDefModel::NamedFieldRecord { visibility, name, fields } ==> result
            matches Ok(s) && s@ == (TypeSchemaModel { visibility, name, fields }),
        !(raw@ is NamedFieldRecord) ==> result == Err::<TypeSchema, BuilderError>(
            BuilderError::UnsupportedShape,
        ),
{
    match raw {
        RawTypeDef::NamedFieldRecord { visibility, name, fields } => Ok(
            TypeSchema { visibility, name, fields },
        ),
        _ => Err(BuilderError::UnsupportedShape),
    }
}

} // verus!
