//! Optionality classification: recognizing, purely by structure and name,
//! whether a field's type is the optional wrapper applied to exactly one
//! type argument.

use vstd::prelude::*;
use vstd::string::StringExecFns;

use crate::schema::{lemma_type_refs_model, TypeRef, TypeRefModel};

verus! {

/// The one recognized optional-wrapper name. No other name, and no other
/// arity, triggers optional classification: the check is structural, with no
/// semantic type resolution behind it, so an optional-like type under
/// another name deliberately stays required.
pub open spec fn wrapper_name() -> Seq<char> {
    "Option"@
}

/// Whether a type reference is the recognized optional wrapper instantiated
/// with exactly one type argument.
pub open spec fn is_optional_shape(t: TypeRefModel) -> bool {
    match t {
        TypeRefModel::Generic { name, args } => name == wrapper_name() && args.len() == 1,
        TypeRefModel::Plain { .. } => false,
    }
}

/// The single type argument of an optional-shaped reference.
pub open spec fn inner_type(t: TypeRefModel) -> TypeRefModel
    recommends
        is_optional_shape(t),
{
    match t {
        TypeRefModel::Generic { name, args } => args[0],
        TypeRefModel::Plain { .. } => t,
    }
}

/// Classification of one field's type. `Required` carries the field's
/// original type; `Optional` carries the wrapper's single type argument.
/// Derived per field and consumed immediately; never stored.
#[derive(Debug)]
pub enum Optionality {
    Required(TypeRef),
    Optional(TypeRef),
}

/// The base name and single argument of a generic instantiation of arity
/// one; `None` for a plain name and for every other arity.
pub fn generic_unary_parts(ty: &TypeRef) -> (r: Option<(&String, &TypeRef)>)
    ensures
        match r {
            Some(parts) => ty@ matches TypeRefModel::Generic { name, args } && args.len() == 1
                && parts.0@ == name && parts.1@ == args[0],
            None => !(ty@ matches TypeRefModel::Generic { name, args } && args.len() == 1),
        },
{
    proof {
        match ty {
            TypeRef::Generic { name: _, args } => lemma_type_refs_model(args@),
            TypeRef::Plain { .. } => (),
        }
    }
    match ty {
        TypeRef::Generic { name, args } => {
            if args.len() == 1 {
                Some((name, &args[0]))
            } else {
                None
            }
        },
        TypeRef::Plain { .. } => None,
    }
}

/// The wrapper's type argument when the reference is optional-shaped,
/// `None` otherwise: a normal, expected outcome for most fields.
pub fn optional_inner(ty: &TypeRef) -> (r: Option<&TypeRef>)
    ensures
        is_optional_shape(ty@) ==> (r matches Some(inner) && inner@ == inner_type(ty@)),
        !is_optional_shape(ty@) ==> r is None,
{
    match generic_unary_parts(ty) {
        Some(parts) => {
            let wrapper = String::from_str("Option");
            if *parts.0 == wrapper {
                Some(parts.1)
            } else {
                None
            }
        },
        None => None,
    }
}

/// Classifies one type reference.
///
/// Exactly the references shaped as the recognized wrapper around one type
/// argument come out `Optional`, carrying that argument; every other shape
/// (a plain name, no argument, more than one, or a non-matching base name)
/// comes out `Required`, carrying the original reference unchanged.
pub fn classify(ty: &TypeRef) -> (r: Optionality)
    ensures
        is_optional_shape(ty@) ==> (r matches Optionality::Optional(inner) && inner@
            == inner_type(ty@)),
        !is_optional_shape(ty@) ==> (r matches Optionality::Required(original) && original@
            == ty@),
{
    match optional_inner(ty) {
        Some(inner) => Optionality::Optional(inner.clone()),
        None => Optionality::Required(ty.clone()),
    }
}

} // verus!
