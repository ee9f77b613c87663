//! The two failure modes of the transformation: a raw definition whose shape
//! cannot be turned into a schema, and a required field found absent when a
//! builder is assembled.

use vstd::prelude::*;
use vstd::string::StringExecFns;

verus! {

/// An error of the extraction phase or of the assembly step of a synthesized
/// builder. No other failure exists: synthesis itself is total on schemas.
#[derive(Debug, PartialEq, Eq)]
pub enum BuilderError {
    /// The raw type definition is not a record with named fields.
    UnsupportedShape,
    /// Assembly found the named required field unset; the name is the first
    /// such field in declaration order.
    MissingRequiredField(String),
}

impl BuilderError {
    /// A human-readable rendering of the error.
    pub fn message(&self) -> (m: String)
        ensures
            *self is UnsupportedShape ==> m@ == "unsupported shape: expected a record with named fields"@,
            self matches BuilderError::MissingRequiredField(name) ==> m@ == "missing required field: "@
                + name@,
    {
        match self {
            BuilderError::UnsupportedShape => String::from_str(
                "unsupported shape: expected a record with named fields",
            ),
            BuilderError::MissingRequiredField(name) => String::from_str(
                "missing required field: ",
            ).concat(name.as_str()),
        }
    }
}

} // verus!
