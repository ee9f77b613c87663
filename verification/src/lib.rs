//! Synthesis of builder companions for named-field record types.
//!
//! Given a structural description of a record type (its name, visibility,
//! and ordered fields), this library derives a [`synth::BuilderPlan`]: the
//! exact shape of a companion builder type, its setters, the record's
//! zero-argument factory entry point, and its fallible assembly step.
//! A separate front end parses source text into the structural description,
//! and a separate printer renders the plan back into source text; neither
//! is part of this library.

pub mod assembly;
pub mod classify;
pub mod errors;
pub mod schema;
pub mod synth;
