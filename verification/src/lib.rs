//! Generation of fluent builder APIs from declarative record schemas.
//!
//! From a structural description of a record type — an ordered list of
//! fields, each with an identifier, a declared type, and attributes marking
//! it required or giving it a default — this library synthesizes a
//! construction API: one constructor taking exactly the required fields,
//! and one chainable setter method per optional field, with container-typed
//! fields given element-wise insertion methods instead of whole-value
//! replacement. A verified semantics of the synthesized API makes the
//! behaviour of generated builders a proved property rather than a
//! convention.

pub mod classify;
pub mod laws;
pub mod names;
pub mod schema;
pub mod semantics;
pub mod seqs;
pub mod synth;

pub use classify::{ParameterMode, TypeCategory};
pub use schema::{
    FieldSpec, GenError, RawField, Schema, SchemaAttr, SchemaKind, TypeDesc, Value, ValueV,
};
pub use semantics::{FieldBinding, FieldState, Instance, StateModel};
pub use synth::{CtorSpec, GeneratedApi, MethodSpec, MutationKind, OptionalInit, ParamSpec};
