//! Field selection and code synthesis for dereference accessors.
//!
//! A wrapper type exposes one of its fields as its dereference target. Given a
//! structural description of the type, this library classifies its field list,
//! selects the target field for the read-only or the mutable accessor, and
//! builds the implementation block that forms a reference to that field.
//!
//! The pipeline is `classify`, then `resolve`, then `synthesize`; `generate`
//! runs the three in sequence and reports a failure as a `Diagnostic`.

pub mod error;
pub mod generate;
pub mod model;
pub mod resolve;
pub mod shape;
pub mod synthesize;

pub use error::{Diagnostic, ErrorKind, Fault};
pub use generate::{
    derive_deref, derive_deref_mut, derive_deref_mut_strict, derive_deref_strict, generate,
};
pub use model::{
    AccessorKind, Flavor, Marker, MarkerSet, NamedField, PositionalField, TypeBody, TypeDefinition,
};
pub use resolve::{find_marked, resolve, FieldRef, ResolvedTarget};
pub use shape::{classify, FieldShape};
pub use synthesize::{decimal, synthesize, OutputFragment};
