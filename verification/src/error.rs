//! Failures of generation, as values.

use crate::model::AccessorKind;
use vstd::prelude::*;
use vstd::string::StringExecFns;

verus! {

/// The two kinds of failure.
#[derive(Clone, Copy, Debug, PartialEq, Eq, Structural)]
pub enum ErrorKind {
    /// The type has no usable field, or is no record.
    InvalidShape,
    /// No field carries the marker that the requested accessor needs.
    MissingMarker,
}

/// What exactly was found wrong.
#[derive(Clone, Copy, Debug, PartialEq, Eq, Structural)]
pub enum Fault {
    /// The type definition is a sum type or a union, not a record.
    NotRecord,
    /// The record has no fields.
    NoFields,
    /// The record's fields are named, and none carries the needed marker.
    MissingMarker,
}

impl Fault {
    /// The kind of failure that this fault belongs to.
    pub open spec fn spec_kind(self) -> ErrorKind {
        match self {
            Fault::NotRecord => ErrorKind::InvalidShape,
            Fault::NoFields => ErrorKind::InvalidShape,
            Fault::MissingMarker => ErrorKind::MissingMarker,
        }
    }

    /// The kind of failure that this fault belongs to.
    #[verifier::when_used_as_spec(spec_kind)]
    pub fn kind(self) -> (k: ErrorKind)
        ensures
            k == self.spec_kind(),
    {
        match self {
            Fault::NotRecord => ErrorKind::InvalidShape,
            Fault::NoFields => ErrorKind::InvalidShape,
            Fault::MissingMarker => ErrorKind::MissingMarker,
        }
    }
}

/// The text that reports `fault` for the accessor `accessor`.
pub open spec fn message_text(fault: Fault, accessor: AccessorKind) -> Seq<char> {
    match (fault, accessor) {
        (Fault::NotRecord, AccessorKind::ReadOnly) => "Deref only implemented for structs"@,
        (Fault::NotRecord, AccessorKind::Mutable) => "DerefMut only implemented for structs"@,
        (Fault::NoFields, AccessorKind::ReadOnly) => "Deref not implemented for unit structs"@,
        (Fault::NoFields, AccessorKind::Mutable) => "DerefMut not implemented for unit structs"@,
        (Fault::MissingMarker, AccessorKind::ReadOnly) => "No field with #[DerefTarget]"@,
        (Fault::MissingMarker, AccessorKind::Mutable) => "No field marked with #[DerefMutTarget]"@,
    }
}

/// A failed generation: what was wrong, for which accessor, on which type.
#[derive(Clone, Debug, PartialEq, Eq)]
pub struct Diagnostic {
    /// What was found wrong.
    pub fault: Fault,
    /// The accessor that was being generated.
    pub accessor: AccessorKind,
    /// The name of the offending type definition.
    pub subject: String,
}

/// The mathematical model of a `Diagnostic`.
pub ghost struct DiagnosticView {
    pub fault: Fault,
    pub accessor: AccessorKind,
    pub subject: Seq<char>,
}

impl View for Diagnostic {
    type V = DiagnosticView;

    open spec fn view(&self) -> DiagnosticView {
        DiagnosticView { fault: self.fault, accessor: self.accessor, subject: self.subject@ }
    }
}

impl Diagnostic {
    /// The kind of this failure.
    pub fn kind(&self) -> (k: ErrorKind)
        ensures
            k == self.fault.spec_kind(),
    {
        self.fault.kind()
    }

    /// The text of the diagnostic.
    pub fn message(&self) -> (text: String)
        ensures
            text@ == message_text(self.fault, self.accessor),
    {
        let text: &str = match (self.fault, self.accessor) {
            (Fault::NotRecord, AccessorKind::ReadOnly) => "Deref only implemented for structs",
            (Fault::NotRecord, AccessorKind::Mutable) => "DerefMut only implemented for structs",
            (Fault::NoFields, AccessorKind::ReadOnly) => "Deref not implemented for unit structs",
            (Fault::NoFields, AccessorKind::Mutable) => "DerefMut not implemented for unit structs",
            (Fault::MissingMarker, AccessorKind::ReadOnly) => "No field with #[DerefTarget]",
            (Fault::MissingMarker, AccessorKind::Mutable) => "No field marked with #[DerefMutTarget]",
        };
        String::from_str(text)
    }
}

} // verus!
