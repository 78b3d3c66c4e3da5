//! The generation entry points: classify, resolve, synthesize, in sequence.

use crate::error::{Diagnostic, DiagnosticView, ErrorKind, Fault};
use crate::model::{AccessorKind, Flavor, TypeBodyView, TypeDefinition, TypeDefinitionView};
use crate::resolve::{resolve, resolve_spec};
use crate::shape::{classify, classify_spec};
use crate::synthesize::{synthesize, synthesize_spec, OutputFragment, OutputFragmentView};
use vstd::prelude::*;

verus! {

/// The failure `fault` of the accessor `kind` on the type named `subject`.
pub open spec fn diagnostic_of(fault: Fault, kind: AccessorKind, subject: Seq<char>) -> DiagnosticView {
    DiagnosticView { fault, accessor: kind, subject }
}

/// What generation yields for a type definition: the block for the resolved
/// target of its shape, or the first failure met on the way.
pub open spec fn generate_spec(definition: TypeDefinitionView, kind: AccessorKind, flavor: Flavor) -> Result<
    OutputFragmentView,
    DiagnosticView,
> {
    match classify_spec(definition) {
        Err(fault) => Err(diagnostic_of(fault, kind, definition.name)),
        Ok(shape) => match resolve_spec(shape, kind, flavor) {
            Err(fault) => Err(diagnostic_of(fault, kind, definition.name)),
            Ok(target) => Ok(synthesize_spec(definition.name, definition.generics, target, kind)),
        },
    }
}

/// Whether an outcome of generation is the expected one.
pub open spec fn generated(
    outcome: Result<OutputFragment, Diagnostic>,
    expected: Result<OutputFragmentView, DiagnosticView>,
) -> bool {
    match (outcome, expected) {
        (Ok(fragment), Ok(wanted)) => fragment@ == wanted,
        (Err(diagnostic), Err(wanted)) => diagnostic@ == wanted,
        _ => false,
    }
}

/// The failure `fault` of the accessor `kind` on `definition`.
fn diagnose(fault: Fault, kind: AccessorKind, definition: &TypeDefinition) -> (diagnostic: Diagnostic)
    ensures
        diagnostic@ == diagnostic_of(fault, kind, definition@.name),
{
    Diagnostic { fault, accessor: kind, subject: definition.name.clone() }
}

/// Generates the accessor `kind` for `definition` under `flavor`.
///
/// The definition is only read. Either a whole block comes back or a
/// diagnostic: there is no partial output.
pub fn generate(definition: &TypeDefinition, kind: AccessorKind, flavor: Flavor) -> (outcome: Result<
    OutputFragment,
    Diagnostic,
>)
    ensures
        generated(outcome, generate_spec(definition@, kind, flavor)),
{
    let shape = match classify(definition) {
        Ok(shape) => shape,
        Err(fault) => {
            return Err(diagnose(fault, kind, definition));
        },
    };
    match resolve(&shape, kind, flavor) {
        Ok(target) => Ok(
            synthesize(definition.name.as_str(), definition.generics.as_str(), target, kind),
        ),
        Err(fault) => Err(diagnose(fault, kind, definition)),
    }
}

/// Generates the read-only accessor; a named record of one field needs no
/// marker.
pub fn derive_deref(definition: &TypeDefinition) -> (outcome: Result<OutputFragment, Diagnostic>)
    ensures
        generated(outcome, generate_spec(definition@, AccessorKind::ReadOnly, Flavor::Convenience)),
{
    generate(definition, AccessorKind::ReadOnly, Flavor::Convenience)
}

/// Generates the mutable accessor; a named record of one field needs no
/// marker.
pub fn derive_deref_mut(definition: &TypeDefinition) -> (outcome: Result<OutputFragment, Diagnostic>)
    ensures
        generated(outcome, generate_spec(definition@, AccessorKind::Mutable, Flavor::Convenience)),
{
    generate(definition, AccessorKind::Mutable, Flavor::Convenience)
}

/// Generates the read-only accessor; every named record needs a marker.
pub fn derive_deref_strict(definition: &TypeDefinition) -> (outcome: Result<
    OutputFragment,
    Diagnostic,
>)
    ensures
        generated(outcome, generate_spec(definition@, AccessorKind::ReadOnly, Flavor::Strict)),
{
    generate(definition, AccessorKind::ReadOnly, Flavor::Strict)
}

/// Generates the mutable accessor; every named record needs a marker.
pub fn derive_deref_mut_strict(definition: &TypeDefinition) -> (outcome: Result<
    OutputFragment,
    Diagnostic,
>)
    ensures
        generated(outcome, generate_spec(definition@, AccessorKind::Mutable, Flavor::Strict)),
{
    generate(definition, AccessorKind::Mutable, Flavor::Strict)
}

/// Whether a definition has no usable field or is no record.
pub open spec fn invalid_shape(definition: TypeDefinitionView) -> bool {
    match definition.body {
        TypeBodyView::NamedRecord(fields) => fields.len() == 0,
        TypeBodyView::PositionalRecord(fields) => fields.len() == 0,
        TypeBodyView::UnitRecord => true,
        TypeBodyView::Enumeration => true,
        TypeBodyView::Union => true,
    }
}

/// A unit record, a record without fields, a sum type and a union fail with
/// an invalid-shape diagnostic, for every accessor and every flavor; and no
/// other definition fails in that way.
pub proof fn lemma_invalid_shape_fails(
    definition: TypeDefinitionView,
    kind: AccessorKind,
    flavor: Flavor,
)
    ensures
        invalid_shape(definition) <==> (generate_spec(definition, kind, flavor) matches Err(
            diagnostic,
        ) && diagnostic.fault.kind() == ErrorKind::InvalidShape),
        definition.body is UnitRecord ==> generate_spec(definition, kind, flavor) == Err::<
            OutputFragmentView,
            DiagnosticView,
        >(diagnostic_of(Fault::NoFields, kind, definition.name)),
        (definition.body is Enumeration || definition.body is Union) ==> generate_spec(
            definition,
            kind,
            flavor,
        ) == Err::<OutputFragmentView, DiagnosticView>(
            diagnostic_of(Fault::NotRecord, kind, definition.name),
        ),
{
    if let Ok(shape) = classify_spec(definition) {
        crate::resolve::lemma_target_is_a_field(shape, kind, flavor);
    }
}

/// A generated block is attached to the definition's own name, carries its
/// parameter list as written, and declares as its target type the declared
/// type of the field that resolution selected.
pub proof fn lemma_block_follows_definition(
    definition: TypeDefinitionView,
    kind: AccessorKind,
    flavor: Flavor,
)
    ensures
        generate_spec(definition, kind, flavor) matches Ok(fragment) ==> (classify_spec(
            definition,
        ) matches Ok(shape) && (resolve_spec(shape, kind, flavor) matches Ok(target) && {
            &&& fragment.accessor == kind
            &&& fragment.subject == definition.name
            &&& fragment.generics == definition.generics
            &&& fragment.target_type == target.ty
            &&& fragment.field == target.field
        })),
{
}

/// The two flavors differ only on named records of exactly one field: on
/// every other definition they generate the same.
pub proof fn lemma_flavors_agree(definition: TypeDefinitionView, kind: AccessorKind)
    requires
        !(definition.body matches TypeBodyView::NamedRecord(fields) && fields.len() == 1),
    ensures
        generate_spec(definition, kind, Flavor::Strict) == generate_spec(
            definition,
            kind,
            Flavor::Convenience,
        ),
{
}

/// A diagnostic names the definition that it is about and the accessor that
/// was asked for.
pub proof fn lemma_diagnostic_names_definition(
    definition: TypeDefinitionView,
    kind: AccessorKind,
    flavor: Flavor,
)
    ensures
        generate_spec(definition, kind, flavor) matches Err(diagnostic) ==> diagnostic.subject
            == definition.name && diagnostic.accessor == kind,
{
}

} // verus!
