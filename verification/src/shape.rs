//! Classification of a type definition's field list.

use crate::error::Fault;
use crate::model::{
    named_views, positional_views, NamedField, NamedFieldView, PositionalField,
    PositionalFieldView, TypeBody, TypeBodyView, TypeDefinition, TypeDefinitionView,
};
use vstd::prelude::*;

verus! {

/// The shape of a record's field list. The fields are borrowed from the type
/// definition that was classified.
#[derive(Clone, Copy, Debug, PartialEq, Eq)]
pub enum FieldShape<'a> {
    /// Fields identified by position, in declaration order.
    Positional(&'a Vec<PositionalField>),
    /// Fields identified by name, in declaration order, each with its markers.
    Named(&'a Vec<NamedField>),
    /// No fields.
    Unit,
}

/// The mathematical model of a `FieldShape`.
pub ghost enum FieldShapeView {
    Positional(Seq<PositionalFieldView>),
    Named(Seq<NamedFieldView>),
    Unit,
}

impl FieldShapeView {
    /// The number of fields.
    pub open spec fn field_count(self) -> nat {
        match self {
            FieldShapeView::Positional(fields) => fields.len(),
            FieldShapeView::Named(fields) => fields.len(),
            FieldShapeView::Unit => 0,
        }
    }

    /// A shape as classification produces it: the two shapes with fields hold
    /// at least one.
    pub open spec fn well_formed(self) -> bool {
        self is Unit || self.field_count() >= 1
    }
}

impl<'a> View for FieldShape<'a> {
    type V = FieldShapeView;

    open spec fn view(&self) -> FieldShapeView {
        match self {
            FieldShape::Positional(fields) => FieldShapeView::Positional(positional_views(fields@)),
            FieldShape::Named(fields) => FieldShapeView::Named(named_views(fields@)),
            FieldShape::Unit => FieldShapeView::Unit,
        }
    }
}

/// The shape of a type definition: positional or named where the record has
/// fields of that notation, unit where it has none, and a failure where the
/// definition is no record.
pub open spec fn classify_spec(definition: TypeDefinitionView) -> Result<FieldShapeView, Fault> {
    match definition.body {
        TypeBodyView::NamedRecord(fields) => if fields.len() == 0 {
            Ok(FieldShapeView::Unit)
        } else {
            Ok(FieldShapeView::Named(fields))
        },
        TypeBodyView::PositionalRecord(fields) => if fields.len() == 0 {
            Ok(FieldShapeView::Unit)
        } else {
            Ok(FieldShapeView::Positional(fields))
        },
        TypeBodyView::UnitRecord => Ok(FieldShapeView::Unit),
        TypeBodyView::Enumeration => Err(Fault::NotRecord),
        TypeBodyView::Union => Err(Fault::NotRecord),
    }
}

/// Classifies the field list of `definition`.
pub fn classify<'a>(definition: &'a TypeDefinition) -> (shape: Result<FieldShape<'a>, Fault>)
    ensures
        match (shape, classify_spec(definition@)) {
            (Ok(found), Ok(expected)) => found@ == expected && found@.well_formed(),
            (Err(found), Err(expected)) => found == expected,
            _ => false,
        },
{
    match &definition.body {
        TypeBody::NamedRecord(fields) => {
            if fields.len() == 0 {
                Ok(FieldShape::Unit)
            } else {
                Ok(FieldShape::Named(fields))
            }
        },
        TypeBody::PositionalRecord(fields) => {
            if fields.len() == 0 {
                Ok(FieldShape::Unit)
            } else {
                Ok(FieldShape::Positional(fields))
            }
        },
        TypeBody::UnitRecord => Ok(FieldShape::Unit),
        TypeBody::Enumeration => Err(Fault::NotRecord),
        TypeBody::Union => Err(Fault::NotRecord),
    }
}

/// Classification never yields a shape with an empty field sequence, and
/// fails exactly on the definitions that are no records.
pub proof fn lemma_classify_total(definition: TypeDefinitionView)
    ensures
        classify_spec(definition) is Err <==> (definition.body is Enumeration
            || definition.body is Union),
        classify_spec(definition) matches Ok(shape) ==> shape.well_formed(),
        classify_spec(definition) matches Err(fault) ==> fault == Fault::NotRecord,
{
}

} // verus!
