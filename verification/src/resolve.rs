//! Selection of the field that an accessor exposes.

use crate::error::{ErrorKind, Fault};
use crate::model::{
    named_views, AccessorKind, Flavor, Marker, NamedField, NamedFieldView,
    PositionalFieldView,
};
use crate::shape::{FieldShape, FieldShapeView};
use vstd::prelude::*;

verus! {

/// How the target field is referred to: by position or by identifier.
#[derive(Clone, Debug, PartialEq, Eq)]
pub enum FieldRef {
    Index(usize),
    Ident(String),
}

/// The mathematical model of a `FieldRef`.
pub ghost enum FieldRefView {
    Index(nat),
    Ident(Seq<char>),
}

impl View for FieldRef {
    type V = FieldRefView;

    open spec fn view(&self) -> FieldRefView {
        match self {
            FieldRef::Index(position) => FieldRefView::Index(*position as nat),
            FieldRef::Ident(ident) => FieldRefView::Ident(ident@),
        }
    }
}

/// The one field chosen as the dereference target, with its declared type.
#[derive(Clone, Debug, PartialEq, Eq)]
pub struct ResolvedTarget {
    /// The chosen field.
    pub field: FieldRef,
    /// The chosen field's declared type, as written.
    pub ty: String,
}

/// The mathematical model of a `ResolvedTarget`.
pub ghost struct ResolvedTargetView {
    pub field: FieldRefView,
    pub ty: Seq<char>,
}

impl View for ResolvedTarget {
    type V = ResolvedTargetView;

    open spec fn view(&self) -> ResolvedTargetView {
        ResolvedTargetView { field: self.field@, ty: self.ty@ }
    }
}

/// The target that stands for a named field.
pub open spec fn named_target(field: NamedFieldView) -> ResolvedTargetView {
    ResolvedTargetView { field: FieldRefView::Ident(field.ident), ty: field.ty }
}

/// The target that stands for the positional field at position 0.
pub open spec fn leading_target(field: PositionalFieldView) -> ResolvedTargetView {
    ResolvedTargetView { field: FieldRefView::Index(0), ty: field.ty }
}

/// The position of the first field at or after `start` that carries `marker`.
pub open spec fn first_marked_from(fields: Seq<NamedFieldView>, marker: Marker, start: int) -> Option<
    int,
>
    decreases fields.len() - start,
{
    if start < 0 || start >= fields.len() {
        None
    } else if fields[start].markers.contains(marker) {
        Some(start)
    } else {
        first_marked_from(fields, marker, start + 1)
    }
}

/// The position of the first field, in declaration order, that carries `marker`.
pub open spec fn first_marked(fields: Seq<NamedFieldView>, marker: Marker) -> Option<int> {
    first_marked_from(fields, marker, 0)
}

/// The target of an accessor on a shape:
/// a shape without fields has none; a positional shape exposes position 0;
/// a named shape of one field exposes it under the convenience flavor; any
/// other named shape exposes its first field that carries the accessor's
/// marker, and has no target where no field carries it.
pub open spec fn resolve_spec(shape: FieldShapeView, kind: AccessorKind, flavor: Flavor) -> Result<
    ResolvedTargetView,
    Fault,
> {
    match shape {
        FieldShapeView::Unit => Err(Fault::NoFields),
        FieldShapeView::Positional(fields) => if fields.len() == 0 {
            Err(Fault::NoFields)
        } else {
            Ok(leading_target(fields[0]))
        },
        FieldShapeView::Named(fields) => if fields.len() == 0 {
            Err(Fault::NoFields)
        } else if flavor == Flavor::Convenience && fields.len() == 1 {
            Ok(named_target(fields[0]))
        } else {
            match first_marked(fields, kind.marker()) {
                Some(position) => Ok(named_target(fields[position])),
                None => Err(Fault::MissingMarker),
            }
        },
    }
}

/// `first_marked_from` finds the least marked position at or after `start`,
/// and finds none exactly when no field from `start` on is marked.
pub proof fn lemma_first_marked_from(fields: Seq<NamedFieldView>, marker: Marker, start: int)
    requires
        0 <= start,
    ensures
        match first_marked_from(fields, marker, start) {
            Some(position) => {
                &&& start <= position < fields.len()
                &&& fields[position].markers.contains(marker)
                &&& forall|j: int| start <= j < position ==> !fields[j].markers.contains(marker)
            },
            None => forall|j: int| start <= j < fields.len() ==> !fields[j].markers.contains(marker),
        },
    decreases fields.len() - start,
{
    if start < fields.len() && !fields[start].markers.contains(marker) {
        lemma_first_marked_from(fields, marker, start + 1);
    }
}

/// The search for a marked field may skip a prefix in which no field is marked.
proof fn lemma_skip_unmarked(fields: Seq<NamedFieldView>, marker: Marker, start: int)
    requires
        0 <= start <= fields.len(),
        forall|j: int| 0 <= j < start ==> !fields[j].markers.contains(marker),
    ensures
        first_marked(fields, marker) == first_marked_from(fields, marker, start),
    decreases start,
{
    if start > 0 {
        lemma_skip_unmarked(fields, marker, start - 1);
    }
}

/// Finds the first field, in declaration order, that carries `marker`.
pub fn find_marked(fields: &Vec<NamedField>, marker: Marker) -> (found: Option<usize>)
    ensures
        match found {
            Some(position) => position < fields.len() && first_marked(
                named_views(fields@),
                marker,
            ) == Some(position as int),
            None => first_marked(named_views(fields@), marker).is_none(),
        },
{
    let mut position: usize = 0;
    while position < fields.len()
        invariant
            0 <= position <= fields.len(),
            forall|j: int| 0 <= j < position ==> !named_views(fields@)[j].markers.contains(marker),
        decreases fields.len() - position,
    {
        if fields[position].markers.contains(marker) {
            proof {
                lemma_skip_unmarked(named_views(fields@), marker, position as int);
            }
            return Some(position);
        }
        position += 1;
    }
    proof {
        lemma_skip_unmarked(named_views(fields@), marker, position as int);
    }
    None
}

/// The target that exposes `field` by its identifier.
fn target_of_named(field: &NamedField) -> (target: ResolvedTarget)
    ensures
        target@ == named_target(field@),
{
    ResolvedTarget { field: FieldRef::Ident(field.ident.clone()), ty: field.ty.clone() }
}

/// Selects the field that the accessor `kind` exposes on `shape`.
///
/// A positional shape always exposes its first field, however many fields it
/// has: positional fields carry no markers, so there is no way to choose
/// another. The remaining fields are inert.
pub fn resolve(shape: &FieldShape, kind: AccessorKind, flavor: Flavor) -> (target: Result<
    ResolvedTarget,
    Fault,
>)
    ensures
        match (target, resolve_spec(shape@, kind, flavor)) {
            (Ok(found), Ok(expected)) => found@ == expected,
            (Err(found), Err(expected)) => found == expected,
            _ => false,
        },
{
    match shape {
        FieldShape::Unit => Err(Fault::NoFields),
        FieldShape::Positional(fields) => {
            if fields.len() == 0 {
                Err(Fault::NoFields)
            } else {
                Ok(ResolvedTarget { field: FieldRef::Index(0), ty: fields[0].ty.clone() })
            }
        },
        FieldShape::Named(fields) => {
            if fields.len() == 0 {
                Err(Fault::NoFields)
            } else if flavor == Flavor::Convenience && fields.len() == 1 {
                Ok(target_of_named(&fields[0]))
            } else {
                match find_marked(fields, kind.marker()) {
                    Some(position) => Ok(target_of_named(&fields[position])),
                    None => Err(Fault::MissingMarker),
                }
            }
        },
    }
}

/// Whether some field carries `marker`.
pub open spec fn some_marked(fields: Seq<NamedFieldView>, marker: Marker) -> bool {
    exists|i: int| 0 <= i < fields.len() && #[trigger] fields[i].markers.contains(marker)
}

/// Whether `position` is the first field, in declaration order, that carries
/// `marker`.
pub open spec fn is_first_marked(fields: Seq<NamedFieldView>, marker: Marker, position: int) -> bool {
    &&& 0 <= position < fields.len()
    &&& fields[position].markers.contains(marker)
    &&& forall|j: int| 0 <= j < position ==> !(#[trigger] fields[j].markers.contains(marker))
}

/// A positional shape with at least one field exposes position 0 with the
/// first field's declared type, for either accessor and either flavor,
/// however many fields follow.
pub proof fn lemma_positional_selects_first(
    fields: Seq<PositionalFieldView>,
    kind: AccessorKind,
    flavor: Flavor,
)
    requires
        fields.len() >= 1,
    ensures
        resolve_spec(FieldShapeView::Positional(fields), kind, flavor) == Ok::<
            ResolvedTargetView,
            Fault,
        >(ResolvedTargetView { field: FieldRefView::Index(0), ty: fields[0].ty }),
{
}

/// Under the convenience flavor a named shape of exactly one field exposes
/// that field, whatever markers it carries.
pub proof fn lemma_single_field_convenience(fields: Seq<NamedFieldView>, kind: AccessorKind)
    requires
        fields.len() == 1,
    ensures
        resolve_spec(FieldShapeView::Named(fields), kind, Flavor::Convenience) == Ok::<
            ResolvedTargetView,
            Fault,
        >(named_target(fields[0])),
{
}

/// Under the strict flavor a named shape of exactly one field exposes that
/// field if it carries the accessor's marker, and otherwise fails for want of
/// a marker.
pub proof fn lemma_single_field_strict(fields: Seq<NamedFieldView>, kind: AccessorKind)
    requires
        fields.len() == 1,
    ensures
        resolve_spec(FieldShapeView::Named(fields), kind, Flavor::Strict) == (if fields[0].markers.contains(
            kind.marker(),
        ) {
            Ok::<ResolvedTargetView, Fault>(named_target(fields[0]))
        } else {
            Err::<ResolvedTargetView, Fault>(Fault::MissingMarker)
        }),
{
    assert(first_marked_from(fields, kind.marker(), 1) == None::<int>);
}

/// On a named shape of two or more fields, under either flavor, resolution
/// succeeds exactly when some field carries the accessor's marker, and its
/// only failure is the missing marker.
pub proof fn lemma_named_succeeds_iff_marked(
    fields: Seq<NamedFieldView>,
    kind: AccessorKind,
    flavor: Flavor,
)
    requires
        fields.len() >= 2,
    ensures
        resolve_spec(FieldShapeView::Named(fields), kind, flavor) is Ok <==> some_marked(
            fields,
            kind.marker(),
        ),
        !some_marked(fields, kind.marker()) ==> resolve_spec(
            FieldShapeView::Named(fields),
            kind,
            flavor,
        ) == Err::<ResolvedTargetView, Fault>(Fault::MissingMarker),
{
    lemma_first_marked_from(fields, kind.marker(), 0);
}

/// On a named shape of two or more fields, under either flavor, the first
/// field in declaration order that carries the accessor's marker is the
/// target, whether or not later fields carry the marker too.
pub proof fn lemma_first_marked_wins(
    fields: Seq<NamedFieldView>,
    kind: AccessorKind,
    flavor: Flavor,
    position: int,
)
    requires
        fields.len() >= 2,
        is_first_marked(fields, kind.marker(), position),
    ensures
        resolve_spec(FieldShapeView::Named(fields), kind, flavor) == Ok::<ResolvedTargetView, Fault>(
            named_target(fields[position]),
        ),
{
    lemma_skip_unmarked(fields, kind.marker(), position);
}

/// On a named shape of two or more fields in which exactly one field carries
/// the accessor's marker, that field is the target.
pub proof fn lemma_only_marked_wins(
    fields: Seq<NamedFieldView>,
    kind: AccessorKind,
    flavor: Flavor,
    position: int,
)
    requires
        fields.len() >= 2,
        0 <= position < fields.len(),
        forall|j: int|
            0 <= j < fields.len() ==> (#[trigger] fields[j].markers.contains(kind.marker()) <==> j
                == position),
    ensures
        resolve_spec(FieldShapeView::Named(fields), kind, flavor) == Ok::<ResolvedTargetView, Fault>(
            named_target(fields[position]),
        ),
{
    lemma_first_marked_wins(fields, kind, flavor, position);
}

/// The two accessors are resolved independently: where field `a` is the first
/// to carry the read marker and another field `b` is the first to carry the
/// mutable marker, the read-only accessor exposes `a` and the mutable accessor
/// exposes `b`.
pub proof fn lemma_accessors_independent(
    fields: Seq<NamedFieldView>,
    flavor: Flavor,
    a: int,
    b: int,
)
    requires
        a != b,
        is_first_marked(fields, Marker::ReadTarget, a),
        is_first_marked(fields, Marker::MutTarget, b),
    ensures
        resolve_spec(FieldShapeView::Named(fields), AccessorKind::ReadOnly, flavor) == Ok::<
            ResolvedTargetView,
            Fault,
        >(named_target(fields[a])),
        resolve_spec(FieldShapeView::Named(fields), AccessorKind::Mutable, flavor) == Ok::<
            ResolvedTargetView,
            Fault,
        >(named_target(fields[b])),
{
    lemma_first_marked_wins(fields, AccessorKind::ReadOnly, flavor, a);
    lemma_first_marked_wins(fields, AccessorKind::Mutable, flavor, b);
}

/// A shape without fields has no target, for either accessor and either
/// flavor, and the failure is of the invalid-shape kind.
pub proof fn lemma_no_fields_no_target(shape: FieldShapeView, kind: AccessorKind, flavor: Flavor)
    requires
        shape.field_count() == 0,
    ensures
        resolve_spec(shape, kind, flavor) == Err::<ResolvedTargetView, Fault>(Fault::NoFields),
        Fault::NoFields.kind() == ErrorKind::InvalidShape,
{
}

/// Resolution either selects one field of the shape or fails: on a
/// well-formed shape the target is one of the shape's own fields, with that
/// field's declared type.
pub proof fn lemma_target_is_a_field(shape: FieldShapeView, kind: AccessorKind, flavor: Flavor)
    ensures
        match resolve_spec(shape, kind, flavor) {
            Ok(target) => match shape {
                FieldShapeView::Positional(fields) => fields.len() >= 1 && target == leading_target(
                    fields[0],
                ),
                FieldShapeView::Named(fields) => exists|i: int|
                    0 <= i < fields.len() && target == named_target(#[trigger] fields[i]),
                FieldShapeView::Unit => false,
            },
            Err(fault) => fault == Fault::NoFields || fault == Fault::MissingMarker,
        },
{
    if let FieldShapeView::Named(fields) = shape {
        lemma_first_marked_from(fields, kind.marker(), 0);
    }
}

} // verus!
