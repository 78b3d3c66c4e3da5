//! The structural description of a type definition, as plain values.

use vstd::prelude::*;
use vstd::string::StringExecFns;

verus! {

/// An explicit annotation on a named field: the field is a candidate target of
/// the read-only accessor, or of the mutable accessor.
#[derive(Clone, Copy, Debug, PartialEq, Eq, Structural)]
pub enum Marker {
    ReadTarget,
    MutTarget,
}

/// Which accessor is being generated.
#[derive(Clone, Copy, Debug, PartialEq, Eq, Structural)]
pub enum AccessorKind {
    ReadOnly,
    Mutable,
}

/// The two generator flavors. They differ only in whether a named record with a
/// single field may omit its marker.
#[derive(Clone, Copy, Debug, PartialEq, Eq, Structural)]
pub enum Flavor {
    Strict,
    Convenience,
}

impl Marker {
    /// The spelling of the attribute that attaches this marker to a field.
    pub open spec fn spelling(self) -> Seq<char> {
        match self {
            Marker::ReadTarget => "DerefTarget"@,
            Marker::MutTarget => "DerefMutTarget"@,
        }
    }

    /// The attribute name under which this marker is written in source text.
    pub fn attribute_name(self) -> (name: &'static str)
        ensures
            name@ == self.spelling(),
    {
        match self {
            Marker::ReadTarget => "DerefTarget",
            Marker::MutTarget => "DerefMutTarget",
        }
    }

    /// The marker that an attribute of the name `name` attaches, if it
    /// attaches one: names outside the marker vocabulary attach none.
    pub fn from_attribute_name(name: &str) -> (marker: Option<Marker>)
        ensures
            forall|m: Marker| marker == Some(m) <==> name@ == m.spelling(),
    {
        proof {
            lemma_spellings_differ();
        }
        if same_text(name, Marker::ReadTarget.attribute_name()) {
            Some(Marker::ReadTarget)
        } else if same_text(name, Marker::MutTarget.attribute_name()) {
            Some(Marker::MutTarget)
        } else {
            None
        }
    }
}

/// Whether the texts `name` and `word` are the same.
fn same_text(name: &str, word: &str) -> (same: bool)
    ensures
        same == (name@ == word@),
{
    let left = String::from_str(name);
    let right = String::from_str(word);
    left.eq(&right)
}

/// The two markers are spelled differently.
pub proof fn lemma_spellings_differ()
    ensures
        Marker::ReadTarget.spelling() != Marker::MutTarget.spelling(),
{
    reveal_strlit("DerefTarget");
    reveal_strlit("DerefMutTarget");
    assert(Marker::ReadTarget.spelling().len() == 11);
    assert(Marker::MutTarget.spelling().len() == 14);
}

impl AccessorKind {
    /// The marker that selects a field for this accessor.
    pub open spec fn spec_marker(self) -> Marker {
        match self {
            AccessorKind::ReadOnly => Marker::ReadTarget,
            AccessorKind::Mutable => Marker::MutTarget,
        }
    }

    /// The marker that selects a field for this accessor.
    #[verifier::when_used_as_spec(spec_marker)]
    pub fn marker(self) -> (m: Marker)
        ensures
            m == self.spec_marker(),
    {
        match self {
            AccessorKind::ReadOnly => Marker::ReadTarget,
            AccessorKind::Mutable => Marker::MutTarget,
        }
    }
}

/// The markers attached to one field: none, one, or both.
#[derive(Clone, Copy, Debug, PartialEq, Eq, Structural)]
pub struct MarkerSet {
    pub read_target: bool,
    pub mut_target: bool,
}

impl MarkerSet {
    /// Membership of a marker in the set.
    pub open spec fn spec_contains(self, marker: Marker) -> bool {
        match marker {
            Marker::ReadTarget => self.read_target,
            Marker::MutTarget => self.mut_target,
        }
    }

    /// The set as a mathematical set of markers.
    pub open spec fn members(self) -> Set<Marker> {
        Set::new(|m: Marker| self.spec_contains(m))
    }

    /// The set that holds no marker.
    pub fn empty() -> (s: MarkerSet)
        ensures
            forall|m: Marker| !s.spec_contains(m),
            s.members() =~= Set::<Marker>::empty(),
    {
        MarkerSet { read_target: false, mut_target: false }
    }

    /// The set with `marker` added; adding a marker twice changes nothing.
    pub fn with(self, marker: Marker) -> (s: MarkerSet)
        ensures
            forall|m: Marker| s.spec_contains(m) == (m == marker || self.spec_contains(m)),
            s.members() =~= self.members().insert(marker),
    {
        match marker {
            Marker::ReadTarget => MarkerSet { read_target: true, mut_target: self.mut_target },
            Marker::MutTarget => MarkerSet { read_target: self.read_target, mut_target: true },
        }
    }

    /// The markers that a field's attributes attach: the set holds a marker
    /// exactly when one of the attribute names is that marker's spelling.
    pub fn from_attribute_names(names: &Vec<String>) -> (s: MarkerSet)
        ensures
            forall|m: Marker|
                s.spec_contains(m) <==> exists|i: int|
                    0 <= i < names.len() && (#[trigger] names[i])@ == m.spelling(),
    {
        let mut found = MarkerSet::empty();
        let mut position: usize = 0;
        while position < names.len()
            invariant
                0 <= position <= names.len(),
                forall|m: Marker|
                    found.spec_contains(m) <==> exists|i: int|
                        0 <= i < position && (#[trigger] names[i])@ == m.spelling(),
            decreases names.len() - position,
        {
            let ghost before = found;
            match Marker::from_attribute_name(names[position].as_str()) {
                Some(marker) => {
                    found = found.with(marker);
                },
                None => {},
            }
            proof {
                assert forall|m: Marker|
                    found.spec_contains(m) <==> exists|i: int|
                        0 <= i < position + 1 && (#[trigger] names[i])@ == m.spelling() by {
                    if found.spec_contains(m) {
                        if before.spec_contains(m) {
                            let i = choose|i: int|
                                0 <= i < position && (#[trigger] names[i])@ == m.spelling();
                            assert(0 <= i < position + 1 && names[i]@ == m.spelling());
                        } else {
                            assert(names[position as int]@ == m.spelling());
                        }
                    }
                    if exists|i: int|
                        0 <= i < position + 1 && (#[trigger] names[i])@ == m.spelling() {
                        let i = choose|i: int|
                            0 <= i < position + 1 && (#[trigger] names[i])@ == m.spelling();
                        if i < position {
                            assert(before.spec_contains(m));
                        }
                    }
                }
            }
            position += 1;
        }
        found
    }

    /// Whether the set holds `marker`.
    #[verifier::when_used_as_spec(spec_contains)]
    pub fn contains(self, marker: Marker) -> (b: bool)
        ensures
            b == self.spec_contains(marker),
    {
        match marker {
            Marker::ReadTarget => self.read_target,
            Marker::MutTarget => self.mut_target,
        }
    }
}

/// A field identified by name.
#[derive(Clone, Debug, PartialEq, Eq)]
pub struct NamedField {
    /// The field's identifier.
    pub ident: String,
    /// The field's declared type, as written.
    pub ty: String,
    /// The markers attached to the field.
    pub markers: MarkerSet,
}

/// The mathematical model of a `NamedField`.
pub ghost struct NamedFieldView {
    pub ident: Seq<char>,
    pub ty: Seq<char>,
    pub markers: MarkerSet,
}

impl View for NamedField {
    type V = NamedFieldView;

    open spec fn view(&self) -> NamedFieldView {
        NamedFieldView { ident: self.ident@, ty: self.ty@, markers: self.markers }
    }
}

/// A field identified by its position. Positional fields carry no markers.
#[derive(Clone, Debug, PartialEq, Eq)]
pub struct PositionalField {
    /// The field's declared type, as written.
    pub ty: String,
}

/// The mathematical model of a `PositionalField`.
pub ghost struct PositionalFieldView {
    pub ty: Seq<char>,
}

impl View for PositionalField {
    type V = PositionalFieldView;

    open spec fn view(&self) -> PositionalFieldView {
        PositionalFieldView { ty: self.ty@ }
    }
}

/// The models of a sequence of named fields, in declaration order.
pub open spec fn named_views(fields: Seq<NamedField>) -> Seq<NamedFieldView> {
    Seq::new(fields.len(), |i: int| fields[i]@)
}

/// The models of a sequence of positional fields, in declaration order.
pub open spec fn positional_views(fields: Seq<PositionalField>) -> Seq<PositionalFieldView> {
    Seq::new(fields.len(), |i: int| fields[i]@)
}

/// What a type definition consists of.
#[derive(Clone, Debug, PartialEq, Eq)]
pub enum TypeBody {
    /// A record whose fields are written with identifiers, in declaration order.
    NamedRecord(Vec<NamedField>),
    /// A record whose fields are written by position only.
    PositionalRecord(Vec<PositionalField>),
    /// A record written without a field list.
    UnitRecord,
    /// A sum type.
    Enumeration,
    /// An untagged union.
    Union,
}

/// The mathematical model of a `TypeBody`.
pub ghost enum TypeBodyView {
    NamedRecord(Seq<NamedFieldView>),
    PositionalRecord(Seq<PositionalFieldView>),
    UnitRecord,
    Enumeration,
    Union,
}

impl View for TypeBody {
    type V = TypeBodyView;

    open spec fn view(&self) -> TypeBodyView {
        match self {
            TypeBody::NamedRecord(fields) => TypeBodyView::NamedRecord(named_views(fields@)),
            TypeBody::PositionalRecord(fields) => TypeBodyView::PositionalRecord(
                positional_views(fields@),
            ),
            TypeBody::UnitRecord => TypeBodyView::UnitRecord,
            TypeBody::Enumeration => TypeBodyView::Enumeration,
            TypeBody::Union => TypeBodyView::Union,
        }
    }
}

/// One type definition: its name, its generic and lifetime parameters as
/// written, and its body.
#[derive(Clone, Debug, PartialEq, Eq)]
pub struct TypeDefinition {
    /// The type's name.
    pub name: String,
    /// The generic and lifetime parameter list, as written, angle brackets
    /// included; empty for a type without parameters.
    pub generics: String,
    /// The fields, or the kind of a type that is no record.
    pub body: TypeBody,
}

/// The mathematical model of a `TypeDefinition`.
pub ghost struct TypeDefinitionView {
    pub name: Seq<char>,
    pub generics: Seq<char>,
    pub body: TypeBodyView,
}

impl View for TypeDefinition {
    type V = TypeDefinitionView;

    open spec fn view(&self) -> TypeDefinitionView {
        TypeDefinitionView { name: self.name@, generics: self.generics@, body: self.body@ }
    }
}

} // verus!
