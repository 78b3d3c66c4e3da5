//! Construction of the implementation block for a resolved target.

use crate::model::AccessorKind;
use crate::resolve::{FieldRef, FieldRefView, ResolvedTarget, ResolvedTargetView};
use vstd::prelude::*;
use vstd::string::StringExecFns;

verus! {

/// One synthesized implementation block: the accessor of `subject`, generic
/// over `generics`, that exposes `field` as a value of type `target_type`.
#[derive(Clone, Debug, PartialEq, Eq)]
pub struct OutputFragment {
    /// Whether the block is the read-only or the mutable accessor.
    pub accessor: AccessorKind,
    /// The name of the type that the block is attached to.
    pub subject: String,
    /// The type's generic and lifetime parameter list, as written.
    pub generics: String,
    /// The declared type of the exposed field, as written.
    pub target_type: String,
    /// The exposed field.
    pub field: FieldRef,
}

/// The mathematical model of an `OutputFragment`.
pub ghost struct OutputFragmentView {
    pub accessor: AccessorKind,
    pub subject: Seq<char>,
    pub generics: Seq<char>,
    pub target_type: Seq<char>,
    pub field: FieldRefView,
}

impl View for OutputFragment {
    type V = OutputFragmentView;

    open spec fn view(&self) -> OutputFragmentView {
        OutputFragmentView {
            accessor: self.accessor,
            subject: self.subject@,
            generics: self.generics@,
            target_type: self.target_type@,
            field: self.field@,
        }
    }
}

/// The block that exposes `target` on the type `subject` with parameters
/// `generics`: name, parameters, field and declared type are taken over as
/// they are.
pub open spec fn synthesize_spec(
    subject: Seq<char>,
    generics: Seq<char>,
    target: ResolvedTargetView,
    kind: AccessorKind,
) -> OutputFragmentView {
    OutputFragmentView {
        accessor: kind,
        subject,
        generics,
        target_type: target.ty,
        field: target.field,
    }
}

/// Builds the implementation block of the accessor `kind` for `target`.
/// This cannot fail: every target has its block.
pub fn synthesize(subject: &str, generics: &str, target: ResolvedTarget, kind: AccessorKind) -> (fragment:
    OutputFragment)
    ensures
        fragment@ == synthesize_spec(subject@, generics@, target@, kind),
        fragment@.target_type == target@.ty,
        fragment@.generics == generics@,
{
    OutputFragment {
        accessor: kind,
        subject: String::from_str(subject),
        generics: String::from_str(generics),
        target_type: target.ty,
        field: target.field,
    }
}

/// The decimal digit for a number below ten.
pub open spec fn digit_char(digit: nat) -> char {
    if digit == 0 {
        '0'
    } else if digit == 1 {
        '1'
    } else if digit == 2 {
        '2'
    } else if digit == 3 {
        '3'
    } else if digit == 4 {
        '4'
    } else if digit == 5 {
        '5'
    } else if digit == 6 {
        '6'
    } else if digit == 7 {
        '7'
    } else if digit == 8 {
        '8'
    } else {
        '9'
    }
}

/// A number in decimal notation, without leading zeros.
pub open spec fn decimal_text(n: nat) -> Seq<char>
    decreases n,
{
    if n < 10 {
        seq![digit_char(n)]
    } else {
        decimal_text(n / 10) + seq![digit_char(n % 10)]
    }
}

/// The text of one decimal digit.
fn digit_text(digit: usize) -> (text: &'static str)
    requires
        digit < 10,
    ensures
        text@ == seq![digit_char(digit as nat)],
{
    proof {
        reveal_strlit("0");
        reveal_strlit("1");
        reveal_strlit("2");
        reveal_strlit("3");
        reveal_strlit("4");
        reveal_strlit("5");
        reveal_strlit("6");
        reveal_strlit("7");
        reveal_strlit("8");
        reveal_strlit("9");
    }
    let text: &'static str = match digit {
        0 => "0",
        1 => "1",
        2 => "2",
        3 => "3",
        4 => "4",
        5 => "5",
        6 => "6",
        7 => "7",
        8 => "8",
        _ => "9",
    };
    assert(text@ =~= seq![digit_char(digit as nat)]);
    text
}

/// Writes `n` in decimal notation.
pub fn decimal(n: usize) -> (text: String)
    ensures
        text@ == decimal_text(n as nat),
    decreases n,
{
    if n < 10 {
        String::from_str(digit_text(n))
    } else {
        let mut text = decimal(n / 10);
        text.append(digit_text(n % 10));
        text
    }
}

/// How a field is written behind `self.`: its position in decimal, or its
/// identifier.
pub open spec fn field_text(field: FieldRefView) -> Seq<char> {
    match field {
        FieldRefView::Index(position) => decimal_text(position),
        FieldRefView::Ident(ident) => ident,
    }
}

/// The path of the trait that the accessor implements.
pub open spec fn trait_text(kind: AccessorKind) -> Seq<char> {
    match kind {
        AccessorKind::ReadOnly => " std::ops::Deref for "@,
        AccessorKind::Mutable => " std::ops::DerefMut for "@,
    }
}

/// The header of the block: the parameter list behind `impl`, the trait, the
/// type's name, and the parameter list once more behind the name.
pub open spec fn header_text(fragment: OutputFragmentView) -> Seq<char> {
    "impl"@ + fragment.generics + trait_text(fragment.accessor) + fragment.subject
        + fragment.generics
}

/// The body of the block. The read-only accessor declares the target type
/// and borrows the field; the mutable accessor borrows the field mutably and
/// relies on the target type that the read-only accessor declares.
pub open spec fn body_text(fragment: OutputFragmentView) -> Seq<char> {
    match fragment.accessor {
        AccessorKind::ReadOnly => " { type Target = "@ + fragment.target_type
            + "; fn deref(&self) -> &Self::Target { &self."@ + field_text(fragment.field)
            + " } }"@,
        AccessorKind::Mutable => " { fn deref_mut(&mut self) -> &mut Self::Target { &mut self."@
            + field_text(fragment.field) + " } }"@,
    }
}

/// The whole block as source text.
pub open spec fn render_text(fragment: OutputFragmentView) -> Seq<char> {
    header_text(fragment) + body_text(fragment)
}

impl FieldRef {
    /// The field as it is written behind `self.`.
    pub fn text(&self) -> (text: String)
        ensures
            text@ == field_text(self@),
    {
        match self {
            FieldRef::Index(position) => decimal(*position),
            FieldRef::Ident(ident) => ident.clone(),
        }
    }
}

impl OutputFragment {
    /// The header of the block, up to its opening brace.
    pub fn header(&self) -> (text: String)
        ensures
            text@ == header_text(self@),
    {
        let mut text = String::from_str("impl");
        text.append(self.generics.as_str());
        match self.accessor {
            AccessorKind::ReadOnly => text.append(" std::ops::Deref for "),
            AccessorKind::Mutable => text.append(" std::ops::DerefMut for "),
        }
        text.append(self.subject.as_str());
        text.append(self.generics.as_str());
        text
    }

    /// The body of the block, braces included.
    pub fn body(&self) -> (text: String)
        ensures
            text@ == body_text(self@),
    {
        let field = self.field.text();
        match self.accessor {
            AccessorKind::ReadOnly => {
                let mut text = String::from_str(" { type Target = ");
                text.append(self.target_type.as_str());
                text.append("; fn deref(&self) -> &Self::Target { &self.");
                text.append(field.as_str());
                text.append(" } }");
                text
            },
            AccessorKind::Mutable => {
                let mut text = String::from_str(
                    " { fn deref_mut(&mut self) -> &mut Self::Target { &mut self.",
                );
                text.append(field.as_str());
                text.append(" } }");
                text
            },
        }
    }

    /// The block as source text: the header, then the body.
    pub fn render(&self) -> (text: String)
        ensures
            text@ == render_text(self@),
    {
        let mut text = self.header();
        let body = self.body();
        text.append(body.as_str());
        text
    }
}

/// The rendered block begins with its header.
pub proof fn lemma_render_begins_with_header(fragment: OutputFragmentView)
    ensures
        header_text(fragment).is_prefix_of(render_text(fragment)),
{
    let header = header_text(fragment);
    let whole = render_text(fragment);
    assert(whole.subrange(0, header.len() as int) =~= header);
}

/// The header holds the parameter list as written, twice: directly behind
/// `impl`, and at its end behind the type's name.
pub proof fn lemma_header_holds_generics(fragment: OutputFragmentView)
    ensures
        header_text(fragment).len() >= 4 + fragment.generics.len(),
        header_text(fragment).subrange(4, 4 + fragment.generics.len() as int) == fragment.generics,
        header_text(fragment).subrange(
            header_text(fragment).len() - fragment.generics.len(),
            header_text(fragment).len() as int,
        ) == fragment.generics,
{
    reveal_strlit("impl");
    let header = header_text(fragment);
    assert(header.subrange(4, 4 + fragment.generics.len() as int) =~= fragment.generics);
    assert(header.subrange(header.len() - fragment.generics.len(), header.len() as int)
        =~= fragment.generics);
}

/// The read-only block declares the target type as written: its body begins
/// with the declaration of exactly that type.
pub proof fn lemma_body_declares_target(fragment: OutputFragmentView)
    requires
        fragment.accessor == AccessorKind::ReadOnly,
    ensures
        (" { type Target = "@ + fragment.target_type).is_prefix_of(body_text(fragment)),
{
    let start = " { type Target = "@ + fragment.target_type;
    assert(body_text(fragment).subrange(0, start.len() as int) =~= start);
}

} // verus!
