//! Wrapper types whose accessors are written exactly as the generator renders
//! them: each test generates the block, compares its text, and then uses the
//! accessor.

use quote::ToTokens;
use small_derive_deref::{
    derive_deref, derive_deref_mut, FieldRef, Marker, MarkerSet, NamedField, PositionalField,
    TypeBody, TypeDefinition,
};
use std::ops::DerefMut;

fn text_of<T: ToTokens>(node: &T) -> String {
    node.to_token_stream().to_string()
}

fn named_field(field: &syn::Field) -> NamedField {
    let names: Vec<String> = field
        .attrs
        .iter()
        .filter_map(|attribute| attribute.path().get_ident().map(|ident| ident.to_string()))
        .collect();
    NamedField {
        ident: field.ident.as_ref().map(|ident| ident.to_string()).unwrap_or_default(),
        ty: text_of(&field.ty),
        markers: MarkerSet::from_attribute_names(&names),
    }
}

/// Parses the source of one type definition and writes it as the generator's
/// description.
fn definition_of(source: &str) -> TypeDefinition {
    let input = syn::parse_str::<syn::DeriveInput>(source).unwrap();
    let body = match &input.data {
        syn::Data::Struct(data) => match &data.fields {
            syn::Fields::Named(fields) => {
                TypeBody::NamedRecord(fields.named.iter().map(named_field).collect())
            }
            syn::Fields::Unnamed(fields) => TypeBody::PositionalRecord(
                fields.unnamed.iter().map(|f| PositionalField { ty: text_of(&f.ty) }).collect(),
            ),
            syn::Fields::Unit => TypeBody::UnitRecord,
        },
        syn::Data::Enum(_) => TypeBody::Enumeration,
        syn::Data::Union(_) => TypeBody::Union,
    };
    TypeDefinition { name: input.ident.to_string(), generics: text_of(&input.generics), body }
}

fn flatten(stream: proc_macro2::TokenStream, leaves: &mut Vec<String>) {
    for tree in stream {
        match tree {
            proc_macro2::TokenTree::Group(group) => {
                leaves.push(format!("{:?}", group.delimiter()));
                flatten(group.stream(), leaves);
                leaves.push("end".to_string());
            }
            proc_macro2::TokenTree::Punct(punct) => leaves.push(punct.as_char().to_string()),
            other => leaves.push(other.to_string()),
        }
    }
}

/// The tokens that a text spells, one by one, whatever the spacing.
fn tokens(text: &str) -> Vec<String> {
    let mut leaves = Vec::new();
    flatten(text.parse::<proc_macro2::TokenStream>().unwrap(), &mut leaves);
    leaves
}

struct TupleDeref(i32);

impl std::ops::Deref for TupleDeref { type Target = i32; fn deref(&self) -> &Self::Target { &self.0 } }

#[test]
fn tuple_deref() {
    let block = derive_deref(&definition_of("struct TupleDeref(i32);")).unwrap();
    assert_eq!(block.field, FieldRef::Index(0));
    assert_eq!(block.target_type, "i32");
    assert_eq!(
        tokens(&block.render()),
        tokens("impl std::ops::Deref for TupleDeref { type Target = i32; fn deref(&self) -> &Self::Target { &self.0 } }")
    );

    let w = TupleDeref(1);
    assert_eq!(*w, 1);
}

struct TupleDerefMut(i32);

impl std::ops::Deref for TupleDerefMut { type Target = i32; fn deref(&self) -> &Self::Target { &self.0 } }
impl std::ops::DerefMut for TupleDerefMut { fn deref_mut(&mut self) -> &mut Self::Target { &mut self.0 } }

#[test]
fn tuple_deref_mut() {
    let definition = definition_of("struct TupleDerefMut(i32);");
    assert_eq!(
        tokens(&derive_deref(&definition).unwrap().render()),
        tokens("impl std::ops::Deref for TupleDerefMut { type Target = i32; fn deref(&self) -> &Self::Target { &self.0 } }")
    );
    assert_eq!(
        tokens(&derive_deref_mut(&definition).unwrap().render()),
        tokens("impl std::ops::DerefMut for TupleDerefMut { fn deref_mut(&mut self) -> &mut Self::Target { &mut self.0 } }")
    );

    let mut w = TupleDerefMut(1);
    *w *= 2;
    assert_eq!(*w, 2);
}

struct TupleMultipleFields(i32, i32);

impl std::ops::Deref for TupleMultipleFields { type Target = i32; fn deref(&self) -> &Self::Target { &self.0 } }
impl std::ops::DerefMut for TupleMultipleFields { fn deref_mut(&mut self) -> &mut Self::Target { &mut self.0 } }

#[test]
fn tuple_multiple_fields() {
    let definition = definition_of("struct TupleMultipleFields(i32, i32);");
    let read = derive_deref(&definition).unwrap();
    let write = derive_deref_mut(&definition).unwrap();
    assert_eq!(read.field, FieldRef::Index(0));
    assert_eq!(write.field, FieldRef::Index(0));
    assert_eq!(
        tokens(&read.render()),
        tokens("impl std::ops::Deref for TupleMultipleFields { type Target = i32; fn deref(&self) -> &Self::Target { &self.0 } }")
    );
    assert_eq!(
        tokens(&write.render()),
        tokens("impl std::ops::DerefMut for TupleMultipleFields { fn deref_mut(&mut self) -> &mut Self::Target { &mut self.0 } }")
    );

    let mut w = TupleMultipleFields(1, 3);
    *w *= 2;
    assert_eq!(*w, 2);
    assert_eq!(*w.deref_mut(), 2);
    assert_eq!(w.1, 3);
}

struct StructDeref {
    field: i32,
}

impl std::ops::Deref for StructDeref { type Target = i32; fn deref(&self) -> &Self::Target { &self.field } }

#[test]
fn struct_deref() {
    let definition = definition_of("struct StructDeref { #[DerefTarget] field: i32, }");
    let block = derive_deref(&definition).unwrap();
    assert_eq!(block.field, FieldRef::Ident("field".to_string()));
    assert_eq!(
        tokens(&block.render()),
        tokens("impl std::ops::Deref for StructDeref { type Target = i32; fn deref(&self) -> &Self::Target { &self.field } }")
    );

    let w = StructDeref { field: 1 };
    assert_eq!(*w, 1);
}

struct StructDiff {
    field: i32,
}

impl std::ops::Deref for StructDiff { type Target = i32; fn deref(&self) -> &Self::Target { &self.field } }
impl std::ops::DerefMut for StructDiff { fn deref_mut(&mut self) -> &mut Self::Target { &mut self.field } }

#[test]
fn struct_deref_mut() {
    let definition = definition_of(
        "struct StructDiff { #[DerefTarget] #[DerefMutTarget] field: i32, }",
    );
    assert_eq!(
        tokens(&derive_deref(&definition).unwrap().render()),
        tokens("impl std::ops::Deref for StructDiff { type Target = i32; fn deref(&self) -> &Self::Target { &self.field } }")
    );
    assert_eq!(
        tokens(&derive_deref_mut(&definition).unwrap().render()),
        tokens("impl std::ops::DerefMut for StructDiff { fn deref_mut(&mut self) -> &mut Self::Target { &mut self.field } }")
    );

    let mut w = StructDiff { field: 1 };
    *w *= 2;
    assert_eq!(*w.deref_mut(), 2);
}

struct StructDifferentTargets {
    field: i32,
    field_mut: i32,
}

impl std::ops::Deref for StructDifferentTargets { type Target = i32; fn deref(&self) -> &Self::Target { &self.field } }
impl std::ops::DerefMut for StructDifferentTargets { fn deref_mut(&mut self) -> &mut Self::Target { &mut self.field_mut } }

#[test]
fn struct_deref_mut_different_targets() {
    let definition = definition_of(
        "struct StructDifferentTargets { #[DerefTarget] field: i32, #[DerefMutTarget] field_mut: i32, }",
    );
    let read = derive_deref(&definition).unwrap();
    let write = derive_deref_mut(&definition).unwrap();
    assert_eq!(read.field, FieldRef::Ident("field".to_string()));
    assert_eq!(write.field, FieldRef::Ident("field_mut".to_string()));
    assert_eq!(
        tokens(&read.render()),
        tokens("impl std::ops::Deref for StructDifferentTargets { type Target = i32; fn deref(&self) -> &Self::Target { &self.field } }")
    );
    assert_eq!(
        tokens(&write.render()),
        tokens("impl std::ops::DerefMut for StructDifferentTargets { fn deref_mut(&mut self) -> &mut Self::Target { &mut self.field_mut } }")
    );

    let mut w = StructDifferentTargets { field: 1, field_mut: 2 };
    *w *= 2;
    assert_eq!(*w, 1);
    assert_eq!(*w.deref_mut(), 4);
}

struct TupleWithGenericsDeref<'a>(&'a str);

impl<'a> std::ops::Deref for TupleWithGenericsDeref<'a> { type Target = &'a str; fn deref(&self) -> &Self::Target { &self.0 } }

#[test]
fn tuple_generics_deref() {
    let block = derive_deref(&definition_of("struct TupleWithGenericsDeref<'a>(&'a str);")).unwrap();
    assert_eq!(tokens(&block.generics), tokens("<'a>"));
    assert_eq!(tokens(&block.target_type), tokens("&'a str"));
    assert_eq!(
        tokens(&block.render()),
        tokens("impl<'a> std::ops::Deref for TupleWithGenericsDeref<'a> { type Target = &'a str; fn deref(&self) -> &Self::Target { &self.0 } }")
    );

    let w = TupleWithGenericsDeref("string");
    assert_eq!("string", *w);
}

struct TupleWithGenericsDerefMut<'a>(&'a str);

impl<'a> std::ops::Deref for TupleWithGenericsDerefMut<'a> { type Target = &'a str; fn deref(&self) -> &Self::Target { &self.0 } }
impl<'a> std::ops::DerefMut for TupleWithGenericsDerefMut<'a> { fn deref_mut(&mut self) -> &mut Self::Target { &mut self.0 } }

#[test]
fn tuple_generics_deref_mut() {
    let definition = definition_of("struct TupleWithGenericsDerefMut<'a>(&'a str);");
    assert_eq!(
        tokens(&derive_deref(&definition).unwrap().render()),
        tokens("impl<'a> std::ops::Deref for TupleWithGenericsDerefMut<'a> { type Target = &'a str; fn deref(&self) -> &Self::Target { &self.0 } }")
    );
    assert_eq!(
        tokens(&derive_deref_mut(&definition).unwrap().render()),
        tokens("impl<'a> std::ops::DerefMut for TupleWithGenericsDerefMut<'a> { fn deref_mut(&mut self) -> &mut Self::Target { &mut self.0 } }")
    );

    let mut w = TupleWithGenericsDerefMut("string");
    *w = "other";
    assert_eq!("other", *w);
}

#[test]
fn parsed_definitions_are_what_they_spell() {
    assert_eq!(
        definition_of("struct StructDifferentTargets { #[DerefTarget] field: i32, #[DerefMutTarget] field_mut: i32, }"),
        TypeDefinition {
            name: "StructDifferentTargets".to_string(),
            generics: String::new(),
            body: TypeBody::NamedRecord(vec![
                NamedField {
                    ident: "field".to_string(),
                    ty: "i32".to_string(),
                    markers: MarkerSet::empty().with(Marker::ReadTarget),
                },
                NamedField {
                    ident: "field_mut".to_string(),
                    ty: "i32".to_string(),
                    markers: MarkerSet::empty().with(Marker::MutTarget),
                },
            ]),
        }
    );
    assert_eq!(
        definition_of("struct TupleMultipleFields(i32, i32);").body,
        TypeBody::PositionalRecord(vec![
            PositionalField { ty: "i32".to_string() },
            PositionalField { ty: "i32".to_string() },
        ])
    );
    assert_eq!(definition_of("struct Nothing;").body, TypeBody::UnitRecord);
    assert_eq!(definition_of("enum Either { Left, Right }").body, TypeBody::Enumeration);
    assert_eq!(definition_of("union Bits { word: u32, half: u16 }").body, TypeBody::Union);
}

#[test]
fn sources_that_are_no_usable_records_are_refused() {
    assert_eq!(
        derive_deref(&definition_of("struct Nothing;")).unwrap_err().message(),
        "Deref not implemented for unit structs"
    );
    assert_eq!(
        derive_deref_mut(&definition_of("enum Either { Left, Right }")).unwrap_err().message(),
        "DerefMut only implemented for structs"
    );
    assert_eq!(
        derive_deref(&definition_of("struct Two { a: u8, b: u8 }")).unwrap_err().message(),
        "No field with #[DerefTarget]"
    );
    assert_eq!(
        derive_deref_mut(&definition_of("struct Two { #[DerefTarget] a: u8, b: u8 }"))
            .unwrap_err()
            .message(),
        "No field marked with #[DerefMutTarget]"
    );
    assert!(derive_deref(&definition_of("struct One { a: u8 }")).is_ok());
}
