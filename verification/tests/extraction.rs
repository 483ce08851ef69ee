use std::cell::{Cell, RefCell};

use syn::{Attribute, DeriveInput, Error};
use thiserror_impl::ast::{
    Enum, ExtractionError, Field, Input, Member, Struct, Variant, UNSUPPORTED_KIND_MESSAGE,
};
use thiserror_impl::node::{DataKind, Declaration, FieldNode, VariantNode};

fn parse(source: &str) -> DeriveInput {
    syn::parse_str(source).unwrap()
}

/// The parsed set of a list, for these tests: the names of its annotations.
fn names(attrs: &[Attribute]) -> Vec<String> {
    attrs.iter().map(|attr| attr.path.get_ident().unwrap().to_string()).collect()
}

/// Accepts every list.
fn lenient(attrs: &[Attribute]) -> Result<Vec<String>, Error> {
    Ok(names(attrs))
}

/// Refuses a list that holds `#[bad]` or `#[worse]`, with the name of the
/// offender as its message.
fn strict(attrs: &[Attribute]) -> Result<Vec<String>, Error> {
    for attr in attrs {
        if attr.path.is_ident("bad") || attr.path.is_ident("worse") {
            let name = attr.path.get_ident().unwrap().to_string();
            return Err(Error::new_spanned(attr, name));
        }
    }
    Ok(names(attrs))
}

fn expect_struct<'a, A>(input: Input<'a, A>) -> Struct<'a, A> {
    match input {
        Input::Struct(model) => model,
        Input::Enum(_) => panic!("a struct was expected"),
    }
}

fn expect_enum<'a, A>(input: Input<'a, A>) -> Enum<'a, A> {
    match input {
        Input::Enum(model) => model,
        Input::Struct(_) => panic!("an enum was expected"),
    }
}

fn ok<T>(r: Result<T, Error>) -> T {
    match r {
        Ok(value) => value,
        Err(e) => panic!("unexpected error: {}", e),
    }
}

fn err<T>(r: Result<T, Error>) -> Error {
    match r {
        Ok(_) => panic!("an error was expected"),
        Err(e) => e,
    }
}

fn source_fields(source: &DeriveInput) -> Vec<&syn::Field> {
    match &source.data {
        syn::Data::Struct(data) => data.fields.iter().collect(),
        _ => panic!("a struct was expected"),
    }
}

fn source_variants(source: &DeriveInput) -> Vec<&syn::Variant> {
    match &source.data {
        syn::Data::Enum(data) => data.variants.iter().collect(),
        _ => panic!("an enum was expected"),
    }
}

#[test]
fn struct_with_named_fields() {
    let source = parse("struct Point { x: i32, y: i32 }");
    let model = expect_struct(ok(Input::from_syn(&source, &lenient)));
    assert_eq!(model.ident, "Point");
    assert!(model.attrs.is_empty());
    assert_eq!(model.fields.len(), 2);
    assert_eq!(model.fields[0].member, Member::Named(syn::parse_str("x").unwrap()));
    assert_eq!(model.fields[1].member, Member::Named(syn::parse_str("y").unwrap()));
}

#[test]
fn tuple_struct_with_one_field() {
    let source = parse("struct Wrapper(String);");
    let model = expect_struct(ok(Input::from_syn(&source, &lenient)));
    assert_eq!(model.ident, "Wrapper");
    assert_eq!(model.fields.len(), 1);
    assert_eq!(model.fields[0].member, Member::Unnamed(0));
}

#[test]
fn enum_with_three_kinds_of_variant() {
    let source = parse("enum E { A, B(i32), C { n: i32 } }");
    let model = expect_enum(ok(Input::from_syn(&source, &lenient)));
    assert_eq!(model.ident, "E");
    assert_eq!(model.variants.len(), 3);
    assert_eq!(model.variants[0].ident, "A");
    assert_eq!(model.variants[1].ident, "B");
    assert_eq!(model.variants[2].ident, "C");
    assert_eq!(model.variants[0].fields.len(), 0);
    assert_eq!(model.variants[1].fields.len(), 1);
    assert_eq!(model.variants[1].fields[0].member, Member::Unnamed(0));
    assert_eq!(model.variants[2].fields.len(), 1);
    assert_eq!(model.variants[2].fields[0].member, Member::Named(syn::parse_str("n").unwrap()));
}

#[test]
fn union_is_unsupported() {
    let source = parse("union U { a: u32, b: f32 }");
    let diagnostic = err(Input::from_syn(&source, &lenient));
    assert_eq!(diagnostic.to_string(), "union as errors are not supported");
    assert_eq!(UNSUPPORTED_KIND_MESSAGE, "union as errors are not supported");
}

#[test]
fn union_error_carries_the_declaration() {
    let source = parse("union U { a: u32 }");
    let node = Declaration::from_derive_input(&source);
    assert!(matches!(node.data, DataKind::Union));
    let calls = Cell::new(0);
    let counting = |attrs: &[Attribute]| {
        calls.set(calls.get() + 1);
        lenient(attrs)
    };
    match Input::from_declaration(&node, &counting) {
        Err(ExtractionError::UnsupportedKind(at)) => assert!(std::ptr::eq(at, &node)),
        _ => panic!("the kind should be unsupported"),
    }
    assert_eq!(calls.get(), 0);
}

#[test]
fn union_with_a_refusing_parser_is_still_unsupported() {
    let source = parse("#[bad] union U { #[bad] a: u32 }");
    let node = Declaration::from_derive_input(&source);
    assert!(matches!(
        Input::from_declaration(&node, &strict),
        Err(ExtractionError::UnsupportedKind(_))
    ));
}

#[test]
fn reading_keeps_what_syn_parsed() {
    let source = parse("#[a] #[b] struct S<T> { #[c] first: T, second: u8 }");
    let node = Declaration::from_derive_input(&source);
    assert!(std::ptr::eq(node.ident, &source.ident));
    assert!(std::ptr::eq(node.generics, &source.generics));
    assert!(std::ptr::eq(node.attrs, source.attrs.as_slice()));
    let declared = source_fields(&source);
    match &node.data {
        DataKind::Struct(fields) => {
            assert_eq!(fields.len(), 2);
            for (field, from) in fields.iter().zip(declared) {
                assert!(std::ptr::eq(field.attrs, from.attrs.as_slice()));
                assert!(std::ptr::eq(field.ident.unwrap(), from.ident.as_ref().unwrap()));
                assert!(std::ptr::eq(field.ty, &from.ty));
            }
        }
        _ => panic!("a struct was expected"),
    }
}

#[test]
fn reading_keeps_variants_in_order() {
    let source = parse("enum E { #[a] A(u8, u16), B, C { #[b] x: u8 } }");
    let node = Declaration::from_derive_input(&source);
    let declared = source_variants(&source);
    match &node.data {
        DataKind::Enum(variants) => {
            assert_eq!(variants.len(), 3);
            for (variant, from) in variants.iter().zip(declared) {
                assert!(std::ptr::eq(variant.ident, &from.ident));
                assert!(std::ptr::eq(variant.attrs, from.attrs.as_slice()));
                assert_eq!(variant.fields.len(), from.fields.len());
                for (field, inner) in variant.fields.iter().zip(from.fields.iter()) {
                    assert!(std::ptr::eq(field.ty, &inner.ty));
                    assert_eq!(field.ident.is_some(), inner.ident.is_some());
                }
            }
            assert_eq!(variants[0].fields.len(), 2);
            assert_eq!(variants[1].fields.len(), 0);
            assert_eq!(variants[2].fields.len(), 1);
        }
        _ => panic!("an enum was expected"),
    }
}

#[test]
fn types_and_generics_are_borrowed() {
    let source = parse("struct Pair<T, U>(T, U, Vec<T>);");
    let model = expect_struct(ok(Input::from_syn(&source, &lenient)));
    assert!(std::ptr::eq(model.generics, &source.generics));
    let declared = source_fields(&source);
    assert_eq!(model.fields.len(), declared.len());
    for (field, from) in model.fields.iter().zip(declared) {
        assert!(std::ptr::eq(field.ty, &from.ty));
    }
}

#[test]
fn order_and_count_are_preserved() {
    let source = parse("struct Wide { e: u8, d: u16, c: u32, b: u64, a: u128 }");
    let model = expect_struct(ok(Input::from_syn(&source, &lenient)));
    let declared = source_fields(&source);
    assert_eq!(model.fields.len(), 5);
    for (n, from) in declared.iter().enumerate() {
        assert_eq!(model.fields[n].member, Member::Named(from.ident.clone().unwrap()));
        assert!(std::ptr::eq(model.fields[n].ty, &from.ty));
    }
    let order: Vec<String> = model
        .fields
        .iter()
        .map(|field| match &field.member {
            Member::Named(name) => name.to_string(),
            Member::Unnamed(position) => position.to_string(),
        })
        .collect();
    assert_eq!(order, vec!["e", "d", "c", "b", "a"]);
}

#[test]
fn variant_order_is_preserved() {
    let source = parse("enum Z { Last, Middle(u8), First { x: u8 }, Again }");
    let model = expect_enum(ok(Input::from_syn(&source, &lenient)));
    let order: Vec<String> = model.variants.iter().map(|v| v.ident.to_string()).collect();
    assert_eq!(order, vec!["Last", "Middle", "First", "Again"]);
}

#[test]
fn tuple_positions_count_from_zero() {
    let source = parse("struct T(u8, u16, u32, u64);");
    let model = expect_struct(ok(Input::from_syn(&source, &lenient)));
    let positions: Vec<Member> = model.fields.into_iter().map(|field| field.member).collect();
    assert_eq!(
        positions,
        vec![Member::Unnamed(0), Member::Unnamed(1), Member::Unnamed(2), Member::Unnamed(3)]
    );
}

#[test]
fn tuple_positions_start_over_in_each_variant() {
    let source = parse("enum E { A(u8, u8), B(u8, u8, u8) }");
    let model = expect_enum(ok(Input::from_syn(&source, &lenient)));
    for variant in &model.variants {
        for (n, field) in variant.fields.iter().enumerate() {
            assert_eq!(field.member, Member::Unnamed(n));
        }
    }
    assert_eq!(model.variants[1].fields.len(), 3);
}

#[test]
fn unit_struct_has_no_fields() {
    let source = parse("struct Unit;");
    let model = expect_struct(ok(Input::from_syn(&source, &lenient)));
    assert_eq!(model.ident, "Unit");
    assert!(model.fields.is_empty());
}

#[test]
fn empty_enum_has_no_variants() {
    let source = parse("enum Never {}");
    let model = expect_enum(ok(Input::from_syn(&source, &lenient)));
    assert_eq!(model.ident, "Never");
    assert!(model.variants.is_empty());
}

#[test]
fn parsed_annotations_land_on_their_items() {
    let source = parse("#[top] enum E { #[one] A(#[inner] u8, u8), #[two] #[three] B }");
    let model = expect_enum(ok(Input::from_syn(&source, &lenient)));
    assert_eq!(model.attrs, vec!["top"]);
    assert_eq!(model.variants[0].attrs, vec!["one"]);
    assert_eq!(model.variants[0].fields[0].attrs, vec!["inner"]);
    assert!(model.variants[0].fields[1].attrs.is_empty());
    assert_eq!(model.variants[1].attrs, vec!["two", "three"]);
}

#[test]
fn struct_is_walked_top_down() {
    let source = parse("#[s] struct S { #[a] a: u8, #[b] b: u8, #[c] c: u8 }");
    let seen = RefCell::new(Vec::new());
    let recording = |attrs: &[Attribute]| {
        seen.borrow_mut().extend(names(attrs));
        lenient(attrs)
    };
    ok(Input::from_syn(&source, &recording));
    assert_eq!(*seen.borrow(), vec!["s", "a", "b", "c"]);
}

#[test]
fn enum_is_walked_variant_by_variant() {
    let source = parse("#[e] enum E { #[a] A(#[a0] u8, #[a1] u8), #[b] B { #[b0] x: u8 }, #[c] C }");
    let seen = RefCell::new(Vec::new());
    let recording = |attrs: &[Attribute]| {
        seen.borrow_mut().extend(names(attrs));
        lenient(attrs)
    };
    ok(Input::from_syn(&source, &recording));
    assert_eq!(*seen.borrow(), vec!["e", "a", "a0", "a1", "b", "b0", "c"]);
}

#[test]
fn every_item_is_parsed_once() {
    let source = parse("enum E { A(u8, u8), B { x: u8 }, C }");
    let calls = Cell::new(0);
    let counting = |attrs: &[Attribute]| {
        calls.set(calls.get() + 1);
        lenient(attrs)
    };
    ok(Input::from_syn(&source, &counting));
    assert_eq!(calls.get(), 7);
}

#[test]
fn refused_field_fails_the_struct() {
    let source = parse("struct S { a: u8, #[bad] b: u8, c: u8 }");
    let diagnostic = err(Input::from_syn(&source, &strict));
    assert_eq!(diagnostic.to_string(), "bad");
}

#[test]
fn refused_declaration_fails_before_its_fields() {
    let source = parse("#[bad] struct S { #[worse] a: u8 }");
    let calls = Cell::new(0);
    let counting = |attrs: &[Attribute]| {
        calls.set(calls.get() + 1);
        strict(attrs)
    };
    let diagnostic = err(Input::from_syn(&source, &counting));
    assert_eq!(diagnostic.to_string(), "bad");
    assert_eq!(calls.get(), 1);
}

#[test]
fn first_refusal_wins_and_ends_the_walk() {
    let source = parse("struct S { a: u8, #[worse] b: u8, #[bad] c: u8, d: u8 }");
    let calls = Cell::new(0);
    let counting = |attrs: &[Attribute]| {
        calls.set(calls.get() + 1);
        strict(attrs)
    };
    let diagnostic = err(Input::from_syn(&source, &counting));
    assert_eq!(diagnostic.to_string(), "worse");
    assert_eq!(calls.get(), 3);
}

#[test]
fn refused_variant_fails_the_enum() {
    let source = parse("enum E { A, #[bad] B(#[worse] u8), C }");
    let calls = Cell::new(0);
    let counting = |attrs: &[Attribute]| {
        calls.set(calls.get() + 1);
        strict(attrs)
    };
    let diagnostic = err(Input::from_syn(&source, &counting));
    assert_eq!(diagnostic.to_string(), "bad");
    assert_eq!(calls.get(), 3);
}

#[test]
fn refused_field_of_a_variant_fails_the_enum() {
    let source = parse("enum E { A(u8), B { x: u8, #[bad] y: u8 }, #[worse] C }");
    let calls = Cell::new(0);
    let counting = |attrs: &[Attribute]| {
        calls.set(calls.get() + 1);
        strict(attrs)
    };
    let diagnostic = err(Input::from_syn(&source, &counting));
    assert_eq!(diagnostic.to_string(), "bad");
    assert_eq!(calls.get(), 6);
}

#[test]
fn attribute_error_comes_through_unchanged() {
    let source = parse("struct S { #[bad] a: u8 }");
    let node = Declaration::from_derive_input(&source);
    let refusing = |_: &[Attribute]| -> Result<(), String> { Err("no".to_string()) };
    match Input::from_declaration(&node, &refusing) {
        Err(ExtractionError::AttributeError(e)) => assert_eq!(e, "no"),
        _ => panic!("the parser's error was expected"),
    }
}

#[test]
fn attribute_diagnostic_keeps_its_place() {
    let source = parse("struct S { a: u8, #[bad] b: u8 }");
    let offender = &source_fields(&source)[1].attrs[0];
    let expected = Error::new_spanned(offender, "bad");
    let diagnostic = err(Input::from_syn(&source, &strict));
    assert_eq!(diagnostic.to_string(), expected.to_string());
    assert_eq!(format!("{:?}", diagnostic.span()), format!("{:?}", expected.span()));
    assert_eq!(diagnostic.into_iter().count(), 1);
}

#[test]
fn diagnostic_of_each_error() {
    let source = parse("union U { a: u8 }");
    let node = Declaration::from_derive_input(&source);
    let unsupported: ExtractionError<Error> = ExtractionError::UnsupportedKind(&node);
    assert_eq!(unsupported.into_syn_error(&source).to_string(), UNSUPPORTED_KIND_MESSAGE);
    let own = Error::new_spanned(&source.ident, "mine");
    let attribute: ExtractionError<Error> = ExtractionError::AttributeError(own);
    assert_eq!(attribute.into_syn_error(&source).to_string(), "mine");
}

#[test]
fn message_of_each_error() {
    let source = parse("union U { a: u8 }");
    let node = Declaration::from_derive_input(&source);
    let unsupported: ExtractionError<Error> = ExtractionError::UnsupportedKind(&node);
    assert_eq!(unsupported.message(), "union as errors are not supported");
    let own = Error::new_spanned(&source.ident, "mine");
    let attribute: ExtractionError<Error> = ExtractionError::AttributeError(own);
    assert_eq!(attribute.message(), "mine");
    assert_eq!(attribute.message(), attribute.into_syn_error(&source).to_string());
}

#[test]
fn field_takes_name_before_position() {
    let source = parse("struct S { name: u8 }");
    let declared = source_fields(&source);
    let node = FieldNode {
        attrs: &declared[0].attrs,
        ident: declared[0].ident.as_ref(),
        ty: &declared[0].ty,
    };
    let field = ok(Field::from_syn(7, &node, &lenient));
    assert_eq!(field.member, Member::Named(syn::parse_str("name").unwrap()));
    let nameless = FieldNode { attrs: node.attrs, ident: None, ty: node.ty };
    let field = ok(Field::from_syn(7, &nameless, &lenient));
    assert_eq!(field.member, Member::Unnamed(7));
    assert!(std::ptr::eq(field.ty, &declared[0].ty));
}

#[test]
fn mixed_list_counts_every_position() {
    let source = parse("struct S { a: u8, b: u8, c: u8 }");
    let declared = source_fields(&source);
    let nodes: Vec<FieldNode> = declared
        .iter()
        .enumerate()
        .map(|(n, from)| FieldNode {
            attrs: &from.attrs,
            ident: if n == 1 { from.ident.as_ref() } else { None },
            ty: &from.ty,
        })
        .collect();
    let fields = ok(Field::multiple_from_syn(&nodes, &lenient));
    let members: Vec<Member> = fields.into_iter().map(|field| field.member).collect();
    assert_eq!(
        members,
        vec![Member::Unnamed(0), Member::Named(syn::parse_str("b").unwrap()), Member::Unnamed(2)]
    );
}

#[test]
fn empty_field_list_gives_no_fields() {
    let fields: Vec<Field<Vec<String>>> = ok(Field::multiple_from_syn(&[], &strict));
    assert!(fields.is_empty());
}

#[test]
fn variant_from_its_node() {
    let source = parse("enum E { #[v] V(#[f] u8, u16) }");
    let node = Declaration::from_derive_input(&source);
    let variants: &Vec<VariantNode> = match &node.data {
        DataKind::Enum(variants) => variants,
        _ => panic!("an enum was expected"),
    };
    let variant: Variant<Vec<String>> = ok(Variant::from_syn(&variants[0], &lenient));
    assert_eq!(variant.ident, "V");
    assert_eq!(variant.attrs, vec!["v"]);
    assert_eq!(variant.fields.len(), 2);
    assert_eq!(variant.fields[0].attrs, vec!["f"]);
    assert_eq!(variant.fields[1].member, Member::Unnamed(1));
}

#[test]
fn struct_and_enum_from_their_parts() {
    let source = parse("#[s] struct S<T>(T);");
    let node = Declaration::from_derive_input(&source);
    let fields = match &node.data {
        DataKind::Struct(fields) => fields,
        _ => panic!("a struct was expected"),
    };
    let model: Struct<Vec<String>> = ok(Struct::from_syn(&node, fields, &lenient));
    assert_eq!(model.ident, "S");
    assert_eq!(model.attrs, vec!["s"]);
    assert!(std::ptr::eq(model.generics, &source.generics));
    assert_eq!(model.fields.len(), 1);

    let source = parse("#[e] enum E<T> { A(T), B }");
    let node = Declaration::from_derive_input(&source);
    let variants = match &node.data {
        DataKind::Enum(variants) => variants,
        _ => panic!("an enum was expected"),
    };
    let model: Enum<Vec<String>> = ok(Enum::from_syn(&node, variants, &lenient));
    assert_eq!(model.ident, "E");
    assert_eq!(model.attrs, vec!["e"]);
    assert!(std::ptr::eq(model.generics, &source.generics));
    assert_eq!(model.variants.len(), 2);
}

#[test]
fn parts_fail_with_the_first_refusal() {
    let source = parse("enum E { A(u8, #[bad] u8, #[worse] u8), #[worse] B }");
    let node = Declaration::from_derive_input(&source);
    let variants = match &node.data {
        DataKind::Enum(variants) => variants,
        _ => panic!("an enum was expected"),
    };
    let refused = err(Field::<Vec<String>>::multiple_from_syn(&variants[0].fields, &strict));
    assert_eq!(refused.to_string(), "bad");
    let refused = err(Variant::<Vec<String>>::from_syn(&variants[0], &strict));
    assert_eq!(refused.to_string(), "bad");
    let refused = err(Variant::<Vec<String>>::from_syn(&variants[1], &strict));
    assert_eq!(refused.to_string(), "worse");
    let refused = err(Enum::<Vec<String>>::from_syn(&node, variants, &strict));
    assert_eq!(refused.to_string(), "bad");
}
