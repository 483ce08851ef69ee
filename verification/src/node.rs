//! The declaration as the host hands it in: its name, its generic
//! parameters, its kind, and its fields or variants in declaration order,
//! each with the annotations written on it.
//!
//! A node borrows from the syntax tree it was read from and never outlives
//! it.

use vstd::prelude::*;
use syn::{Attribute, DeriveInput, Fields, Generics, Ident, Type};
use crate::syntax::{
    body_of, fields_of, head_of, read_body, read_fields, read_head, read_variants, variants_of,
    Body,
};

verus! {

/// One member of a struct or of a variant.
pub struct FieldNode<'a> {
    /// The annotations written on the field.
    pub attrs: &'a [Attribute],
    /// The declared name; `None` for a member of a tuple-style list.
    pub ident: Option<&'a Ident>,
    /// The declared type.
    pub ty: &'a Type,
}

/// One arm of an enum.
pub struct VariantNode<'a> {
    /// The annotations written on the variant.
    pub attrs: &'a [Attribute],
    /// The declared name.
    pub ident: &'a Ident,
    /// The members, in declaration order.
    pub fields: Vec<FieldNode<'a>>,
}

/// What kind of data a declaration introduces.
pub enum DataKind<'a> {
    /// A product of fields, in declaration order.
    Struct(Vec<FieldNode<'a>>),
    /// A sum of variants, in declaration order.
    Enum(Vec<VariantNode<'a>>),
    /// An untagged union. The typed model has no place for it.
    Union,
}

/// A type declaration.
pub struct Declaration<'a> {
    /// The annotations written on the declaration itself.
    pub attrs: &'a [Attribute],
    /// The declared name.
    pub ident: &'a Ident,
    /// The generic parameter list.
    pub generics: &'a Generics,
    /// The fields or variants.
    pub data: DataKind<'a>,
}

/// A [`VariantNode`] with its fields as a sequence.
pub struct VariantView<'a> {
    pub attrs: &'a [Attribute],
    pub ident: &'a Ident,
    pub fields: Seq<FieldNode<'a>>,
}

/// A [`DataKind`] with its fields or variants as a sequence.
pub enum DataView<'a> {
    Struct(Seq<FieldNode<'a>>),
    Enum(Seq<VariantView<'a>>),
    Union,
}

/// A [`Declaration`] with its fields or variants as a sequence.
pub struct DeclarationView<'a> {
    pub attrs: &'a [Attribute],
    pub ident: &'a Ident,
    pub generics: &'a Generics,
    pub data: DataView<'a>,
}

impl<'a> View for VariantNode<'a> {
    type V = VariantView<'a>;

    open spec fn view(&self) -> VariantView<'a> {
        VariantView { attrs: self.attrs, ident: self.ident, fields: self.fields@ }
    }
}

/// The views of `variants`, in order.
pub open spec fn variant_views<'a>(variants: Seq<VariantNode<'a>>) -> Seq<VariantView<'a>> {
    variants.map_values(|variant: VariantNode<'a>| variant@)
}

impl<'a> View for DataKind<'a> {
    type V = DataView<'a>;

    open spec fn view(&self) -> DataView<'a> {
        match *self {
            DataKind::Struct(fields) => DataView::Struct(fields@),
            DataKind::Enum(variants) => DataView::Enum(variant_views(variants@)),
            DataKind::Union => DataView::Union,
        }
    }
}

impl<'a> View for Declaration<'a> {
    type V = DeclarationView<'a>;

    open spec fn view(&self) -> DeclarationView<'a> {
        DeclarationView {
            attrs: self.attrs,
            ident: self.ident,
            generics: self.generics,
            data: self.data@,
        }
    }
}

/// The variants with the heads `heads`, in order: each with the
/// annotations and the name of its head, and with the fields that the
/// head's field list holds.
pub open spec fn parsed_variants<'a>(
    heads: Seq<(&'a [Attribute], &'a Ident, &'a Fields)>,
) -> Seq<VariantView<'a>> {
    heads.map_values(
        |head: (&'a [Attribute], &'a Ident, &'a Fields)|
            VariantView { attrs: head.0, ident: head.1, fields: fields_of(head.2) },
    )
}

impl<'a> Declaration<'a> {
    /// What `source` declares: its annotations, name and generic
    /// parameters, its kind, and its fields or variants in declaration
    /// order.
    pub open spec fn parsed(source: &'a DeriveInput) -> DeclarationView<'a> {
        DeclarationView {
            attrs: head_of(source).0,
            ident: head_of(source).1,
            generics: head_of(source).2,
            data: match body_of(source) {
                Body::Struct(fields) => DataView::Struct(fields_of(fields)),
                Body::Enum(data) => DataView::Enum(parsed_variants(variants_of(data))),
                Body::Union => DataView::Union,
            },
        }
    }

    /// Reads a declaration that `syn` has parsed.
    pub fn from_derive_input(source: &'a DeriveInput) -> (node: Self)
        ensures
            node@ == Self::parsed(source),
    {
        let (attrs, ident, generics) = read_head(source);
        let data = match read_body(source) {
            Body::Struct(fields) => DataKind::Struct(read_fields(fields)),
            Body::Enum(data) => {
                let heads = read_variants(data);
                let mut variants: Vec<VariantNode<'a>> = Vec::new();
                let mut i: usize = 0;
                while i < heads.len()
                    invariant
                        i <= heads@.len(),
                        variant_views(variants@) == parsed_variants(heads@.take(i as int)),
                    decreases heads@.len() - i,
                {
                    let (attrs, ident, fields) = heads[i];
                    let ghost before = variants@;
                    variants.push(VariantNode { attrs, ident, fields: read_fields(fields) });
                    assert(variant_views(variants@) == variant_views(before).push(
                        variants@.last()@,
                    ));
                    i += 1;
                }
                assert(heads@.take(i as int) == heads@);
                DataKind::Enum(variants)
            },
            Body::Union => DataKind::Union,
        };
        Declaration { attrs, ident, generics, data }
    }
}

} // verus!
