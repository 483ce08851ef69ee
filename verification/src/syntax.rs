//! What the library takes from `syn` on trust.
//!
//! The syntax tree is opaque to the verifier. The types below are carried
//! through unread, and each function here stands for one way of reading a
//! tree: nothing is proved of it, and what it is believed to return is
//! told in its contract.

use vstd::prelude::*;
use syn::{Attribute, Data, DataEnum, DeriveInput, Error, Fields, Generics, Ident, Type};
use crate::node::FieldNode;

verus! {

/// `syn::Attribute`: one annotation, handed unread to the attribute parser.
#[verifier::external_type_specification]
#[verifier::external_body]
pub struct ExAttribute(Attribute);

/// `syn::Ident`: the name of a declaration, a variant or a field.
#[verifier::external_type_specification]
#[verifier::external_body]
pub struct ExIdent(Ident);

/// `syn::Generics`: the generic parameter list of a declaration.
#[verifier::external_type_specification]
#[verifier::external_body]
pub struct ExGenerics(Generics);

/// `syn::Type`: the declared type of a field.
#[verifier::external_type_specification]
#[verifier::external_body]
pub struct ExType(Type);

/// `syn::DeriveInput`: a whole declaration as `syn` parsed it.
#[verifier::external_type_specification]
#[verifier::external_body]
pub struct ExDeriveInput(DeriveInput);

/// `syn::Fields`: the field list of a struct or of a variant.
#[verifier::external_type_specification]
#[verifier::external_body]
pub struct ExFields(Fields);

/// `syn::DataEnum`: the body of an enum.
#[verifier::external_type_specification]
#[verifier::external_body]
pub struct ExDataEnum(DataEnum);

/// `syn::Error`: a diagnostic tied to a place in the source.
#[verifier::external_type_specification]
#[verifier::external_body]
pub struct ExError(Error);

/// `Ident::clone` is the derived field-by-field copy: the result is the
/// same identifier, text and span.
pub assume_specification[ <Ident as Clone>::clone ](ident: &Ident) -> (copy: Ident)
    ensures
        copy == *ident,
;

/// The data of a parsed declaration, told apart by kind.
pub enum Body<'a> {
    /// A struct, with its field list.
    Struct(&'a Fields),
    /// An enum, with its body.
    Enum(&'a DataEnum),
    /// A union.
    Union,
}

/// The annotations, the name and the generic parameter list that `source`
/// holds in its fields `attrs`, `ident` and `generics`.
pub uninterp spec fn head_of(source: &DeriveInput) -> (&[Attribute], &Ident, &Generics);

/// The kind that the field `data` of `source` has, with the field list of
/// a struct or the body of an enum.
pub uninterp spec fn body_of(source: &DeriveInput) -> Body<'_>;

/// The fields that `Fields::iter` walks over, in its order, each given by
/// its `attrs`, `ident` and `ty`.
pub uninterp spec fn fields_of(fields: &Fields) -> Seq<FieldNode<'_>>;

/// The variants that `Punctuated::iter` walks over in the field `variants`
/// of `data`, in its order, each given by its `attrs`, `ident` and `fields`.
pub uninterp spec fn variants_of(data: &DataEnum) -> Seq<(&[Attribute], &Ident, &Fields)>;

/// Reads the fields `attrs`, `ident` and `generics` of a `DeriveInput`.
#[verifier::external_body]
pub(crate) fn read_head<'a>(source: &'a DeriveInput) -> (head: (
    &'a [Attribute],
    &'a Ident,
    &'a Generics,
))
    ensures
        head == head_of(source),
{
    (&source.attrs, &source.ident, &source.generics)
}

/// Reads the field `data` of a `DeriveInput` and tells its three variants
/// apart.
#[verifier::external_body]
pub(crate) fn read_body<'a>(source: &'a DeriveInput) -> (body: Body<'a>)
    ensures
        body == body_of(source),
{
    match &source.data {
        Data::Struct(data) => Body::Struct(&data.fields),
        Data::Enum(data) => Body::Enum(data),
        Data::Union(_) => Body::Union,
    }
}

/// Collects what `Fields::iter` yields: every field of a named or of a
/// tuple-style list in declaration order, none for a unit.
#[verifier::external_body]
pub(crate) fn read_fields<'a>(fields: &'a Fields) -> (nodes: Vec<FieldNode<'a>>)
    ensures
        nodes@ == fields_of(fields),
{
    fields
        .iter()
        .map(|f| FieldNode { attrs: &f.attrs, ident: f.ident.as_ref(), ty: &f.ty })
        .collect()
}

/// Collects what `Punctuated::iter` yields for the variants of an enum:
/// every variant in declaration order.
#[verifier::external_body]
pub(crate) fn read_variants<'a>(data: &'a DataEnum) -> (heads: Vec<
    (&'a [Attribute], &'a Ident, &'a Fields),
>)
    ensures
        heads@ == variants_of(data),
{
    data.variants.iter().map(|v| (v.attrs.as_slice(), &v.ident, &v.fields)).collect()
}

/// The text that `Display` writes for `error`: the message of its first
/// entry.
pub uninterp spec fn message_of(error: Error) -> Seq<char>;

/// `Error::to_string`, which writes the error with `Display`.
#[verifier::external_body]
pub(crate) fn error_message(error: &Error) -> (message: String)
    ensures
        message@ == message_of(*error),
{
    error.to_string()
}

/// `Error::new_spanned`: a diagnostic that points at the tokens of `source`.
/// It has one entry, whose message is `message`. Which spans it holds also
/// depends on the thread that asks, so no more is claimed of it.
#[verifier::external_body]
pub(crate) fn spanned_error(source: &DeriveInput, message: &str) -> (diagnostic: Error)
    ensures
        message_of(diagnostic) == message@,
{
    Error::new_spanned(source, message)
}

} // verus!
