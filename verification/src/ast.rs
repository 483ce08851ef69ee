//! The typed model of a declaration, and its extraction from a declaration
//! node.
//!
//! Extraction walks the node once, top down: the declaration's own
//! annotations first, then each field, or each variant followed by its
//! fields, in declaration order. Every annotation list is handed to the
//! attribute parser; the first list it refuses ends the walk, and its error
//! is the error of the whole extraction.
//!
//! The attribute parser is the caller's. It is any function from an
//! annotation list to a parsed set or an error, and the model carries the
//! parsed sets without looking inside them. Nothing is assumed of the
//! parser but that it may be called; what the contracts say of its answers
//! they say through `parse.ensures`.

use vstd::prelude::*;
use syn::{Attribute, DeriveInput, Error, Generics, Ident, Type};
use crate::node::{
    DataKind, DataView, Declaration, DeclarationView, FieldNode, VariantNode, VariantView,
    variant_views,
};
use crate::syntax::{error_message, message_of, spanned_error};

verus! {

/// How a field is told apart from its siblings.
#[derive(Debug, PartialEq, Eq)]
pub enum Member {
    /// By its declared name.
    Named(Ident),
    /// By its position in the field list, counted from zero.
    Unnamed(usize),
}

/// One member of a struct or of a variant.
pub struct Field<'a, A> {
    /// The parsed annotations of the field.
    pub attrs: A,
    /// Its name or position.
    pub member: Member,
    /// Its declared type, borrowed from the syntax tree.
    pub ty: &'a Type,
}

/// One arm of an enum.
pub struct Variant<'a, A> {
    /// The parsed annotations of the variant.
    pub attrs: A,
    /// Its name.
    pub ident: Ident,
    /// Its fields, in declaration order.
    pub fields: Vec<Field<'a, A>>,
}

/// A struct declaration.
pub struct Struct<'a, A> {
    /// The parsed annotations of the declaration.
    pub attrs: A,
    /// Its name.
    pub ident: Ident,
    /// Its generic parameter list, borrowed from the syntax tree.
    pub generics: &'a Generics,
    /// Its fields, in declaration order.
    pub fields: Vec<Field<'a, A>>,
}

/// An enum declaration.
pub struct Enum<'a, A> {
    /// The parsed annotations of the declaration.
    pub attrs: A,
    /// Its name.
    pub ident: Ident,
    /// Its generic parameter list, borrowed from the syntax tree.
    pub generics: &'a Generics,
    /// Its variants, in declaration order.
    pub variants: Vec<Variant<'a, A>>,
}

/// A declaration in typed form.
pub enum Input<'a, A> {
    Struct(Struct<'a, A>),
    Enum(Enum<'a, A>),
}

/// Why a declaration has no typed form.
pub enum ExtractionError<'n, 'a, E> {
    /// The declaration is neither a struct nor an enum. Carries the
    /// declaration, so that a diagnostic can point at it.
    UnsupportedKind(&'n Declaration<'a>),
    /// The attribute parser refused an annotation list. Carries its error
    /// as it came.
    AttributeError(E),
}

/// The text that describes [`ExtractionError::UnsupportedKind`] to a user.
pub const UNSUPPORTED_KIND_MESSAGE: &'static str = "union as errors are not supported";

impl<'n, 'a> ExtractionError<'n, 'a, Error> {
    /// The text that describes this error to a user:
    /// [`UNSUPPORTED_KIND_MESSAGE`], or what the attribute parser's
    /// diagnostic says.
    pub open spec fn message_text(self) -> Seq<char> {
        match self {
            ExtractionError::UnsupportedKind(_) => UNSUPPORTED_KIND_MESSAGE@,
            ExtractionError::AttributeError(e) => message_of(e),
        }
    }

    /// The text that describes this error to a user.
    pub fn message(&self) -> (text: String)
        ensures
            text@ == self.message_text(),
    {
        match self {
            ExtractionError::UnsupportedKind(_) => UNSUPPORTED_KIND_MESSAGE.to_owned(),
            ExtractionError::AttributeError(e) => error_message(e),
        }
    }

    /// The diagnostic that reports this error on `source`, the declaration
    /// as it was parsed: the attribute parser's own, untouched, or for an
    /// unsupported kind one that points at `source` and carries
    /// [`UNSUPPORTED_KIND_MESSAGE`].
    pub fn into_syn_error(self, source: &DeriveInput) -> (diagnostic: Error)
        ensures
            self matches ExtractionError::AttributeError(e) ==> diagnostic == e,
            message_of(diagnostic) == self.message_text(),
    {
        match self {
            ExtractionError::UnsupportedKind(_) => spanned_error(source, UNSUPPORTED_KIND_MESSAGE),
            ExtractionError::AttributeError(e) => e,
        }
    }
}

/// The attribute parser may be called on every annotation list.
pub open spec fn total<'a, A, E, F>(parse: &F) -> bool
    where F: Fn(&'a [Attribute]) -> Result<A, E>,
{
    forall|annotations: &'a [Attribute]| #[trigger] parse.requires((annotations,))
}

/// The attribute parser can answer `annotations` with a parsed set.
pub open spec fn accepts<'a, A, E, F>(parse: &F, annotations: &'a [Attribute]) -> bool
    where F: Fn(&'a [Attribute]) -> Result<A, E>,
{
    exists|attrs: A| parse.ensures((annotations,), Ok(attrs))
}

/// The identity of the field that stands at `position` of its list and was
/// declared with the name `ident`, if with any.
pub open spec fn member_at(position: int, ident: Option<&Ident>) -> Member {
    match ident {
        Some(name) => Member::Named(*name),
        None => Member::Unnamed(position as usize),
    }
}

impl<'a, A> Field<'a, A> {
    /// `self` is the typed form of `node`, which stands at `position` of its
    /// list: the attribute parser gave `self.attrs` for the node's
    /// annotations, and name or position and type are the node's.
    pub open spec fn mirrors<E, F>(self, position: int, node: FieldNode<'a>, parse: &F) -> bool
        where F: Fn(&'a [Attribute]) -> Result<A, E>,
    {
        &&& parse.ensures((node.attrs,), Ok(self.attrs))
        &&& self.member == member_at(position, node.ident)
        &&& self.ty == node.ty
    }

    /// The typed form of the field `node`, which stands at position `i` of
    /// its list, or the attribute parser's error for its annotations.
    pub fn from_syn<E, F>(i: usize, node: &FieldNode<'a>, parse: &F) -> (r: Result<Self, E>)
        where F: Fn(&'a [Attribute]) -> Result<A, E>,
        requires
            total(parse),
        ensures
            match r {
                Ok(field) => field.mirrors(i as int, *node, parse),
                Err(e) => parse.ensures((node.attrs,), Err(e)),
            },
    {
        let attrs = match parse(node.attrs) {
            Ok(attrs) => attrs,
            Err(e) => {
                return Err(e);
            },
        };
        let member = match node.ident {
            Some(name) => Member::Named(name.clone()),
            None => Member::Unnamed(i),
        };
        Ok(Field { attrs, member, ty: node.ty })
    }

    /// The typed forms of `fields`, in their order, or the attribute
    /// parser's error for the first field whose annotations it refuses.
    pub fn multiple_from_syn<E, F>(fields: &[FieldNode<'a>], parse: &F) -> (r: Result<Vec<Self>, E>)
        where F: Fn(&'a [Attribute]) -> Result<A, E>,
        requires
            total(parse),
        ensures
            match r {
                Ok(list) => fields_mirror(list@, fields@, parse),
                Err(e) => fields_fail(fields@, parse, e),
            },
    {
        let mut list: Vec<Self> = Vec::new();
        let mut i: usize = 0;
        while i < fields.len()
            invariant
                total(parse),
                i <= fields@.len(),
                fields_mirror(list@, fields@.take(i as int), parse),
            decreases fields@.len() - i,
        {
            match Field::from_syn(i, &fields[i], parse) {
                Ok(field) => {
                    list.push(field);
                },
                Err(e) => {
                    proof {
                        lemma_mirrored_fields_pass(list@, fields@.take(i as int), parse);
                        assert forall|j: int| 0 <= j < i implies accepts(
                            parse,
                            (#[trigger] fields@[j]).attrs,
                        ) by {
                            assert(fields@[j] == fields@.take(i as int)[j]);
                        }
                        assert(fields_stop_at(fields@, i as int, parse, e));
                    }
                    return Err(e);
                },
            }
            i += 1;
        }
        Ok(list)
    }
}

/// `fields` are the typed forms of `nodes`: as many, and the one at each
/// position is the typed form of the node at that position.
pub open spec fn fields_mirror<'a, A, E, F>(
    fields: Seq<Field<'a, A>>,
    nodes: Seq<FieldNode<'a>>,
    parse: &F,
) -> bool
    where F: Fn(&'a [Attribute]) -> Result<A, E>,
{
    &&& fields.len() == nodes.len()
    &&& forall|i: int|
        0 <= i < nodes.len() ==> (#[trigger] fields[i]).mirrors(i, nodes[i], parse)
}

/// The attribute parser accepts the annotations of every field of `nodes`.
pub open spec fn fields_pass<'a, A, E, F>(nodes: Seq<FieldNode<'a>>, parse: &F) -> bool
    where F: Fn(&'a [Attribute]) -> Result<A, E>,
{
    forall|j: int| 0 <= j < nodes.len() ==> accepts(parse, (#[trigger] nodes[j]).attrs)
}

/// The walk over `nodes` ends at position `k` with the error `e`: the
/// attribute parser refuses the annotations of that field with `e`, and
/// accepts those of every field before it.
pub open spec fn fields_stop_at<'a, A, E, F>(
    nodes: Seq<FieldNode<'a>>,
    k: int,
    parse: &F,
    e: E,
) -> bool
    where F: Fn(&'a [Attribute]) -> Result<A, E>,
{
    &&& 0 <= k < nodes.len()
    &&& parse.ensures((nodes[k].attrs,), Err(e))
    &&& forall|j: int| 0 <= j < k ==> accepts(parse, (#[trigger] nodes[j]).attrs)
}

/// The walk over `nodes` ends with the error `e`.
pub open spec fn fields_fail<'a, A, E, F>(nodes: Seq<FieldNode<'a>>, parse: &F, e: E) -> bool
    where F: Fn(&'a [Attribute]) -> Result<A, E>,
{
    exists|k: int| fields_stop_at(nodes, k, parse, e)
}

impl<'a, A> Variant<'a, A> {
    /// `self` is the typed form of `node`: the attribute parser gave
    /// `self.attrs` for the node's annotations, the name is the node's, and
    /// the fields are the typed forms of the node's fields.
    pub open spec fn mirrors<E, F>(self, node: VariantView<'a>, parse: &F) -> bool
        where F: Fn(&'a [Attribute]) -> Result<A, E>,
    {
        &&& parse.ensures((node.attrs,), Ok(self.attrs))
        &&& self.ident == *node.ident
        &&& fields_mirror(self.fields@, node.fields, parse)
    }

    /// The typed form of the variant `node`, or the attribute parser's
    /// error for the first annotation list it refuses: the variant's own,
    /// or else that of a field.
    pub fn from_syn<E, F>(node: &VariantNode<'a>, parse: &F) -> (r: Result<Self, E>)
        where F: Fn(&'a [Attribute]) -> Result<A, E>,
        requires
            total(parse),
        ensures
            match r {
                Ok(variant) => variant.mirrors(node@, parse),
                Err(e) => variant_fails(node@, parse, e),
            },
    {
        let attrs = match parse(node.attrs) {
            Ok(attrs) => attrs,
            Err(e) => {
                return Err(e);
            },
        };
        let fields = match Field::multiple_from_syn(node.fields.as_slice(), parse) {
            Ok(fields) => fields,
            Err(e) => {
                return Err(e);
            },
        };
        Ok(Variant { attrs, ident: node.ident.clone(), fields })
    }
}

/// The attribute parser accepts the annotations of the variant `node` and
/// of each of its fields.
pub open spec fn variant_passes<'a, A, E, F>(node: VariantView<'a>, parse: &F) -> bool
    where F: Fn(&'a [Attribute]) -> Result<A, E>,
{
    &&& accepts(parse, node.attrs)
    &&& fields_pass(node.fields, parse)
}

/// The walk over the variant `node` ends with the error `e`: the attribute
/// parser refuses the variant's own annotations with `e`, or accepts them
/// and the walk over its fields ends with `e`.
pub open spec fn variant_fails<'a, A, E, F>(node: VariantView<'a>, parse: &F, e: E) -> bool
    where F: Fn(&'a [Attribute]) -> Result<A, E>,
{
    ||| parse.ensures((node.attrs,), Err(e))
    ||| accepts(parse, node.attrs) && fields_fail(node.fields, parse, e)
}

/// `variants` are the typed forms of `nodes`: as many, and the one at each
/// position is the typed form of the node at that position.
pub open spec fn variants_mirror<'a, A, E, F>(
    variants: Seq<Variant<'a, A>>,
    nodes: Seq<VariantView<'a>>,
    parse: &F,
) -> bool
    where F: Fn(&'a [Attribute]) -> Result<A, E>,
{
    &&& variants.len() == nodes.len()
    &&& forall|i: int|
        0 <= i < nodes.len() ==> (#[trigger] variants[i]).mirrors(nodes[i], parse)
}

/// The attribute parser accepts every annotation list under `nodes`.
pub open spec fn variants_pass<'a, A, E, F>(nodes: Seq<VariantView<'a>>, parse: &F) -> bool
    where F: Fn(&'a [Attribute]) -> Result<A, E>,
{
    forall|j: int| 0 <= j < nodes.len() ==> variant_passes(#[trigger] nodes[j], parse)
}

/// The walk over `nodes` ends in the variant at position `k` with the error
/// `e`, after every variant before it has passed.
pub open spec fn variants_stop_at<'a, A, E, F>(
    nodes: Seq<VariantView<'a>>,
    k: int,
    parse: &F,
    e: E,
) -> bool
    where F: Fn(&'a [Attribute]) -> Result<A, E>,
{
    &&& 0 <= k < nodes.len()
    &&& variant_fails(nodes[k], parse, e)
    &&& forall|j: int| 0 <= j < k ==> variant_passes(#[trigger] nodes[j], parse)
}

/// The walk over `nodes` ends with the error `e`.
pub open spec fn variants_fail<'a, A, E, F>(nodes: Seq<VariantView<'a>>, parse: &F, e: E) -> bool
    where F: Fn(&'a [Attribute]) -> Result<A, E>,
{
    exists|k: int| variants_stop_at(nodes, k, parse, e)
}

impl<'a, A> Struct<'a, A> {
    /// `self` is the typed form of the struct `node` with the fields
    /// `fields`.
    pub open spec fn mirrors<E, F>(
        self,
        node: DeclarationView<'a>,
        fields: Seq<FieldNode<'a>>,
        parse: &F,
    ) -> bool
        where F: Fn(&'a [Attribute]) -> Result<A, E>,
    {
        &&& parse.ensures((node.attrs,), Ok(self.attrs))
        &&& self.ident == *node.ident
        &&& self.generics == node.generics
        &&& fields_mirror(self.fields@, fields, parse)
    }

    /// The typed form of the struct `node`, whose fields are `fields`, or
    /// the attribute parser's error for the first annotation list it
    /// refuses: the declaration's own, or else that of a field.
    pub fn from_syn<E, F>(
        node: &Declaration<'a>,
        fields: &[FieldNode<'a>],
        parse: &F,
    ) -> (r: Result<Self, E>)
        where F: Fn(&'a [Attribute]) -> Result<A, E>,
        requires
            total(parse),
        ensures
            match r {
                Ok(model) => model.mirrors(node@, fields@, parse),
                Err(e) => struct_fails(node@, fields@, parse, e),
            },
    {
        let attrs = match parse(node.attrs) {
            Ok(attrs) => attrs,
            Err(e) => {
                return Err(e);
            },
        };
        let fields = match Field::multiple_from_syn(fields, parse) {
            Ok(fields) => fields,
            Err(e) => {
                return Err(e);
            },
        };
        Ok(Struct { attrs, ident: node.ident.clone(), generics: node.generics, fields })
    }
}

/// The walk over the struct `node` with the fields `fields` ends with the
/// error `e`: the attribute parser refuses the declaration's own
/// annotations with `e`, or accepts them and the walk over the fields ends
/// with `e`.
pub open spec fn struct_fails<'a, A, E, F>(
    node: DeclarationView<'a>,
    fields: Seq<FieldNode<'a>>,
    parse: &F,
    e: E,
) -> bool
    where F: Fn(&'a [Attribute]) -> Result<A, E>,
{
    ||| parse.ensures((node.attrs,), Err(e))
    ||| accepts(parse, node.attrs) && fields_fail(fields, parse, e)
}

impl<'a, A> Enum<'a, A> {
    /// `self` is the typed form of the enum `node` with the variants
    /// `variants`.
    pub open spec fn mirrors<E, F>(
        self,
        node: DeclarationView<'a>,
        variants: Seq<VariantView<'a>>,
        parse: &F,
    ) -> bool
        where F: Fn(&'a [Attribute]) -> Result<A, E>,
    {
        &&& parse.ensures((node.attrs,), Ok(self.attrs))
        &&& self.ident == *node.ident
        &&& self.generics == node.generics
        &&& variants_mirror(self.variants@, variants, parse)
    }

    /// The typed form of the enum `node`, whose variants are `variants`, or
    /// the attribute parser's error for the first annotation list it
    /// refuses: the declaration's own, or else the first one refused in the
    /// first variant that does not pass.
    pub fn from_syn<E, F>(
        node: &Declaration<'a>,
        variants: &[VariantNode<'a>],
        parse: &F,
    ) -> (r: Result<Self, E>)
        where F: Fn(&'a [Attribute]) -> Result<A, E>,
        requires
            total(parse),
        ensures
            match r {
                Ok(model) => model.mirrors(node@, variant_views(variants@), parse),
                Err(e) => enum_fails(node@, variant_views(variants@), parse, e),
            },
    {
        let attrs = match parse(node.attrs) {
            Ok(attrs) => attrs,
            Err(e) => {
                return Err(e);
            },
        };
        let ghost nodes = variant_views(variants@);
        let mut list: Vec<Variant<'a, A>> = Vec::new();
        let mut i: usize = 0;
        while i < variants.len()
            invariant
                total(parse),
                i <= variants@.len(),
                nodes == variant_views(variants@),
                parse.ensures((node.attrs,), Ok(attrs)),
                variants_mirror(list@, nodes.take(i as int), parse),
            decreases variants@.len() - i,
        {
            match Variant::from_syn(&variants[i], parse) {
                Ok(variant) => {
                    list.push(variant);
                },
                Err(e) => {
                    proof {
                        lemma_mirrored_variants_pass(list@, nodes.take(i as int), parse);
                        assert forall|j: int| 0 <= j < i implies variant_passes(
                            #[trigger] nodes[j],
                            parse,
                        ) by {
                            assert(nodes[j] == nodes.take(i as int)[j]);
                        }
                        assert(variants_stop_at(nodes, i as int, parse, e));
                    }
                    return Err(e);
                },
            }
            i += 1;
        }
        Ok(Enum { attrs, ident: node.ident.clone(), generics: node.generics, variants: list })
    }
}

/// The walk over the enum `node` with the variants `variants` ends with the
/// error `e`: the attribute parser refuses the declaration's own
/// annotations with `e`, or accepts them and the walk over the variants
/// ends with `e`.
pub open spec fn enum_fails<'a, A, E, F>(
    node: DeclarationView<'a>,
    variants: Seq<VariantView<'a>>,
    parse: &F,
    e: E,
) -> bool
    where F: Fn(&'a [Attribute]) -> Result<A, E>,
{
    ||| parse.ensures((node.attrs,), Err(e))
    ||| accepts(parse, node.attrs) && variants_fail(variants, parse, e)
}

/// The attribute parser accepts every annotation list of `node`.
pub open spec fn declaration_passes<'a, A, E, F>(node: DeclarationView<'a>, parse: &F) -> bool
    where F: Fn(&'a [Attribute]) -> Result<A, E>,
{
    &&& accepts(parse, node.attrs)
    &&& match node.data {
        DataView::Struct(fields) => fields_pass(fields, parse),
        DataView::Enum(variants) => variants_pass(variants, parse),
        DataView::Union => true,
    }
}

/// The walk over the struct or enum `node` ends with the error `e`.
pub open spec fn declaration_fails<'a, A, E, F>(node: DeclarationView<'a>, parse: &F, e: E) -> bool
    where F: Fn(&'a [Attribute]) -> Result<A, E>,
{
    match node.data {
        DataView::Struct(fields) => struct_fails(node, fields, parse, e),
        DataView::Enum(variants) => enum_fails(node, variants, parse, e),
        DataView::Union => false,
    }
}

/// Every positional identity in `fields` is the position at which it
/// stands.
pub open spec fn positions_agree<'a, A>(fields: Seq<Field<'a, A>>) -> bool {
    forall|i: int|
        0 <= i < fields.len() ==> (
            (#[trigger] fields[i]).member matches Member::Unnamed(p) ==> p == i
        )
}

impl<'a, A> Input<'a, A> {
    /// Within each field list of `self`, positional identities count the
    /// positions.
    pub open spec fn well_formed(self) -> bool {
        match self {
            Input::Struct(model) => positions_agree(model.fields@),
            Input::Enum(model) => forall|v: int|
                0 <= v < model.variants@.len() ==> positions_agree(
                    (#[trigger] model.variants@[v]).fields@,
                ),
        }
    }

    /// `self` is the typed form of `node`: a struct for a struct, an enum
    /// for an enum, and each part the typed form of the part it stands for.
    /// A union has no typed form.
    pub open spec fn mirrors<E, F>(self, node: DeclarationView<'a>, parse: &F) -> bool
        where F: Fn(&'a [Attribute]) -> Result<A, E>,
    {
        match (self, node.data) {
            (Input::Struct(model), DataView::Struct(fields)) => model.mirrors(node, fields, parse),
            (Input::Enum(model), DataView::Enum(variants)) => model.mirrors(node, variants, parse),
            _ => false,
        }
    }

    /// `r` is an outcome of extracting `node` with the attribute parser
    /// `parse`.
    ///
    /// A union gives [`ExtractionError::UnsupportedKind`] with the node
    /// itself, and nothing else does. A struct or an enum gives its typed
    /// form, or the attribute parser's error for the first annotation list
    /// that it refuses on the walk.
    pub open spec fn extracts<'n, E, F>(
        node: &'n Declaration<'a>,
        parse: &F,
        r: Result<Self, ExtractionError<'n, 'a, E>>,
    ) -> bool
        where F: Fn(&'a [Attribute]) -> Result<A, E>,
    {
        match r {
            Ok(input) => input.mirrors(node@, parse),
            Err(ExtractionError::UnsupportedKind(at)) => node@.data is Union && at == node,
            Err(ExtractionError::AttributeError(e)) => declaration_fails(node@, parse, e),
        }
    }

    /// Extracts the typed form of the declaration `node`, handing each
    /// annotation list to `parse`.
    pub fn from_declaration<'n, E, F>(
        node: &'n Declaration<'a>,
        parse: &F,
    ) -> (r: Result<Self, ExtractionError<'n, 'a, E>>)
        where F: Fn(&'a [Attribute]) -> Result<A, E>,
        requires
            total(parse),
        ensures
            Self::extracts(node, parse, r),
            r matches Ok(input) ==> input.well_formed(),
    {
        match &node.data {
            DataKind::Struct(fields) => match Struct::from_syn(node, fields.as_slice(), parse) {
                Ok(model) => {
                    let input = Input::Struct(model);
                    proof {
                        lemma_mirror_well_formed(input, node@, parse);
                    }
                    Ok(input)
                },
                Err(e) => Err(ExtractionError::AttributeError(e)),
            },
            DataKind::Enum(variants) => match Enum::from_syn(node, variants.as_slice(), parse) {
                Ok(model) => {
                    let input = Input::Enum(model);
                    proof {
                        lemma_mirror_well_formed(input, node@, parse);
                    }
                    Ok(input)
                },
                Err(e) => Err(ExtractionError::AttributeError(e)),
            },
            DataKind::Union => Err(ExtractionError::UnsupportedKind(node)),
        }
    }

    /// Extracts the typed form of a declaration that `syn` has parsed,
    /// handing each annotation list to `parse`.
    ///
    /// A union is answered with a diagnostic that carries
    /// [`UNSUPPORTED_KIND_MESSAGE`]. A struct or an enum gives its typed
    /// form, or the attribute parser's own diagnostic for the first
    /// annotation list that it refuses on the walk.
    pub fn from_syn<F>(node: &'a DeriveInput, parse: &F) -> (r: Result<Self, Error>)
        where F: Fn(&'a [Attribute]) -> Result<A, Error>,
        requires
            total(parse),
        ensures
            match r {
                Ok(input) => input.mirrors(Declaration::parsed(node), parse)
                    && input.well_formed(),
                Err(diagnostic) => if Declaration::parsed(node).data is Union {
                    message_of(diagnostic) == UNSUPPORTED_KIND_MESSAGE@
                } else {
                    declaration_fails(Declaration::parsed(node), parse, diagnostic)
                },
            },
    {
        let declaration = Declaration::from_derive_input(node);
        match Input::from_declaration(&declaration, parse) {
            Ok(input) => Ok(input),
            Err(e) => Err(e.into_syn_error(node)),
        }
    }
}

/// Fields that mirror their nodes show that the attribute parser accepts
/// each node's annotations.
pub proof fn lemma_mirrored_fields_pass<'a, A, E, F>(
    fields: Seq<Field<'a, A>>,
    nodes: Seq<FieldNode<'a>>,
    parse: &F,
)
    where F: Fn(&'a [Attribute]) -> Result<A, E>,
    requires
        fields_mirror(fields, nodes, parse),
    ensures
        fields_pass(nodes, parse),
{
    assert forall|j: int| 0 <= j < nodes.len() implies accepts(
        parse,
        (#[trigger] nodes[j]).attrs,
    ) by {
        assert(fields[j].mirrors(j, nodes[j], parse));
    }
}

/// Variants that mirror their nodes show that the attribute parser accepts
/// every annotation list under the nodes.
pub proof fn lemma_mirrored_variants_pass<'a, A, E, F>(
    variants: Seq<Variant<'a, A>>,
    nodes: Seq<VariantView<'a>>,
    parse: &F,
)
    where F: Fn(&'a [Attribute]) -> Result<A, E>,
    requires
        variants_mirror(variants, nodes, parse),
    ensures
        variants_pass(nodes, parse),
{
    assert forall|j: int| 0 <= j < nodes.len() implies variant_passes(
        #[trigger] nodes[j],
        parse,
    ) by {
        lemma_mirrored_fields_pass(variants[j].fields@, nodes[j].fields, parse);
    }
}

/// In the typed forms of a field list, every positional identity is the
/// position at which it stands.
pub proof fn lemma_mirrored_positions<'a, A, E, F>(
    fields: &Vec<Field<'a, A>>,
    nodes: Seq<FieldNode<'a>>,
    parse: &F,
)
    where F: Fn(&'a [Attribute]) -> Result<A, E>,
    requires
        fields_mirror(fields@, nodes, parse),
    ensures
        positions_agree(fields@),
{
    assert(fields.len() == fields@.len());
}

/// A typed form that mirrors a declaration is well formed.
pub proof fn lemma_mirror_well_formed<'a, A, E, F>(
    input: Input<'a, A>,
    node: DeclarationView<'a>,
    parse: &F,
)
    where F: Fn(&'a [Attribute]) -> Result<A, E>,
    requires
        input.mirrors(node, parse),
    ensures
        input.well_formed(),
{
    match (input, node.data) {
        (Input::Struct(model), DataView::Struct(fields)) => {
            lemma_mirrored_positions(&model.fields, fields, parse);
        },
        (Input::Enum(model), DataView::Enum(variants)) => {
            assert forall|v: int| 0 <= v < model.variants@.len() implies positions_agree(
                (#[trigger] model.variants@[v]).fields@,
            ) by {
                lemma_mirrored_positions(&model.variants@[v].fields, variants[v].fields, parse);
            }
        },
        _ => {},
    }
}

/// Order and count survive extraction: the typed form has as many fields
/// or variants as the declaration, the n-th of them stands for the n-th
/// declared one, and the same holds of the fields of each variant.
pub proof fn lemma_order_preserved<'a, A, E, F>(
    input: Input<'a, A>,
    node: DeclarationView<'a>,
    parse: &F,
)
    where F: Fn(&'a [Attribute]) -> Result<A, E>,
    requires
        input.mirrors(node, parse),
    ensures
        match node.data {
            DataView::Struct(fields) => {
                &&& input matches Input::Struct(model)
                &&& model.fields@.len() == fields.len()
                &&& forall|n: int|
                    0 <= n < fields.len() ==> {
                        &&& (#[trigger] model.fields@[n]).ty == fields[n].ty
                        &&& model.fields@[n].member == member_at(n, fields[n].ident)
                    }
            },
            DataView::Enum(variants) => {
                &&& input matches Input::Enum(model)
                &&& model.variants@.len() == variants.len()
                &&& forall|n: int|
                    0 <= n < variants.len() ==> {
                        &&& (#[trigger] model.variants@[n]).ident == *variants[n].ident
                        &&& model.variants@[n].fields@.len() == variants[n].fields.len()
                    }
                &&& forall|n: int, m: int|
                    0 <= n < variants.len() && 0 <= m < variants[n].fields.len() ==> {
                        &&& (#[trigger] model.variants@[n].fields@[m]).ty
                            == variants[n].fields[m].ty
                        &&& model.variants@[n].fields@[m].member == member_at(
                            m,
                            variants[n].fields[m].ident,
                        )
                    }
            },
            DataView::Union => false,
        },
{
}

/// The typed forms of a tuple-style field list of length k carry the
/// positional identities 0, 1, ..., k - 1, each at its own position.
pub proof fn lemma_tuple_positions<'a, A, E, F>(
    fields: &Vec<Field<'a, A>>,
    nodes: Seq<FieldNode<'a>>,
    parse: &F,
)
    where F: Fn(&'a [Attribute]) -> Result<A, E>,
    requires
        fields_mirror(fields@, nodes, parse),
        forall|i: int| 0 <= i < nodes.len() ==> (#[trigger] nodes[i]).ident is None,
    ensures
        forall|i: int|
            0 <= i < nodes.len() ==> (
                (#[trigger] fields@[i]).member matches Member::Unnamed(p) && p == i
            ),
{
    assert(fields.len() == fields@.len());
}

/// A union never has a typed form: the one outcome of its extraction is
/// [`ExtractionError::UnsupportedKind`] with the declaration itself. No
/// other declaration has that outcome.
pub proof fn lemma_union_unsupported<'n, 'a, A, E, F>(
    node: &'n Declaration<'a>,
    parse: &F,
    r: Result<Input<'a, A>, ExtractionError<'n, 'a, E>>,
)
    where F: Fn(&'a [Attribute]) -> Result<A, E>,
    requires
        Input::extracts(node, parse, r),
    ensures
        node.data is Union ==> r == Err::<Input<'a, A>, _>(
            ExtractionError::<'n, 'a, E>::UnsupportedKind(node),
        ),
        !(node.data is Union) ==> !(r is Err && r->Err_0 is UnsupportedKind),
{
}

/// Where the attribute parser has no parsed set for some annotation list
/// of the declaration, extraction gives no typed form at all.
pub proof fn lemma_refusal_aborts<'n, 'a, A, E, F>(
    node: &'n Declaration<'a>,
    parse: &F,
    r: Result<Input<'a, A>, ExtractionError<'n, 'a, E>>,
)
    where F: Fn(&'a [Attribute]) -> Result<A, E>,
    requires
        Input::extracts(node, parse, r),
        !declaration_passes(node@, parse),
    ensures
        r is Err,
{
    if let Ok(input) = r {
        match (input, node@.data) {
            (Input::Struct(model), DataView::Struct(fields)) => {
                lemma_mirrored_fields_pass(model.fields@, fields, parse);
            },
            (Input::Enum(model), DataView::Enum(variants)) => {
                lemma_mirrored_variants_pass(model.variants@, variants, parse);
            },
            _ => {},
        }
    }
}

/// Where the attribute parser never answers an annotation list with an
/// error, extraction of a struct or of an enum gives the typed form.
pub proof fn lemma_success_owed<'n, 'a, A, E, F>(
    node: &'n Declaration<'a>,
    parse: &F,
    r: Result<Input<'a, A>, ExtractionError<'n, 'a, E>>,
)
    where F: Fn(&'a [Attribute]) -> Result<A, E>,
    requires
        Input::extracts(node, parse, r),
        !(node.data is Union),
        forall|annotations: &'a [Attribute], e: E| !parse.ensures((annotations,), Err(e)),
    ensures
        r matches Ok(input) && input.mirrors(node@, parse),
{
}

} // verus!
