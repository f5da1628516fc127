//! What the parser of Rust syntax tells about a piece of text.
//!
//! The grammar of items, types and visibilities is `syn`'s. Each function
//! here hands one piece of text to it and gives back, as plain text and
//! plain values, the parts that the generator reads. None of them is
//! proved: each states that its outcome is the named function of its
//! argument, and no more.
//!
//! The parser does not take every text. It nests its own work as deep as
//! the text's brackets nest, so each function here takes only text that is
//! [`shallow`]. The parsers of types, items, variants and fields go on to
//! nest their work with the syntax they find, one step for each token
//! that leads them further in, and `syn::Lit::new` panics on a literal
//! that it cannot classify, such as `c"text"`. What reaches them must be
//! [`parsable`]: shallow, and either no token stream, on which the parser
//! stops before it looks at anything, or a text whose literals are of the
//! kinds that `syn::Lit::new` knows and whose tokens lead no further in
//! than the budget allows. The brackets of an attribute are not looked
//! into, since the parser keeps their tokens as they are.

use quote::ToTokens;
use vstd::prelude::*;
use vstd::string::*;
use crate::decl::{Field, FieldSpec, Shape};
use crate::token::{parsable, shallow};
use crate::visibility::{Restriction, Visibility, VisibilitySpec};

verus! {

/// The parts of an enum item. The variants are still text.
#[derive(Debug, Clone, PartialEq, Eq)]
pub struct EnumParts {
    pub attrs: Vec<String>,
    pub vis: String,
    pub ident: String,
    pub variants: Vec<String>,
}

/// [`EnumParts`] as contracts see it.
pub ghost struct EnumPartsSpec {
    pub attrs: Seq<Seq<char>>,
    pub vis: Seq<char>,
    pub ident: Seq<char>,
    pub variants: Seq<Seq<char>>,
}

impl View for EnumParts {
    type V = EnumPartsSpec;

    open spec fn view(&self) -> EnumPartsSpec {
        EnumPartsSpec {
            attrs: self.attrs.deep_view(),
            vis: self.vis@,
            ident: self.ident@,
            variants: self.variants.deep_view(),
        }
    }
}

/// The parts of one variant. The fields are still text.
#[derive(Debug, Clone, PartialEq, Eq)]
pub struct VariantParts {
    pub attrs: Vec<String>,
    pub ident: String,
    pub shape: Shape,
    pub fields: Vec<String>,
}

/// [`VariantParts`] as contracts see it.
pub ghost struct VariantPartsSpec {
    pub attrs: Seq<Seq<char>>,
    pub ident: Seq<char>,
    pub shape: Shape,
    pub fields: Seq<Seq<char>>,
}

impl View for VariantParts {
    type V = VariantPartsSpec;

    open spec fn view(&self) -> VariantPartsSpec {
        VariantPartsSpec {
            attrs: self.attrs.deep_view(),
            ident: self.ident@,
            shape: self.shape,
            fields: self.fields.deep_view(),
        }
    }
}

/// The name and the generic parameters of a struct, enum or union, as an
/// impl for the type writes them.
#[derive(Debug, Clone, PartialEq, Eq)]
pub struct TypeHead {
    pub ident: String,
    /// What stands behind `impl`: the parameters with their bounds, between
    /// angle brackets. Empty where there are none.
    pub impl_generics: String,
    /// What stands behind the type's name: the parameters' names alone,
    /// between angle brackets. Empty where there are none.
    pub type_generics: String,
    /// The `where` clause. Empty where there is none.
    pub where_clause: String,
}

/// [`TypeHead`] as contracts see it.
pub ghost struct TypeHeadSpec {
    pub ident: Seq<char>,
    pub impl_generics: Seq<char>,
    pub type_generics: Seq<char>,
    pub where_clause: Seq<char>,
}

impl View for TypeHead {
    type V = TypeHeadSpec;

    open spec fn view(&self) -> TypeHeadSpec {
        TypeHeadSpec {
            ident: self.ident@,
            impl_generics: self.impl_generics@,
            type_generics: self.type_generics@,
            where_clause: self.where_clause@,
        }
    }
}

/// The type that `text` is, written out by the parser, or the parser's
/// message where `text` is no type.
pub uninterp spec fn type_text(text: Seq<char>) -> Result<Seq<char>, Seq<char>>;

/// Whether `text` is one identifier that is no keyword.
pub uninterp spec fn is_identifier(text: Seq<char>) -> bool;

/// The visibility that `text` is, or the parser's message.
pub uninterp spec fn visibility_in(text: Seq<char>) -> Result<VisibilitySpec, Seq<char>>;

/// The parts of the enum item that `text` is, or the parser's message
/// where `text` is no enum.
pub uninterp spec fn enum_parts(text: Seq<char>) -> Result<EnumPartsSpec, Seq<char>>;

/// The parts of the enum variant that `text` is, or the parser's message.
pub uninterp spec fn variant_parts(text: Seq<char>) -> Result<VariantPartsSpec, Seq<char>>;

/// The named field that `text` is, or the parser's message.
pub uninterp spec fn named_field(text: Seq<char>) -> Result<FieldSpec, Seq<char>>;

/// The unnamed field that `text` is, or the parser's message.
pub uninterp spec fn unnamed_field(text: Seq<char>) -> Result<FieldSpec, Seq<char>>;

/// The head of the struct, enum or union that `text` is, or the parser's
/// message where it is none of them.
pub uninterp spec fn type_head(text: Seq<char>) -> Result<TypeHeadSpec, Seq<char>>;

/// Parses `text` with `syn::parse_str::<syn::Type>` and prints the type's
/// tokens. The error comes back as its message.
/// Takes parsable text only: on a literal that it cannot classify the
/// parser panics, and on a text that leads it too far in it does not
/// come back.
#[verifier::external_body]
pub(crate) fn read_type(text: &str) -> (r: Result<String, String>)
    requires
        parsable(text@),
    ensures
        match r {
            Ok(ty) => type_text(text@) == Ok::<Seq<char>, Seq<char>>(ty@),
            Err(message) => type_text(text@) == Err::<Seq<char>, Seq<char>>(message@),
        },
{
    match syn::parse_str::<syn::Type>(text) {
        Ok(ty) => Ok(ty.to_token_stream().to_string()),
        Err(e) => Err(e.to_string()),
    }
}

/// Whether `syn::parse_str::<syn::Ident>` accepts `text`. Takes shallow
/// text only.
#[verifier::external_body]
pub(crate) fn read_identifier(text: &str) -> (b: bool)
    requires
        shallow(text@),
    ensures
        b == is_identifier(text@),
{
    syn::parse_str::<syn::Ident>(text).is_ok()
}

/// Parses `text` with `syn::parse_str::<syn::Visibility>` and copies the
/// variant it finds; of `pub(..)`, whether `in` and a leading `::` are
/// there, and the path's segments in order. Takes shallow text only.
#[verifier::external_body]
pub(crate) fn read_visibility(text: &str) -> (r: Result<Visibility, String>)
    requires
        shallow(text@),
    ensures
        match r {
            Ok(vis) => visibility_in(text@) == Ok::<VisibilitySpec, Seq<char>>(vis@),
            Err(message) => visibility_in(text@) == Err::<VisibilitySpec, Seq<char>>(message@),
        },
{
    match syn::parse_str::<syn::Visibility>(text) {
        Err(e) => Err(e.to_string()),
        Ok(syn::Visibility::Public(_)) => Ok(Visibility::Public),
        Ok(syn::Visibility::Crate(_)) => Ok(Visibility::Crate),
        Ok(syn::Visibility::Inherited) => Ok(Visibility::Inherited),
        Ok(syn::Visibility::Restricted(r)) => Ok(Visibility::Restricted(Restriction {
            in_token: r.in_token.is_some(),
            leading_colon: r.path.leading_colon.is_some(),
            segments: r.path.segments.iter().map(|s| s.ident.to_string()).collect(),
        })),
    }
}

/// Parses `text` with `syn::parse_str::<syn::ItemEnum>` and prints the
/// item's attributes, visibility, name and variants, each by itself.
/// Takes parsable text only: on a literal that it cannot classify the
/// parser panics, and on a text that leads it too far in it does not
/// come back.
#[verifier::external_body]
pub(crate) fn read_enum(text: &str) -> (r: Result<EnumParts, String>)
    requires
        parsable(text@),
    ensures
        match r {
            Ok(parts) => enum_parts(text@) == Ok::<EnumPartsSpec, Seq<char>>(parts@),
            Err(message) => enum_parts(text@) == Err::<EnumPartsSpec, Seq<char>>(message@),
        },
{
    match syn::parse_str::<syn::ItemEnum>(text) {
        Err(e) => Err(e.to_string()),
        Ok(item) => Ok(EnumParts {
            attrs: item.attrs.iter().map(|a| a.to_token_stream().to_string()).collect(),
            vis: item.vis.to_token_stream().to_string(),
            ident: item.ident.to_string(),
            variants: item.variants.iter().map(|v| v.to_token_stream().to_string()).collect(),
        }),
    }
}

/// Parses `text` with `syn::parse_str::<syn::Variant>` and prints the
/// variant's attributes, name and fields, each by itself, with the kind
/// of `syn::Fields` that it has.
/// Takes parsable text only: on a literal that it cannot classify the
/// parser panics, and on a text that leads it too far in it does not
/// come back.
#[verifier::external_body]
pub(crate) fn read_variant(text: &str) -> (r: Result<VariantParts, String>)
    requires
        parsable(text@),
    ensures
        match r {
            Ok(parts) => variant_parts(text@) == Ok::<VariantPartsSpec, Seq<char>>(parts@),
            Err(message) => variant_parts(text@) == Err::<VariantPartsSpec, Seq<char>>(message@),
        },
{
    match syn::parse_str::<syn::Variant>(text) {
        Err(e) => Err(e.to_string()),
        Ok(v) => Ok(VariantParts {
            attrs: v.attrs.iter().map(|a| a.to_token_stream().to_string()).collect(),
            ident: v.ident.to_string(),
            shape: match v.fields {
                syn::Fields::Named(_) => Shape::Named,
                syn::Fields::Unnamed(_) => Shape::Unnamed,
                syn::Fields::Unit => Shape::Unit,
            },
            fields: v.fields.iter().map(|f| f.to_token_stream().to_string()).collect(),
        }),
    }
}

/// Parses `text` with `syn::Field::parse_named` and prints the field's
/// attributes, name and type, each by itself.
/// Takes parsable text only: on a literal that it cannot classify the
/// parser panics, and on a text that leads it too far in it does not
/// come back.
#[verifier::external_body]
pub(crate) fn read_named_field(text: &str) -> (r: Result<Field, String>)
    requires
        parsable(text@),
    ensures
        match r {
            Ok(field) => named_field(text@) == Ok::<FieldSpec, Seq<char>>(field@),
            Err(message) => named_field(text@) == Err::<FieldSpec, Seq<char>>(message@),
        },
{
    match syn::parse::Parser::parse_str(syn::Field::parse_named, text) {
        Err(e) => Err(e.to_string()),
        Ok(f) => Ok(Field {
            attrs: f.attrs.iter().map(|a| a.to_token_stream().to_string()).collect(),
            name: f.ident.as_ref().map(|i| i.to_string()),
            ty: f.ty.to_token_stream().to_string(),
        }),
    }
}

/// Parses `text` with `syn::Field::parse_unnamed` and prints the field's
/// attributes and type, each by itself.
/// Takes parsable text only: on a literal that it cannot classify the
/// parser panics, and on a text that leads it too far in it does not
/// come back.
#[verifier::external_body]
pub(crate) fn read_unnamed_field(text: &str) -> (r: Result<Field, String>)
    requires
        parsable(text@),
    ensures
        match r {
            Ok(field) => unnamed_field(text@) == Ok::<FieldSpec, Seq<char>>(field@),
            Err(message) => unnamed_field(text@) == Err::<FieldSpec, Seq<char>>(message@),
        },
{
    match syn::parse::Parser::parse_str(syn::Field::parse_unnamed, text) {
        Err(e) => Err(e.to_string()),
        Ok(f) => Ok(Field {
            attrs: f.attrs.iter().map(|a| a.to_token_stream().to_string()).collect(),
            name: f.ident.as_ref().map(|i| i.to_string()),
            ty: f.ty.to_token_stream().to_string(),
        }),
    }
}

/// Parses `text` with `syn::parse_str::<syn::DeriveInput>` and prints the
/// item's name and the three parts that `syn::Generics::split_for_impl`
/// makes of its generic parameters.
/// Takes parsable text only: on a literal that it cannot classify the
/// parser panics, and on a text that leads it too far in it does not
/// come back.
#[verifier::external_body]
pub(crate) fn read_type_head(text: &str) -> (r: Result<TypeHead, String>)
    requires
        parsable(text@),
    ensures
        match r {
            Ok(head) => type_head(text@) == Ok::<TypeHeadSpec, Seq<char>>(head@),
            Err(message) => type_head(text@) == Err::<TypeHeadSpec, Seq<char>>(message@),
        },
{
    match syn::parse_str::<syn::DeriveInput>(text) {
        Err(e) => Err(e.to_string()),
        Ok(item) => {
            let (for_impl, for_type, for_where) = item.generics.split_for_impl();
            Ok(TypeHead {
                ident: item.ident.to_string(),
                impl_generics: for_impl.to_token_stream().to_string(),
                type_generics: for_type.to_token_stream().to_string(),
                where_clause: for_where.to_token_stream().to_string(),
            })
        },
    }
}

} // verus!
