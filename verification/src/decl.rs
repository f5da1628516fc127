//! The declaration of a node group, and how it is read.
//!
//! A node group is declared as an enum: the enum's name is the family's,
//! each variant becomes a node type, and the attributes and the visibility
//! written on the enum are carried over to what is generated. The type of
//! the payload stands in the arguments, as `data = <type>`.

use vstd::prelude::*;
use vstd::string::*;
use crate::clause::{payload_in, payload_of};
use crate::error::{DeclError, DeclErrorSpec};
use crate::syntax::{
    enum_parts, EnumPartsSpec, VariantPartsSpec, named_field, read_enum, read_named_field, read_unnamed_field, read_variant,
    read_visibility, unnamed_field, variant_parts, visibility_in,
};
use crate::token::{is_parsable, is_shallow, parsable, shallow};
use crate::visibility::{Visibility, VisibilitySpec};

verus! {

/// How the fields of a variant are written.
#[derive(Debug, Clone, Copy, PartialEq, Eq, Structural)]
pub enum Shape {
    /// `{ name: Type, .. }`
    Named,
    /// `(Type, ..)`
    Unnamed,
    /// No fields.
    Unit,
}

/// One field of a variant.
#[derive(Debug, Clone, PartialEq, Eq)]
pub struct Field {
    /// The attributes written on the field, each as its own text.
    pub attrs: Vec<String>,
    /// The field's name; `None` in a tuple variant.
    pub name: Option<String>,
    /// The field's type.
    pub ty: String,
}

/// [`Field`] as contracts see it.
pub ghost struct FieldSpec {
    pub attrs: Seq<Seq<char>>,
    pub name: Option<Seq<char>>,
    pub ty: Seq<char>,
}

impl View for Field {
    type V = FieldSpec;

    open spec fn view(&self) -> FieldSpec {
        FieldSpec {
            attrs: self.attrs.deep_view(),
            name: match self.name {
                Some(n) => Some(n@),
                None => None,
            },
            ty: self.ty@,
        }
    }
}

impl DeepView for Field {
    type V = FieldSpec;

    open spec fn deep_view(&self) -> FieldSpec {
        self@
    }
}

/// One variant of the declaration: a node type to be.
#[derive(Debug, Clone, PartialEq, Eq)]
pub struct Variant {
    /// The attributes written on the variant, each as its own text.
    pub attrs: Vec<String>,
    pub ident: String,
    pub shape: Shape,
    pub fields: Vec<Field>,
}

/// [`Variant`] as contracts see it.
pub ghost struct VariantSpec {
    pub attrs: Seq<Seq<char>>,
    pub ident: Seq<char>,
    pub shape: Shape,
    pub fields: Seq<FieldSpec>,
}

impl View for Variant {
    type V = VariantSpec;

    open spec fn view(&self) -> VariantSpec {
        VariantSpec {
            attrs: self.attrs.deep_view(),
            ident: self.ident@,
            shape: self.shape,
            fields: self.fields.deep_view(),
        }
    }
}

impl DeepView for Variant {
    type V = VariantSpec;

    open spec fn deep_view(&self) -> VariantSpec {
        self@
    }
}

/// A node group as declared: the family's name, its variants in the order
/// they were written, and the type of the payload.
#[derive(Debug, Clone, PartialEq, Eq)]
pub struct Group {
    /// The attributes written on the enum, each as its own text.
    pub attrs: Vec<String>,
    pub vis: Visibility,
    pub ident: String,
    pub variants: Vec<Variant>,
    /// The type of the payload that every node of the family carries.
    pub payload: String,
}

/// [`Group`] as contracts see it.
pub ghost struct GroupSpec {
    pub attrs: Seq<Seq<char>>,
    pub vis: VisibilitySpec,
    pub ident: Seq<char>,
    pub variants: Seq<VariantSpec>,
    pub payload: Seq<char>,
}

impl View for Group {
    type V = GroupSpec;

    open spec fn view(&self) -> GroupSpec {
        GroupSpec {
            attrs: self.attrs.deep_view(),
            vis: self.vis@,
            ident: self.ident@,
            variants: self.variants.deep_view(),
            payload: self.payload@,
        }
    }
}

/// The field that `text` is in a variant of the shape `shape`.
pub open spec fn field_in(text: Seq<char>, shape: Shape) -> Result<FieldSpec, DeclErrorSpec> {
    if !parsable(text) {
        Err(DeclErrorSpec::Unsupported)
    } else {
        let found = if shape == Shape::Named {
            named_field(text)
        } else {
            unnamed_field(text)
        };
        match found {
            Ok(field) => Ok(field),
            Err(message) => Err(DeclErrorSpec::Syntax(message)),
        }
    }
}

/// The fields that `texts` are, in order, or the refusal of the first that
/// is none.
pub open spec fn fields_in(texts: Seq<Seq<char>>, shape: Shape) -> Result<
    Seq<FieldSpec>,
    DeclErrorSpec,
>
    decreases texts.len(),
{
    if texts.len() == 0 {
        Ok(Seq::empty())
    } else {
        match fields_in(texts.drop_last(), shape) {
            Err(e) => Err(e),
            Ok(fields) => match field_in(texts.last(), shape) {
                Err(e) => Err(e),
                Ok(field) => Ok(fields.push(field)),
            },
        }
    }
}

/// The variant that `text` is.
pub open spec fn variant_in(text: Seq<char>) -> Result<VariantSpec, DeclErrorSpec> {
    if !parsable(text) {
        Err(DeclErrorSpec::Unsupported)
    } else {
        variant_from(variant_parts(text))
    }
}

/// The variant that the parser's parts make, once its fields are read.
pub open spec fn variant_from(parts: Result<VariantPartsSpec, Seq<char>>) -> Result<
    VariantSpec,
    DeclErrorSpec,
> {
    match parts {
        Err(message) => Err(DeclErrorSpec::Syntax(message)),
        Ok(parts) => match fields_in(parts.fields, parts.shape) {
            Err(e) => Err(e),
            Ok(fields) => Ok(
                VariantSpec { attrs: parts.attrs, ident: parts.ident, shape: parts.shape, fields },
            ),
        },
    }
}

/// The variants that `texts` are, in order, or the refusal of the first
/// that is none.
pub open spec fn variants_in(texts: Seq<Seq<char>>) -> Result<Seq<VariantSpec>, DeclErrorSpec>
    decreases texts.len(),
{
    if texts.len() == 0 {
        Ok(Seq::empty())
    } else {
        match variants_in(texts.drop_last()) {
            Err(e) => Err(e),
            Ok(variants) => match variant_in(texts.last()) {
                Err(e) => Err(e),
                Ok(variant) => Ok(variants.push(variant)),
            },
        }
    }
}

/// The node group that the arguments `attr` and the item `item` declare.
/// The arguments are read first.
pub open spec fn group_in(attr: Seq<char>, item: Seq<char>) -> Result<GroupSpec, DeclErrorSpec> {
    match payload_in(attr) {
        Err(e) => Err(e),
        Ok(payload) => if !parsable(item) {
            Err(DeclErrorSpec::Unsupported)
        } else {
            group_from(payload, enum_parts(item))
        },
    }
}

/// The node group that the payload type and the parser's parts of the
/// enum make, once the visibility and the variants are read.
pub open spec fn group_from(payload: Seq<char>, parts: Result<EnumPartsSpec, Seq<char>>) -> Result<
    GroupSpec,
    DeclErrorSpec,
> {
    match parts {
        Err(message) => Err(DeclErrorSpec::Syntax(message)),
        Ok(parts) => if !shallow(parts.vis) {
            Err(DeclErrorSpec::Unsupported)
        } else {
            match visibility_in(parts.vis) {
                Err(message) => Err(DeclErrorSpec::Syntax(message)),
                Ok(vis) => match variants_in(parts.variants) {
                    Err(e) => Err(e),
                    Ok(variants) => Ok(
                        GroupSpec {
                            attrs: parts.attrs,
                            vis,
                            ident: parts.ident,
                            variants,
                            payload,
                        },
                    ),
                },
            }
        },
    }
}

/// A refusal among the first `n` fields is the refusal of them all.
proof fn fields_refusal_stays(texts: Seq<Seq<char>>, shape: Shape, n: int)
    requires
        0 <= n <= texts.len(),
        fields_in(texts.take(n), shape) is Err,
    ensures
        fields_in(texts, shape) == fields_in(texts.take(n), shape),
    decreases texts.len(),
{
    if n == texts.len() {
        assert(texts.take(n) =~= texts);
    } else {
        assert(texts.drop_last().take(n) =~= texts.take(n));
        fields_refusal_stays(texts.drop_last(), shape, n);
    }
}

/// A refusal among the first `n` variants is the refusal of them all.
proof fn variants_refusal_stays(texts: Seq<Seq<char>>, n: int)
    requires
        0 <= n <= texts.len(),
        variants_in(texts.take(n)) is Err,
    ensures
        variants_in(texts) == variants_in(texts.take(n)),
    decreases texts.len(),
{
    if n == texts.len() {
        assert(texts.take(n) =~= texts);
    } else {
        assert(texts.drop_last().take(n) =~= texts.take(n));
        variants_refusal_stays(texts.drop_last(), n);
    }
}

/// Fields or a refusal, as contracts see it.
pub open spec fn fields_outcome(r: Result<Vec<Field>, DeclError>) -> Result<
    Seq<FieldSpec>,
    DeclErrorSpec,
> {
    match r {
        Ok(fields) => Ok(fields.deep_view()),
        Err(e) => Err(e@),
    }
}

/// A variant or a refusal, as contracts see it.
pub open spec fn variant_outcome(r: Result<Variant, DeclError>) -> Result<
    VariantSpec,
    DeclErrorSpec,
> {
    match r {
        Ok(variant) => Ok(variant@),
        Err(e) => Err(e@),
    }
}

/// Variants or a refusal, as contracts see it.
pub open spec fn variants_outcome(r: Result<Vec<Variant>, DeclError>) -> Result<
    Seq<VariantSpec>,
    DeclErrorSpec,
> {
    match r {
        Ok(variants) => Ok(variants.deep_view()),
        Err(e) => Err(e@),
    }
}

/// A node group or a refusal, as contracts see it.
pub open spec fn group_outcome(r: Result<Group, DeclError>) -> Result<GroupSpec, DeclErrorSpec> {
    match r {
        Ok(group) => Ok(group@),
        Err(e) => Err(e@),
    }
}

/// Reads the fields of a variant of the shape `shape`, each from its text.
pub fn fields_of(texts: &Vec<String>, shape: Shape) -> (r: Result<Vec<Field>, DeclError>)
    ensures
        fields_outcome(r) == fields_in(texts.deep_view(), shape),
{
    let ghost all = texts.deep_view();
    let mut fields: Vec<Field> = Vec::new();
    let mut i: usize = 0;
    assert(fields.deep_view() =~= Seq::<FieldSpec>::empty());
    while i < texts.len()
        invariant
            i <= texts.len(),
            all == texts.deep_view(),
            fields_in(all.take(i as int), shape) == Ok::<Seq<FieldSpec>, DeclErrorSpec>(
                fields.deep_view(),
            ),
        decreases texts.len() - i,
    {
        proof {
            assert(all.take(i + 1).drop_last() =~= all.take(i as int));
            assert(all[i as int] == texts[i as int]@);
        }
        if !is_parsable(texts[i].as_str()) {
            proof {
                fields_refusal_stays(all, shape, i + 1);
            }
            return Err(DeclError::Unsupported);
        }
        let found = match shape {
            Shape::Named => read_named_field(texts[i].as_str()),
            _ => read_unnamed_field(texts[i].as_str()),
        };
        match found {
            Ok(field) => {
                let ghost before = fields.deep_view();
                let ghost added = field@;
                fields.push(field);
                assert(fields.deep_view() =~= before.push(added));
            },
            Err(message) => {
                proof {
                    fields_refusal_stays(all, shape, i + 1);
                }
                return Err(DeclError::Syntax(message));
            },
        }
        i = i + 1;
    }
    proof {
        assert(all.take(texts.len() as int) =~= all);
    }
    Ok(fields)
}

/// Reads one variant from its text.
pub fn variant_of(text: &str) -> (r: Result<Variant, DeclError>)
    ensures
        variant_outcome(r) == variant_in(text@),
{
    if !is_parsable(text) {
        return Err(DeclError::Unsupported);
    }
    let parts = match read_variant(text) {
        Ok(parts) => parts,
        Err(message) => { return Err(DeclError::Syntax(message)); },
    };
    let fields = match fields_of(&parts.fields, parts.shape) {
        Ok(fields) => fields,
        Err(e) => { return Err(e); },
    };
    Ok(Variant { attrs: parts.attrs, ident: parts.ident, shape: parts.shape, fields })
}

/// Reads the variants of an enum, each from its text.
pub fn variants_of(texts: &Vec<String>) -> (r: Result<Vec<Variant>, DeclError>)
    ensures
        variants_outcome(r) == variants_in(texts.deep_view()),
{
    let ghost all = texts.deep_view();
    let mut variants: Vec<Variant> = Vec::new();
    let mut i: usize = 0;
    assert(variants.deep_view() =~= Seq::<VariantSpec>::empty());
    while i < texts.len()
        invariant
            i <= texts.len(),
            all == texts.deep_view(),
            variants_in(all.take(i as int)) == Ok::<Seq<VariantSpec>, DeclErrorSpec>(
                variants.deep_view(),
            ),
        decreases texts.len() - i,
    {
        proof {
            assert(all.take(i + 1).drop_last() =~= all.take(i as int));
            assert(all[i as int] == texts[i as int]@);
        }
        match variant_of(texts[i].as_str()) {
            Ok(variant) => {
                let ghost before = variants.deep_view();
                let ghost added = variant@;
                variants.push(variant);
                assert(variants.deep_view() =~= before.push(added));
            },
            Err(e) => {
                proof {
                    variants_refusal_stays(all, i + 1);
                }
                return Err(e);
            },
        }
        i = i + 1;
    }
    proof {
        assert(all.take(texts.len() as int) =~= all);
    }
    Ok(variants)
}

/// Reads the declaration of a node group: its arguments `attr`, which must
/// be `data = <type>`, and the item `item`, which must be an enum.
pub fn group_of(attr: &str, item: &str) -> (r: Result<Group, DeclError>)
    ensures
        group_outcome(r) == group_in(attr@, item@),
{
    let payload = match payload_of(attr) {
        Ok(payload) => payload,
        Err(e) => { return Err(e); },
    };
    if !is_parsable(item) {
        return Err(DeclError::Unsupported);
    }
    let parts = match read_enum(item) {
        Ok(parts) => parts,
        Err(message) => { return Err(DeclError::Syntax(message)); },
    };
    if !is_shallow(parts.vis.as_str()) {
        return Err(DeclError::Unsupported);
    }
    let vis = match read_visibility(parts.vis.as_str()) {
        Ok(vis) => vis,
        Err(message) => { return Err(DeclError::Syntax(message)); },
    };
    let variants = match variants_of(&parts.variants) {
        Ok(variants) => variants,
        Err(e) => { return Err(e); },
    };
    Ok(Group { attrs: parts.attrs, vis, ident: parts.ident, variants, payload })
}

} // verus!
