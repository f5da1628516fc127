//! The visitor binder: from the declaration of a visitor to the impl that
//! states what it yields over a family.
//!
//! A visitor is declared as a type of its own, with the arguments
//! `<group>, output = <type>`. The declaration is handed on as it was
//! written, and behind it stands the impl of
//! [`Visitor`](crate::dispatch::Visitor) for the type, with the output
//! type that the arguments name. The visiting logic itself, one impl of
//! [`Visit`](crate::dispatch::Visit) for each node type, is written by
//! hand.

use vstd::prelude::*;
use vstd::string::*;
use crate::clause::{binding_in, binding_of, Binding, BindingSpec};
use crate::error::{text_outcome, DeclError, DeclErrorSpec};
use crate::syntax::{read_type_head, type_head, TypeHead, TypeHeadSpec};
use crate::token::{is_parsable, parsable};

verus! {

/// The declaration `item` of a type with the head `head`, and behind it
/// the impl that binds the type as `binding` says: the parameters with
/// their bounds stand behind `impl`, their names alone behind the type's
/// name, and the `where` clause in front of the body.
pub open spec fn bound(item: Seq<char>, head: TypeHeadSpec, binding: BindingSpec) -> Seq<char> {
    item + "\nimpl "@ + head.impl_generics + " visita::Visitor<"@ + binding.node + "> for "@
        + head.ident + " "@ + head.type_generics + " "@ + head.where_clause
        + " {\n    type Output = "@ + binding.output + ";\n}\n"@
}

/// Writes the declaration `item` of a visitor type, unchanged, and behind
/// it the impl that binds the type to the family and the output of
/// `binding`.
pub fn bind(item: &str, head: &TypeHead, binding: &Binding) -> (text: String)
    ensures
        text@ == bound(item@, head@, binding@),
{
    let mut text = String::from_str(item);
    text.append("\nimpl ");
    text.append(head.impl_generics.as_str());
    text.append(" visita::Visitor<");
    text.append(binding.node.as_str());
    text.append("> for ");
    text.append(head.ident.as_str());
    text.append(" ");
    text.append(head.type_generics.as_str());
    text.append(" ");
    text.append(head.where_clause.as_str());
    text.append(" {\n    type Output = ");
    text.append(binding.output.as_str());
    text.append(";\n}\n");
    text
}

/// What [`visitor`] gives for the arguments `attr` and the item `item`.
/// The item is read first.
pub open spec fn visitor_code(attr: Seq<char>, item: Seq<char>) -> Result<Seq<char>, DeclErrorSpec> {
    if !parsable(item) {
        Err(DeclErrorSpec::Unsupported)
    } else {
        match type_head(item) {
            Err(message) => Err(DeclErrorSpec::Syntax(message)),
            Ok(head) => match binding_in(attr) {
                Err(e) => Err(e),
                Ok(binding) => Ok(bound(item, head, binding)),
            },
        }
    }
}

/// Binds a visitor: `attr` holds the arguments, `<group>, output =
/// <type>`, and `item` the declaration of the visitor's type, a struct, an
/// enum or a union. Gives the declaration with the impl behind it, or the
/// reason why the declaration is refused.
pub fn visitor(attr: &str, item: &str) -> (r: Result<String, DeclError>)
    ensures
        text_outcome(r) == visitor_code(attr@, item@),
{
    if !is_parsable(item) {
        return Err(DeclError::Unsupported);
    }
    let head = match read_type_head(item) {
        Ok(head) => head,
        Err(message) => { return Err(DeclError::Syntax(message)); },
    };
    let binding = match binding_of(attr) {
        Ok(binding) => binding,
        Err(e) => { return Err(e); },
    };
    Ok(bind(item, &head, &binding))
}

/// Binding is repeatable: whatever [`visitor`] gives twice for one
/// declaration is one and the same.
pub proof fn visitor_repeats(
    attr: Seq<char>,
    item: Seq<char>,
    once: Result<String, DeclError>,
    again: Result<String, DeclError>,
)
    requires
        text_outcome(once) == visitor_code(attr, item),
        text_outcome(again) == visitor_code(attr, item),
    ensures
        text_outcome(once) == text_outcome(again),
{
}

} // verus!
