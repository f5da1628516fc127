//! The arguments of the two declarations.
//!
//! A node group is declared with `data = <type>`, the type of the payload
//! that its nodes carry. A visitor is declared with `<group>, output =
//! <type>`, the family it is bound to and the type it yields. The clauses
//! are read off the argument's tokens; what follows `=` must be a type.

use vstd::prelude::*;
use vstd::string::*;
use crate::error::{text_outcome, DeclError, DeclErrorSpec};
use crate::syntax::{is_identifier, read_identifier, read_type, type_text};
use crate::token::{
    has_mark, has_word, is_parsable, is_shallow, mark_at, parsable, shallow, spell, spelled_from,
    tokens_in, tokens_of, word_at, Token, TokenKind, TokenSpec,
};

verus! {

/// Whether the tokens begin with `data =`.
pub open spec fn opens_data(tokens: Seq<TokenSpec>) -> bool {
    word_at(tokens, 0, "data"@) && mark_at(tokens, 1, "="@)
}

/// What a node group's arguments say of the payload: the text of the
/// tokens behind `data =`.
pub open spec fn data_clause_in(tokens: Seq<TokenSpec>) -> Result<Seq<char>, DeclErrorSpec> {
    if opens_data(tokens) {
        Ok(spelled_from(tokens, 2))
    } else {
        Err(DeclErrorSpec::MissingData)
    }
}

/// Reads `data = ..` off the tokens of a node group's arguments and gives
/// the text behind `=`, which is still to be parsed as a type.
pub fn data_clause(tokens: &Vec<Token>) -> (r: Result<String, DeclError>)
    ensures
        text_outcome(r) == data_clause_in(tokens.deep_view()),
{
    if has_word(tokens, 0, "data") && has_mark(tokens, 1, "=") {
        Ok(spell(tokens, 2))
    } else {
        Err(DeclError::MissingData)
    }
}

/// The payload type that the arguments `attr` of a node group declare.
pub open spec fn payload_in(attr: Seq<char>) -> Result<Seq<char>, DeclErrorSpec> {
    match tokens_in(attr) {
        Err(e) => Err(e),
        Ok(tokens) => match data_clause_in(tokens) {
            Err(e) => Err(e),
            Ok(text) => if !parsable(text) {
                Err(DeclErrorSpec::Unsupported)
            } else {
                match type_text(text) {
                    Ok(ty) => Ok(ty),
                    Err(message) => Err(DeclErrorSpec::Syntax(message)),
                }
            },
        },
    }
}

/// Reads the arguments of a node group: `data = <type>`. Gives the type.
pub fn payload_of(attr: &str) -> (r: Result<String, DeclError>)
    ensures
        text_outcome(r) == payload_in(attr@),
{
    let tokens = match tokens_of(attr) {
        Ok(tokens) => tokens,
        Err(e) => { return Err(e); },
    };
    let text = match data_clause(&tokens) {
        Ok(text) => text,
        Err(e) => { return Err(e); },
    };
    if !is_parsable(text.as_str()) {
        return Err(DeclError::Unsupported);
    }
    match read_type(text.as_str()) {
        Ok(ty) => Ok(ty),
        Err(message) => Err(DeclError::Syntax(message)),
    }
}

/// What a visitor's arguments bind: the family it visits and the type it
/// yields.
#[derive(Debug, Clone, PartialEq, Eq)]
pub struct Binding {
    pub node: String,
    pub output: String,
}

/// [`Binding`] as contracts see it.
pub ghost struct BindingSpec {
    pub node: Seq<char>,
    pub output: Seq<char>,
}

impl View for Binding {
    type V = BindingSpec;

    open spec fn view(&self) -> BindingSpec {
        BindingSpec { node: self.node@, output: self.output@ }
    }
}

/// A binding or a refusal, as contracts see it.
pub open spec fn binding_outcome(r: Result<Binding, DeclError>) -> Result<
    BindingSpec,
    DeclErrorSpec,
> {
    match r {
        Ok(binding) => Ok(binding@),
        Err(e) => Err(e@),
    }
}

/// Whether the tokens begin with a name and a comma.
pub open spec fn opens_node(tokens: Seq<TokenSpec>) -> bool {
    0 < tokens.len() && tokens[0].kind == TokenKind::Ident && mark_at(tokens, 1, ","@)
}

/// Whether the tokens go on, behind the name and the comma, with `output =`.
pub open spec fn opens_output(tokens: Seq<TokenSpec>) -> bool {
    word_at(tokens, 2, "output"@) && mark_at(tokens, 3, "="@)
}

/// What a visitor's arguments say: the name in front of the comma, and the
/// text of the tokens behind `output =`.
pub open spec fn visitor_clause_in(tokens: Seq<TokenSpec>) -> Result<BindingSpec, DeclErrorSpec> {
    if !opens_node(tokens) {
        Err(DeclErrorSpec::MissingNode)
    } else if !opens_output(tokens) {
        Err(DeclErrorSpec::MissingOutput)
    } else {
        Ok(BindingSpec { node: tokens[0].text, output: spelled_from(tokens, 4) })
    }
}

/// Reads `<name>, output = ..` off the tokens of a visitor's arguments. The
/// name is still to be checked against the keywords, and the text behind
/// `=` is still to be parsed as a type.
pub fn visitor_clause(tokens: &Vec<Token>) -> (r: Result<Binding, DeclError>)
    ensures
        binding_outcome(r) == visitor_clause_in(tokens.deep_view()),
{
    if tokens.len() == 0 {
        return Err(DeclError::MissingNode);
    }
    assert(tokens.deep_view()[0] == tokens[0]@);
    if !(tokens[0].kind == TokenKind::Ident && has_mark(tokens, 1, ",")) {
        return Err(DeclError::MissingNode);
    }
    if !(has_word(tokens, 2, "output") && has_mark(tokens, 3, "=")) {
        return Err(DeclError::MissingOutput);
    }
    Ok(Binding { node: tokens[0].text.clone(), output: spell(tokens, 4) })
}

/// The binding that the arguments `attr` of a visitor declare.
pub open spec fn binding_in(attr: Seq<char>) -> Result<BindingSpec, DeclErrorSpec> {
    match tokens_in(attr) {
        Err(e) => Err(e),
        Ok(tokens) => match visitor_clause_in(tokens) {
            Err(e) => Err(e),
            Ok(clause) => if !shallow(clause.node) {
                Err(DeclErrorSpec::Unsupported)
            } else if !is_identifier(clause.node) {
                Err(DeclErrorSpec::MissingNode)
            } else if !parsable(clause.output) {
                Err(DeclErrorSpec::Unsupported)
            } else {
                match type_text(clause.output) {
                    Ok(ty) => Ok(BindingSpec { node: clause.node, output: ty }),
                    Err(message) => Err(DeclErrorSpec::Syntax(message)),
                }
            },
        },
    }
}

/// Reads the arguments of a visitor: `<group>, output = <type>`.
pub fn binding_of(attr: &str) -> (r: Result<Binding, DeclError>)
    ensures
        binding_outcome(r) == binding_in(attr@),
{
    let tokens = match tokens_of(attr) {
        Ok(tokens) => tokens,
        Err(e) => { return Err(e); },
    };
    let clause = match visitor_clause(&tokens) {
        Ok(clause) => clause,
        Err(e) => { return Err(e); },
    };
    if !is_shallow(clause.node.as_str()) {
        return Err(DeclError::Unsupported);
    }
    if !read_identifier(clause.node.as_str()) {
        return Err(DeclError::MissingNode);
    }
    if !is_parsable(clause.output.as_str()) {
        return Err(DeclError::Unsupported);
    }
    match read_type(clause.output.as_str()) {
        Ok(ty) => Ok(Binding { node: clause.node, output: ty }),
        Err(message) => Err(DeclError::Syntax(message)),
    }
}

} // verus!
