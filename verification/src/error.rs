//! Why a declaration was refused.

use vstd::prelude::*;
use vstd::string::*;

verus! {

/// A declaration that cannot be generated from. Nothing is emitted for it.
#[derive(Debug, Clone, PartialEq, Eq)]
pub enum DeclError {
    /// The text is not what the parser of Rust syntax accepts in this place:
    /// it is no token stream, no enum, no type. Holds the parser's message.
    Syntax(String),
    /// A node-group's arguments do not begin with `data =`.
    MissingData,
    /// A visitor's first argument is no identifier followed by a comma.
    MissingNode,
    /// A visitor's arguments do not go on with `output =`.
    MissingOutput,
    /// The text cannot be handed to the parser: it holds a literal that
    /// the parser cannot classify, or more brackets or deeper nesting than
    /// the parser can be trusted to come back from.
    Unsupported,
}

/// [`DeclError`] as contracts see it.
pub ghost enum DeclErrorSpec {
    Syntax(Seq<char>),
    MissingData,
    MissingNode,
    MissingOutput,
    Unsupported,
}

impl View for DeclError {
    type V = DeclErrorSpec;

    open spec fn view(&self) -> DeclErrorSpec {
        match self {
            DeclError::Syntax(m) => DeclErrorSpec::Syntax(m@),
            DeclError::MissingData => DeclErrorSpec::MissingData,
            DeclError::MissingNode => DeclErrorSpec::MissingNode,
            DeclError::MissingOutput => DeclErrorSpec::MissingOutput,
            DeclError::Unsupported => DeclErrorSpec::Unsupported,
        }
    }
}

/// A text or a refusal, as contracts see it.
pub open spec fn text_outcome(r: Result<String, DeclError>) -> Result<Seq<char>, DeclErrorSpec> {
    match r {
        Ok(text) => Ok(text@),
        Err(e) => Err(e@),
    }
}

impl DeclErrorSpec {
    /// The sentence that [`DeclError::message`] gives.
    pub open spec fn message(self) -> Seq<char> {
        match self {
            DeclErrorSpec::Syntax(m) => "malformed declaration: "@ + m,
            DeclErrorSpec::MissingData => "expected `data = <type>`"@,
            DeclErrorSpec::MissingNode => "expected the name of a node group, then `,`"@,
            DeclErrorSpec::MissingOutput => "expected `output = <type>`"@,
            DeclErrorSpec::Unsupported =>
                "unsupported: a literal of a kind unknown to the parser, or nesting too deep"@,
        }
    }
}

impl DeclError {
    /// A sentence that names the clause that is missing or malformed.
    pub fn message(&self) -> (text: String)
        ensures
            text@ == self@.message(),
    {
        match self {
            DeclError::Syntax(m) => {
                let mut text = String::from_str("malformed declaration: ");
                text.append(m.as_str());
                text
            },
            DeclError::MissingData => String::from_str("expected `data = <type>`"),
            DeclError::MissingNode => String::from_str(
                "expected the name of a node group, then `,`",
            ),
            DeclError::MissingOutput => String::from_str("expected `output = <type>`"),
            DeclError::Unsupported => String::from_str(
                "unsupported: a literal of a kind unknown to the parser, or nesting too deep",
            ),
        }
    }
}

} // verus!
