//! Double dispatch over closed families of node types, and the generator
//! that writes a family's types and trait wiring from its declaration.
//!
//! A family is declared as an enum together with the type of the payload
//! that every node of it carries. [`node_group`] turns that declaration
//! into one type per variant, a private container, the family type and the
//! dispatch that routes a visitor to the variant a value holds. [`visitor`]
//! binds a visitor type to the output it yields over a family. The traits of
//! [`dispatch`] are what the generated code implements.

pub mod clause;
pub mod decl;
pub mod dispatch;
pub mod error;
pub mod node_group;
pub mod syntax;
pub mod text;
pub mod token;
pub mod visibility;
pub mod visitor;

pub use crate::dispatch::{traverse, Data, Member, Node, NodeFamily, Visit, Visitor};
pub use crate::error::DeclError;
pub use crate::node_group::node_group;
pub use crate::visitor::visitor;
