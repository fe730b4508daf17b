//! A lint for scripts that build user-interface elements with
//! `Roact.createElement`: it checks the class named in each call against a
//! schema of known classes, and every property and event given in the call's
//! table against what that class offers.
//!
//! The lint works on the nodes that a forward traversal of a syntax tree
//! meets, held in the plain types of [`syntax`]. Every function here is
//! verified against a contract over the spec functions of [`model`].

pub mod diagnostic;
pub mod finding;
pub mod laws;
pub mod lint;
pub mod model;
pub mod schema;
pub mod syntax;

pub use crate::diagnostic::{Diagnostic, Label, LintType, Severity};
pub use crate::lint::{IncorrectRoactUsageLint, IncorrectRoactUsageVisitor};
pub use crate::schema::{ClassSchema, Context, RobloxClass};
pub use crate::syntax::Ast;
