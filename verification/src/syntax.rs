//! The parts of a syntax tree that the lint reads.
//!
//! A tree is given as the sequence of its function calls and local
//! assignments, in the order in which a forward traversal meets them. Each
//! node keeps only what the lint looks at: names with their text and source
//! range, string literals, table fields, and the shape of prefixes and
//! suffixes. Everything else is `Other`.

use vstd::prelude::*;
use vstd::string::StringExecFns;

verus! {

/// A half-open span of byte offsets into the source text.
pub type Range = (usize, usize);

/// An identifier as it stands in the source.
#[derive(Debug)]
pub struct Name {
    pub text: String,
    pub range: Range,
}

impl Name {
    /// Whether the name reads `text`.
    pub fn reads(&self, text: &str) -> (same: bool)
        ensures
            same == (self.text@ == text@),
    {
        let wanted = String::from_str(text);
        self.text == wanted
    }
}

/// A string literal: its contents without the quotation marks, and the span
/// of the whole token.
#[derive(Debug)]
pub struct StringLiteral {
    pub literal: String,
    pub range: Range,
}

/// What an indexing or a call starts from.
#[derive(Debug)]
pub enum Prefix {
    /// A bare name, such as `Roact`.
    Name(Name),
    /// A parenthesised expression, such as `(Roact)`.
    Expression,
}

/// One step after a prefix.
#[derive(Debug)]
pub enum Suffix {
    /// `.name`
    DotIndex { name: Name },
    /// `(arguments)`
    Call { arguments: Vec<Expression> },
    /// A bracket index, a method call, or a call with a string or a table in
    /// place of the parentheses.
    Other,
}

/// An expression, as far as the lint tells expressions apart.
#[derive(Debug)]
pub enum Expression {
    /// `(expression)`
    Parentheses(Box<Expression>),
    /// `"literal"`
    String(StringLiteral),
    /// `{ fields }`
    TableConstructor { fields: Vec<Field> },
    /// A name, possibly indexed or called: `x`, `x.y`, `x.y(z)`.
    Var { prefix: Prefix, suffixes: Vec<Suffix> },
    /// Any other expression.
    Other,
}

/// An entry of a table constructor.
#[allow(inconsistent_fields)]
#[derive(Debug)]
pub enum Field {
    /// `[key] = value`; `brackets` spans from `[` to `]`.
    ExpressionKey { brackets: Range, key: Expression },
    /// `key = value`
    NameKey { key: Name },
    /// `value`
    NoKey,
}

/// A call such as `Roact.createElement("Frame", {})`: the last suffix is the
/// call itself, the ones before it lead to what is called.
#[derive(Debug)]
pub struct FunctionCall {
    pub prefix: Prefix,
    pub suffixes: Vec<Suffix>,
}

/// `local names = expressions`
#[derive(Debug)]
pub struct LocalAssignment {
    pub names: Vec<Name>,
    pub expressions: Vec<Expression>,
}

/// A node that the traversal hands to the lint.
#[derive(Debug)]
pub enum Node {
    FunctionCall(FunctionCall),
    LocalAssignment(LocalAssignment),
}

/// The nodes of one syntax tree, in traversal order.
#[derive(Debug)]
pub struct Ast {
    pub nodes: Vec<Node>,
}

/// The expression inside any number of surrounding parentheses.
pub open spec fn spec_strip_parentheses(expression: Expression) -> Expression
    decreases expression,
{
    match expression {
        Expression::Parentheses(inner) => spec_strip_parentheses(*inner),
        _ => expression,
    }
}

/// Removes the parentheses around an expression, however many there are.
pub fn strip_parentheses(expression: &Expression) -> (stripped: &Expression)
    ensures
        *stripped == spec_strip_parentheses(*expression),
        !(*stripped is Parentheses),
    decreases *expression,
{
    match expression {
        Expression::Parentheses(inner) => strip_parentheses(&**inner),
        _ => expression,
    }
}

} // verus!
