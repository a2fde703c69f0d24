//! The shape of a parsed JavaScript program that the extractors read: the
//! node kinds they look at, with the fields they use, plus a catch-all node
//! that keeps only the children, in source order, of every other node kind.
//! Statements and expressions share one type; an expression statement is
//! represented by its expression.

use vstd::prelude::*;

verus! {

/// One literal text segment of a template literal.
pub struct Quasi {
    /// The segment as written in the source.
    pub raw: String,
    /// The segment with escapes processed; absent where an escape is invalid.
    pub cooked: Option<String>,
}

/// A node of a parsed program.
#[allow(inconsistent_fields)]
pub enum Expr {
    /// A string literal: its source text (quotes included) where known, and its value.
    StringLiteral { raw: Option<String>, value: String },
    /// A numeric literal: its source text where known, and its value rounded to
    /// an integer and printed in decimal.
    NumericLiteral { raw: Option<String>, rounded: String },
    /// A template literal: its text segments and its interpolated expressions.
    TemplateLiteral { quasis: Vec<Quasi>, expressions: Vec<Expr> },
    /// A name: a variable reference, a bound name, or a non-computed property
    /// key (a computed `[name]` key is an `Other` node holding the reference).
    Identifier { name: String },
    /// `object.property`
    StaticMember { object: Box<Expr>, property: String },
    /// `object[expression]`
    ComputedMember { object: Box<Expr>, expression: Box<Expr> },
    /// `callee(arguments...)`
    Call { callee: Box<Expr>, arguments: Vec<Expr> },
    /// A binary operation; `addition` tells `+` from every other operator.
    Binary { addition: bool, left: Box<Expr>, right: Box<Expr> },
    /// `left || right`, `left && right` or `left ?? right`
    Logical { left: Box<Expr>, right: Box<Expr> },
    /// `test ? consequent : alternate`
    Conditional { test: Box<Expr>, consequent: Box<Expr>, alternate: Box<Expr> },
    /// `(expression)`
    Parenthesized { expression: Box<Expr> },
    /// An object literal; its members are `Property` nodes or spreads.
    Object { properties: Vec<Expr> },
    /// `key: value` inside an object literal (also a method or accessor, whose
    /// value is the function).
    Property { key: Box<Expr>, value: Box<Expr> },
    /// An array literal; holes are `Other` nodes with no children.
    Array { elements: Vec<Expr> },
    /// An arrow function. Where `is_expression` holds, its body was a single
    /// expression, which is the only element of `body`.
    Arrow { params: Vec<Expr>, is_expression: bool, body: Vec<Expr> },
    /// A function expression, with its body's statements where it has a body.
    Function { params: Vec<Expr>, statements: Option<Vec<Expr>> },
    /// A formal parameter: its binding pattern and its default value, if any.
    Param { pattern: Box<Expr>, initializer: Option<Box<Expr>> },
    /// `target = right`; a member target is a `StaticMember` or `ComputedMember` node.
    Assignment { target: Box<Expr>, right: Box<Expr> },
    /// `return returned`
    Return { returned: Option<Box<Expr>> },
    /// One declarator of a variable declaration: the declared name where the
    /// binding is a plain identifier, the binding pattern, and the initializer.
    Declarator { binding_name: Option<String>, pattern: Box<Expr>, init: Option<Box<Expr>> },
    /// `...argument`
    Spread { argument: Box<Expr> },
    /// Any other node: its children in source order.
    Other { children: Vec<Expr> },
}

/// A whole program: its top-level statements.
pub struct Program {
    pub body: Vec<Expr>,
}

} // verus!
