//! Parsing JavaScript text with oxc, and the program's tree in the library's
//! own node types.
//!
//! Node kinds the extractors read are converted field by field; every other
//! node keeps only its children, found by oxc's own walk, so that a walk over
//! the converted tree reaches the same nodes in the same order as a walk over
//! oxc's tree.

use vstd::prelude::*;
use crate::js::ast::{Expr, Program, Quasi};
use oxc::allocator::Allocator;
use oxc::ast::ast::{
    Argument, ArrayExpression, ArrayExpressionElement, ArrowFunctionExpression, AssignmentExpression,
    AssignmentTarget, BinaryExpression, BinaryOperator, BindingPattern, CallExpression,
    ComputedMemberExpression, ConditionalExpression, Expression, FormalParameter, FormalParameters,
    Function, FunctionBody, NumericLiteral, ObjectExpression, ObjectProperty, ObjectPropertyKind,
    PropertyKey, Statement, StaticMemberExpression, StringLiteral, TemplateLiteral, VariableDeclarator,
};
use oxc::ast_visit::{walk, Visit};
use oxc::parser::Parser;
use oxc::span::SourceType;

verus! {

#[verifier::external_type_specification]
#[verifier::external_body]
pub struct ExExpression<'a>(Expression<'a>);

#[verifier::external_type_specification]
#[verifier::external_body]
pub struct ExStatement<'a>(Statement<'a>);

#[verifier::external_type_specification]
#[verifier::external_body]
pub struct ExStringLiteral<'a>(StringLiteral<'a>);

#[verifier::external_type_specification]
#[verifier::external_body]
pub struct ExNumericLiteral<'a>(NumericLiteral<'a>);

#[verifier::external_type_specification]
#[verifier::external_body]
pub struct ExTemplateLiteral<'a>(TemplateLiteral<'a>);

#[verifier::external_type_specification]
#[verifier::external_body]
pub struct ExStaticMemberExpression<'a>(StaticMemberExpression<'a>);

#[verifier::external_type_specification]
#[verifier::external_body]
pub struct ExComputedMemberExpression<'a>(ComputedMemberExpression<'a>);

#[verifier::external_type_specification]
#[verifier::external_body]
pub struct ExCallExpression<'a>(CallExpression<'a>);

#[verifier::external_type_specification]
#[verifier::external_body]
pub struct ExBinaryExpression<'a>(BinaryExpression<'a>);

#[verifier::external_type_specification]
#[verifier::external_body]
pub struct ExConditionalExpression<'a>(ConditionalExpression<'a>);

#[verifier::external_type_specification]
#[verifier::external_body]
pub struct ExObjectExpression<'a>(ObjectExpression<'a>);

#[verifier::external_type_specification]
#[verifier::external_body]
pub struct ExObjectProperty<'a>(ObjectProperty<'a>);

#[verifier::external_type_specification]
#[verifier::external_body]
pub struct ExArrayExpression<'a>(ArrayExpression<'a>);

#[verifier::external_type_specification]
#[verifier::external_body]
pub struct ExArrowFunctionExpression<'a>(ArrowFunctionExpression<'a>);

#[verifier::external_type_specification]
#[verifier::external_body]
pub struct ExFunction<'a>(Function<'a>);

#[verifier::external_type_specification]
#[verifier::external_body]
pub struct ExFunctionBody<'a>(FunctionBody<'a>);

#[verifier::external_type_specification]
#[verifier::external_body]
pub struct ExFormalParameters<'a>(FormalParameters<'a>);

#[verifier::external_type_specification]
#[verifier::external_body]
pub struct ExFormalParameter<'a>(FormalParameter<'a>);

#[verifier::external_type_specification]
#[verifier::external_body]
pub struct ExAssignmentExpression<'a>(AssignmentExpression<'a>);

#[verifier::external_type_specification]
#[verifier::external_body]
pub struct ExAssignmentTarget<'a>(AssignmentTarget<'a>);

#[verifier::external_type_specification]
#[verifier::external_body]
pub struct ExArgument<'a>(Argument<'a>);

#[verifier::external_type_specification]
#[verifier::external_body]
pub struct ExPropertyKey<'a>(PropertyKey<'a>);

#[verifier::external_type_specification]
#[verifier::external_body]
pub struct ExBindingPattern<'a>(BindingPattern<'a>);

#[verifier::external_type_specification]
#[verifier::external_body]
pub struct ExVariableDeclarator<'a>(VariableDeclarator<'a>);

/// Why a source could not be analysed.
#[derive(PartialEq, Eq, Structural, Debug, Clone, Copy)]
pub enum ParseError {
    /// The parser gave up on the text.
    ParserPanicked,
}

/// The program that oxc's parser gives for `source_text` (parsed as a script
/// with the parser's default source type), in the library's node types; none
/// where the parser gives up on the text.
pub uninterp spec fn spec_parse_program(source_text: Seq<char>) -> Option<Program>;

/// Parses `source_text` with `oxc::parser::Parser` (default source type) and
/// converts the program's directives and statements into the library's node
/// types; `None` where the parser reports that it panicked. The result is a
/// function of the text alone; what it is for given text is not stated.
#[verifier::external_body]
pub fn parse_program(source_text: &str) -> (res: Option<Program>)
    ensures
        res == spec_parse_program(source_text@),
{
    let allocator = Allocator::default();
    let parsed = Parser::new(&allocator, source_text, SourceType::default()).parse();
    if parsed.panicked {
        return None;
    }
    let mut body: Vec<Expr> = parsed.program.directives.iter().map(|d| string_literal(&d.expression)).collect();
    body.extend(parsed.program.body.iter().map(statement));
    Some(Program { body })
}

/// Collects the children that oxc's walk reaches below a node, each converted.
struct Children {
    out: Vec<Expr>,
}

impl<'a> Visit<'a> for Children {
    #[verifier::external_body]
    fn visit_expression(&mut self, it: &Expression<'a>) {
        self.out.push(expression(it));
    }

    #[verifier::external_body]
    fn visit_statement(&mut self, it: &Statement<'a>) {
        self.out.push(statement(it));
    }

    #[verifier::external_body]
    fn visit_variable_declarator(&mut self, it: &VariableDeclarator<'a>) {
        self.out.push(declarator(it));
    }

    #[verifier::external_body]
    fn visit_formal_parameter(&mut self, it: &FormalParameter<'a>) {
        self.out.push(parameter(it));
    }

    #[verifier::external_body]
    fn visit_string_literal(&mut self, it: &StringLiteral<'a>) {
        self.out.push(string_literal(it));
    }

    #[verifier::external_body]
    fn visit_call_expression(&mut self, it: &CallExpression<'a>) {
        self.out.push(call(it));
    }

    #[verifier::external_body]
    fn visit_object_property(&mut self, it: &ObjectProperty<'a>) {
        self.out.push(property(it));
    }
}

/// An expression of a kind the extractors do not read: only its children.
#[verifier::external_body]
fn other_expression(e: &Expression) -> Expr {
    let mut children = Children { out: Vec::new() };
    walk::walk_expression(&mut children, e);
    Expr::Other { children: children.out }
}

/// A statement of a kind the extractors do not read: only its children.
#[verifier::external_body]
fn other_statement(s: &Statement) -> Expr {
    let mut children = Children { out: Vec::new() };
    walk::walk_statement(&mut children, s);
    Expr::Other { children: children.out }
}

/// A destructuring pattern: only its children.
#[verifier::external_body]
fn other_pattern(p: &BindingPattern) -> Expr {
    let mut children = Children { out: Vec::new() };
    walk::walk_binding_pattern(&mut children, p);
    Expr::Other { children: children.out }
}

/// An assignment target other than a member expression: only its children.
#[verifier::external_body]
fn other_target(t: &AssignmentTarget) -> Expr {
    let mut children = Children { out: Vec::new() };
    walk::walk_assignment_target(&mut children, t);
    Expr::Other { children: children.out }
}

/// A string literal: its source text, where known, and its value.
#[verifier::external_body]
fn string_literal(s: &StringLiteral) -> Expr {
    Expr::StringLiteral { raw: s.raw.as_ref().map(|r| r.to_string()), value: s.value.to_string() }
}

/// A numeric literal: its source text, where known, and its value rounded to an
/// integer as `round` does, printed in decimal.
#[verifier::external_body]
fn numeric_literal(n: &NumericLiteral) -> Expr {
    Expr::NumericLiteral { raw: n.raw.as_ref().map(|r| r.to_string()), rounded: n.value.round().to_string() }
}

/// A template literal: its quasis (raw and cooked text) and its expressions.
#[verifier::external_body]
fn template_literal(t: &TemplateLiteral) -> Expr {
    Expr::TemplateLiteral {
        quasis: t.quasis.iter().map(|q| Quasi {
            raw: q.value.raw.to_string(),
            cooked: q.value.cooked.as_ref().map(|c| c.to_string()),
        }).collect(),
        expressions: t.expressions.iter().map(expression).collect(),
    }
}

/// `object.property`.
#[verifier::external_body]
fn static_member(m: &StaticMemberExpression) -> Expr {
    Expr::StaticMember { object: Box::new(expression(&m.object)), property: m.property.name.to_string() }
}

/// `object[expression]`.
#[verifier::external_body]
fn computed_member(m: &ComputedMemberExpression) -> Expr {
    Expr::ComputedMember { object: Box::new(expression(&m.object)), expression: Box::new(expression(&m.expression)) }
}

/// A call: its callee and arguments.
#[verifier::external_body]
fn call(c: &CallExpression) -> Expr {
    Expr::Call { callee: Box::new(expression(&c.callee)), arguments: c.arguments.iter().map(argument).collect() }
}

/// A binary expression: whether its operator is `+`, and its operands.
#[verifier::external_body]
fn binary(bin: &BinaryExpression) -> Expr {
    let addition = match bin.operator {
        BinaryOperator::Addition => true,
        _ => false,
    };
    Expr::Binary { addition, left: Box::new(expression(&bin.left)), right: Box::new(expression(&bin.right)) }
}

/// `test ? consequent : alternate`.
#[verifier::external_body]
fn conditional(c: &ConditionalExpression) -> Expr {
    Expr::Conditional {
        test: Box::new(expression(&c.test)),
        consequent: Box::new(expression(&c.consequent)),
        alternate: Box::new(expression(&c.alternate)),
    }
}

/// An object literal: its properties and spread elements.
#[verifier::external_body]
fn object(o: &ObjectExpression) -> Expr {
    Expr::Object {
        properties: o.properties.iter().map(|p| match p {
            ObjectPropertyKind::ObjectProperty(p) => property(p),
            ObjectPropertyKind::SpreadProperty(s) => Expr::Spread { argument: Box::new(expression(&s.argument)) },
        }).collect(),
    }
}

/// An array literal: its elements, a hole as a node with no children.
#[verifier::external_body]
fn array(a: &ArrayExpression) -> Expr {
    Expr::Array {
        elements: a.elements.iter().map(|el| match el {
            ArrayExpressionElement::SpreadElement(s) => Expr::Spread { argument: Box::new(expression(&s.argument)) },
            ArrayExpressionElement::Elision(_) => Expr::Other { children: Vec::new() },
            _ => expression(el.to_expression()),
        }).collect(),
    }
}

/// An arrow function: its parameters, and either its expression body or the
/// statements of its block body.
#[verifier::external_body]
fn arrow(arrow: &ArrowFunctionExpression) -> Expr {
    match arrow.get_expression() {
        Some(body) => Expr::Arrow { params: parameters(&arrow.params), is_expression: true, body: vec![expression(body)] },
        None => Expr::Arrow {
            params: parameters(&arrow.params),
            is_expression: false,
            body: arrow.get_function_body().map(function_body).unwrap_or_default(),
        },
    }
}

/// A function expression: its parameters and, where it has a body, the body's
/// statements.
#[verifier::external_body]
fn function(f: &Function) -> Expr {
    Expr::Function { params: parameters(&f.params), statements: f.body.as_ref().map(|body| function_body(body)) }
}

/// `target = right`.
#[verifier::external_body]
fn assignment(a: &AssignmentExpression) -> Expr {
    Expr::Assignment { target: Box::new(assignment_target(&a.left)), right: Box::new(expression(&a.right)) }
}

/// A function body: its directives, as string literals, then its statements.
#[verifier::external_body]
fn function_body(body: &FunctionBody) -> Vec<Expr> {
    let mut out: Vec<Expr> = body.directives.iter().map(|d| string_literal(&d.expression)).collect();
    out.extend(body.statements.iter().map(statement));
    out
}

/// A parameter list: each parameter, then the rest parameter as a node of its
/// children.
#[verifier::external_body]
fn parameters(ps: &FormalParameters) -> Vec<Expr> {
    let mut out: Vec<Expr> = ps.items.iter().map(parameter).collect();
    if let Some(rest) = &ps.rest {
        let mut children = Children { out: Vec::new() };
        children.visit_formal_parameter_rest(rest);
        out.push(Expr::Other { children: children.out });
    }
    out
}

/// A call argument.
#[verifier::external_body]
fn argument(a: &Argument) -> Expr {
    match a {
        Argument::SpreadElement(s) => Expr::Spread { argument: Box::new(expression(&s.argument)) },
        _ => expression(a.to_expression()),
    }
}

/// A property of an object literal: its key and value.
#[verifier::external_body]
fn property(p: &ObjectProperty) -> Expr {
    Expr::Property { key: Box::new(property_key(&p.key)), value: Box::new(expression(&p.value)) }
}

/// A property key: a plain name as an identifier; a computed `[name]` key,
/// which refers to a variable rather than naming the property, as a node of
/// that identifier; a private name as a node with no children.
#[verifier::external_body]
fn property_key(k: &PropertyKey) -> Expr {
    match k {
        PropertyKey::StaticIdentifier(id) => Expr::Identifier { name: id.name.to_string() },
        PropertyKey::PrivateIdentifier(_) => Expr::Other { children: Vec::new() },
        PropertyKey::Identifier(id) => Expr::Other { children: vec![Expr::Identifier { name: id.name.to_string() }] },
        _ => expression(k.to_expression()),
    }
}

/// A binding pattern: a plain name as an identifier, any other pattern as a
/// node of its children.
#[verifier::external_body]
fn binding_pattern(p: &BindingPattern) -> Expr {
    match p {
        BindingPattern::BindingIdentifier(id) => Expr::Identifier { name: id.name.to_string() },
        _ => other_pattern(p),
    }
}

/// A parameter: its pattern and default value.
#[verifier::external_body]
fn parameter(p: &FormalParameter) -> Expr {
    Expr::Param {
        pattern: Box::new(binding_pattern(&p.pattern)),
        initializer: p.initializer.as_ref().map(|i| Box::new(expression(i))),
    }
}

/// A variable declarator: the name it binds (where it binds a plain name), its
/// pattern and its initializer.
#[verifier::external_body]
fn declarator(d: &VariableDeclarator) -> Expr {
    let binding_name = match &d.id {
        BindingPattern::BindingIdentifier(id) => Some(id.name.to_string()),
        _ => None,
    };
    Expr::Declarator { binding_name, pattern: Box::new(binding_pattern(&d.id)), init: d.init.as_ref().map(|i| Box::new(expression(i))) }
}

/// An assignment target: a member expression field by field, any other target
/// as a node of its children.
#[verifier::external_body]
fn assignment_target(t: &AssignmentTarget) -> Expr {
    match t {
        AssignmentTarget::StaticMemberExpression(m) => static_member(m),
        AssignmentTarget::ComputedMemberExpression(m) => computed_member(m),
        _ => other_target(t),
    }
}

/// A statement: an expression statement as its expression, a return statement
/// with what it returns, any other as a node of its children.
#[verifier::external_body]
fn statement(s: &Statement) -> Expr {
    match s {
        Statement::ExpressionStatement(e) => expression(&e.expression),
        Statement::ReturnStatement(r) => Expr::Return { returned: r.argument.as_ref().map(|a| Box::new(expression(a))) },
        _ => other_statement(s),
    }
}

/// An expression: leaves and member, call and binary expressions here, the
/// others in `compound_expression`.
#[verifier::external_body]
fn expression(e: &Expression) -> Expr {
    match e {
        Expression::StringLiteral(s) => string_literal(s),
        Expression::NumericLiteral(n) => numeric_literal(n),
        Expression::TemplateLiteral(t) => template_literal(t),
        Expression::Identifier(id) => Expr::Identifier { name: id.name.to_string() },
        Expression::StaticMemberExpression(m) => static_member(m),
        Expression::ComputedMemberExpression(m) => computed_member(m),
        Expression::CallExpression(c) => call(c),
        Expression::BinaryExpression(bin) => binary(bin),
        _ => compound_expression(e),
    }
}

/// The expressions `expression` leaves: logical, conditional, parenthesized,
/// object, array, function and assignment expressions, and any other kind as a
/// node of its children.
#[verifier::external_body]
fn compound_expression(e: &Expression) -> Expr {
    match e {
        Expression::LogicalExpression(l) => Expr::Logical { left: Box::new(expression(&l.left)), right: Box::new(expression(&l.right)) },
        Expression::ConditionalExpression(c) => conditional(c),
        Expression::ParenthesizedExpression(p) => Expr::Parenthesized { expression: Box::new(expression(&p.expression)) },
        Expression::ObjectExpression(o) => object(o),
        Expression::ArrayExpression(a) => array(a),
        Expression::ArrowFunctionExpression(a) => arrow(a),
        Expression::FunctionExpression(f) => function(f),
        Expression::AssignmentExpression(a) => assignment(a),
        _ => other_expression(e),
    }
}

} // verus!
