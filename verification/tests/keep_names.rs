//! The name-preservation analysis, exercised on hand-built trees that mirror
//! what the parser and resolver produce for small programs.

use semantic_names::ast::{
    AssignmentTarget, AssignmentTargetProperty, AstKind, BindingPatternKind, Expression,
};
use semantic_names::ids::{ReferenceId, SymbolId};
use semantic_names::keep_names::collect_name_symbols;
use semantic_names::node::AstNodes;
use semantic_names::scoping::Scoping;

fn anon_function() -> Expression {
    Expression::FunctionExpression { has_name: false }
}

fn arrow() -> Expression {
    Expression::ArrowFunctionExpression
}

fn anon_class() -> Expression {
    Expression::ClassExpression { has_name: false }
}

/// `function foo() {}` or `class Foo {}`: a program whose only child is the
/// declaration carrying the symbol's own identifier.
fn build_declaration(kind_of: impl Fn(SymbolId) -> AstKind) -> (AstNodes, Scoping, SymbolId) {
    let mut nodes = AstNodes::default();
    let program = nodes.add_program_node(AstKind::Program, 0, 0, 0);
    let decl = nodes.add_node(kind_of(0), 0, program, 0, 0);
    let mut scoping = Scoping::new();
    let symbol = scoping.add_symbol(decl);
    (nodes, scoping, symbol)
}

/// `var <pattern> = <init>`: a program whose only child is one declarator.
fn build_declarator(
    pattern: BindingPatternKind,
    init: Option<Expression>,
) -> (AstNodes, Scoping, SymbolId) {
    build_declaration(|_| AstKind::VariableDeclarator { id: pattern_clone(&pattern), init })
}

fn pattern_clone(pattern: &BindingPatternKind) -> BindingPatternKind {
    match pattern {
        BindingPatternKind::BindingIdentifier { symbol } => {
            BindingPatternKind::BindingIdentifier { symbol: *symbol }
        }
        BindingPatternKind::ObjectPattern { properties } => BindingPatternKind::ObjectPattern {
            properties: properties.iter().map(pattern_clone).collect(),
        },
        BindingPatternKind::ArrayPattern { elements } => BindingPatternKind::ArrayPattern {
            elements: elements.iter().map(|e| e.as_ref().map(pattern_clone)).collect(),
        },
        BindingPatternKind::AssignmentPattern { left, right } => {
            BindingPatternKind::AssignmentPattern {
                left: Box::new(pattern_clone(left)),
                right: *right,
            }
        }
    }
}

/// `var foo; foo <op>= <right>`: a declarator without initializer, then the
/// node chain of an assignment whose direct target is the use of `foo`
/// (plain `=` and the compound logical forms produce the same chain).
fn build_simple_assign(right: Expression) -> (AstNodes, Scoping, SymbolId) {
    let mut nodes = AstNodes::default();
    let program = nodes.add_program_node(AstKind::Program, 0, 0, 0);
    let decl = nodes.add_node(
        AstKind::VariableDeclarator {
            id: BindingPatternKind::BindingIdentifier { symbol: 0 },
            init: None,
        },
        0,
        program,
        0,
        0,
    );
    let reference: ReferenceId = 0;
    let assign = nodes.add_node(
        AstKind::AssignmentExpression {
            left: AssignmentTarget::AssignmentTargetIdentifier { reference },
            right,
        },
        0,
        program,
        0,
        0,
    );
    let target = nodes.add_node(AstKind::AssignmentTarget, 0, assign, 0, 0);
    let simple = nodes.add_node(AstKind::SimpleAssignmentTarget, 0, target, 0, 0);
    let ident = nodes.add_node(AstKind::IdentifierReference { reference: Some(reference) }, 0, simple, 0, 0);
    let mut scoping = Scoping::new();
    let symbol = scoping.add_symbol(decl);
    let r = scoping.add_reference(ident);
    scoping.add_resolved_reference(symbol, r);
    (nodes, scoping, symbol)
}

/// `var foo; [foo = <init>] = []`: a declarator without initializer, then
/// the node chain of a default-valued assignment target binding the use of
/// `foo`.
fn build_default_assign(init: Expression) -> (AstNodes, Scoping, SymbolId) {
    let mut nodes = AstNodes::default();
    let program = nodes.add_program_node(AstKind::Program, 0, 0, 0);
    let decl = nodes.add_node(
        AstKind::VariableDeclarator {
            id: BindingPatternKind::BindingIdentifier { symbol: 0 },
            init: None,
        },
        0,
        program,
        0,
        0,
    );
    let reference: ReferenceId = 0;
    let array_target = nodes.add_node(AstKind::Other, 0, program, 0, 0);
    let with_default = nodes.add_node(
        AstKind::AssignmentTargetWithDefault {
            binding: AssignmentTarget::AssignmentTargetIdentifier { reference },
            init,
        },
        0,
        array_target,
        0,
        0,
    );
    let target = nodes.add_node(AstKind::AssignmentTarget, 0, with_default, 0, 0);
    let simple = nodes.add_node(AstKind::SimpleAssignmentTarget, 0, target, 0, 0);
    let ident = nodes.add_node(AstKind::IdentifierReference { reference: Some(reference) }, 0, simple, 0, 0);
    let mut scoping = Scoping::new();
    let symbol = scoping.add_symbol(decl);
    let r = scoping.add_reference(ident);
    scoping.add_resolved_reference(symbol, r);
    (nodes, scoping, symbol)
}

/// `var foo; ({ foo = <init> } = {})`: the shorthand object assignment
/// target with a default.
fn build_object_default_assign(init: Expression) -> (AstNodes, Scoping, SymbolId) {
    let mut nodes = AstNodes::default();
    let program = nodes.add_program_node(AstKind::Program, 0, 0, 0);
    let decl = nodes.add_node(
        AstKind::VariableDeclarator {
            id: BindingPatternKind::BindingIdentifier { symbol: 0 },
            init: None,
        },
        0,
        program,
        0,
        0,
    );
    let reference: ReferenceId = 0;
    let object_target = nodes.add_node(
        AstKind::ObjectAssignmentTarget {
            properties: vec![AssignmentTargetProperty::AssignmentTargetPropertyIdentifier {
                binding: reference,
                init: Some(init),
            }],
        },
        0,
        program,
        0,
        0,
    );
    let ident = nodes.add_node(AstKind::IdentifierReference { reference: Some(reference) }, 0, object_target, 0, 0);
    let mut scoping = Scoping::new();
    let symbol = scoping.add_symbol(decl);
    let r = scoping.add_reference(ident);
    scoping.add_resolved_reference(symbol, r);
    (nodes, scoping, symbol)
}

/// `for (var foo = <init> in []) {}`: the declarator stands under the loop
/// construct instead of directly under the program.
fn build_for_in_declaration(init: Expression) -> (AstNodes, Scoping, SymbolId) {
    let mut nodes = AstNodes::default();
    let program = nodes.add_program_node(AstKind::Program, 0, 0, 0);
    let for_in = nodes.add_node(AstKind::Other, 0, program, 0, 0);
    let var_decl = nodes.add_node(AstKind::Other, 0, for_in, 0, 0);
    let decl = nodes.add_node(
        AstKind::VariableDeclarator {
            id: BindingPatternKind::BindingIdentifier { symbol: 0 },
            init: Some(init),
        },
        0,
        var_decl,
        0,
        0,
    );
    let mut scoping = Scoping::new();
    let symbol = scoping.add_symbol(decl);
    (nodes, scoping, symbol)
}

fn preserves(nodes: &AstNodes, scoping: &Scoping, symbol: SymbolId) -> bool {
    let set = collect_name_symbols(scoping, nodes);
    set.contains(&symbol)
}

#[test]
fn test_declarations() {
    // function foo() {}
    let (nodes, scoping, foo) = build_declaration(|s| AstKind::Function { id: Some(s) });
    let set = collect_name_symbols(&scoping, &nodes);
    assert_eq!(set.len(), 1);
    assert!(set.contains(&foo));
    // class Foo {}
    let (nodes, scoping, foo) = build_declaration(|s| AstKind::Class { id: Some(s) });
    let set = collect_name_symbols(&scoping, &nodes);
    assert_eq!(set.len(), 1);
    assert!(set.contains(&foo));
}

#[test]
fn test_simple_declare_init() {
    // var foo = function() {}
    let ident = BindingPatternKind::BindingIdentifier { symbol: 0 };
    let (nodes, scoping, foo) = build_declarator(pattern_clone(&ident), Some(anon_function()));
    assert!(preserves(&nodes, &scoping, foo));
    // var foo = () => {}
    let (nodes, scoping, foo) = build_declarator(pattern_clone(&ident), Some(arrow()));
    assert!(preserves(&nodes, &scoping, foo));
    // var Foo = class {}
    let (nodes, scoping, foo) = build_declarator(pattern_clone(&ident), Some(anon_class()));
    assert!(preserves(&nodes, &scoping, foo));
}

#[test]
fn test_simple_assign() {
    // var foo; foo = function() {}
    let (nodes, scoping, foo) = build_simple_assign(anon_function());
    assert!(preserves(&nodes, &scoping, foo));
    // var foo; foo = () => {}
    let (nodes, scoping, foo) = build_simple_assign(arrow());
    assert!(preserves(&nodes, &scoping, foo));
    // var Foo; Foo = class {}
    let (nodes, scoping, foo) = build_simple_assign(anon_class());
    assert!(preserves(&nodes, &scoping, foo));
    // var foo; foo ||= function() {} — the compound logical assignments
    // lower to the same assignment-expression chain
    let (nodes, scoping, foo) = build_simple_assign(anon_function());
    assert!(preserves(&nodes, &scoping, foo));
    // var foo = 1; foo &&= function() {}
    let (nodes, scoping, foo) = build_simple_assign(anon_function());
    assert!(preserves(&nodes, &scoping, foo));
    // var foo; foo ??= function() {}
    let (nodes, scoping, foo) = build_simple_assign(anon_function());
    assert!(preserves(&nodes, &scoping, foo));
}

#[test]
fn test_default_declarations() {
    // var [foo = function() {}] = []
    let array_default = |init: Expression| BindingPatternKind::ArrayPattern {
        elements: vec![Some(BindingPatternKind::AssignmentPattern {
            left: Box::new(BindingPatternKind::BindingIdentifier { symbol: 0 }),
            right: init,
        })],
    };
    let (nodes, scoping, foo) =
        build_declarator(array_default(anon_function()), Some(Expression::Other));
    assert!(preserves(&nodes, &scoping, foo));
    // var [foo = () => {}] = []
    let (nodes, scoping, foo) = build_declarator(array_default(arrow()), Some(Expression::Other));
    assert!(preserves(&nodes, &scoping, foo));
    // var [Foo = class {}] = []
    let (nodes, scoping, foo) =
        build_declarator(array_default(anon_class()), Some(Expression::Other));
    assert!(preserves(&nodes, &scoping, foo));
    // var { foo = function() {} } = {}
    let object_default = BindingPatternKind::ObjectPattern {
        properties: vec![BindingPatternKind::AssignmentPattern {
            left: Box::new(BindingPatternKind::BindingIdentifier { symbol: 0 }),
            right: anon_function(),
        }],
    };
    let (nodes, scoping, foo) = build_declarator(object_default, Some(Expression::Other));
    assert!(preserves(&nodes, &scoping, foo));
}

#[test]
fn test_default_assign() {
    // var foo; [foo = function() {}] = []
    let (nodes, scoping, foo) = build_default_assign(anon_function());
    assert!(preserves(&nodes, &scoping, foo));
    // var foo; [foo = () => {}] = []
    let (nodes, scoping, foo) = build_default_assign(arrow());
    assert!(preserves(&nodes, &scoping, foo));
    // var Foo; [Foo = class {}] = []
    let (nodes, scoping, foo) = build_default_assign(anon_class());
    assert!(preserves(&nodes, &scoping, foo));
    // var foo; ({ foo = function() {} } = {})
    let (nodes, scoping, foo) = build_object_default_assign(anon_function());
    assert!(preserves(&nodes, &scoping, foo));
}

#[test]
fn test_for_in_declaration() {
    // for (var foo = function() {} in []) {}
    let (nodes, scoping, foo) = build_for_in_declaration(anon_function());
    assert!(preserves(&nodes, &scoping, foo));
    // for (var foo = () => {} in []) {}
    let (nodes, scoping, foo) = build_for_in_declaration(arrow());
    assert!(preserves(&nodes, &scoping, foo));
    // for (var Foo = class {} in []) {}
    let (nodes, scoping, foo) = build_for_in_declaration(anon_class());
    assert!(preserves(&nodes, &scoping, foo));
}

#[test]
fn test_named_expression_not_preserved() {
    // var foo = function named() {} — the expression's own name wins
    let ident = BindingPatternKind::BindingIdentifier { symbol: 0 };
    let (nodes, scoping, foo) = build_declarator(
        pattern_clone(&ident),
        Some(Expression::FunctionExpression { has_name: true }),
    );
    assert!(!preserves(&nodes, &scoping, foo));
    // var Foo = class Named {}
    let (nodes, scoping, foo) = build_declarator(
        pattern_clone(&ident),
        Some(Expression::ClassExpression { has_name: true }),
    );
    assert!(!preserves(&nodes, &scoping, foo));
}

#[test]
fn test_negative_cases() {
    // var foo = 1
    let ident = BindingPatternKind::BindingIdentifier { symbol: 0 };
    let (nodes, scoping, foo) = build_declarator(pattern_clone(&ident), Some(Expression::Other));
    let set = collect_name_symbols(&scoping, &nodes);
    assert!(set.is_empty());
    let _ = foo;
    // var foo = someOtherName — an initializer that is just another
    // identifier is no anonymous function definition
    let (nodes, scoping, foo) = build_declarator(pattern_clone(&ident), Some(Expression::Other));
    assert!(!preserves(&nodes, &scoping, foo));
    // var foo; bar(foo) — a use outside any assignment-target position
    let mut nodes = AstNodes::default();
    let program = nodes.add_program_node(AstKind::Program, 0, 0, 0);
    let decl = nodes.add_node(
        AstKind::VariableDeclarator {
            id: BindingPatternKind::BindingIdentifier { symbol: 0 },
            init: None,
        },
        0,
        program,
        0,
        0,
    );
    let call = nodes.add_node(AstKind::Other, 0, program, 0, 0);
    let ident = nodes.add_node(AstKind::IdentifierReference { reference: Some(0) }, 0, call, 0, 0);
    let mut scoping = Scoping::new();
    let foo = scoping.add_symbol(decl);
    let r = scoping.add_reference(ident);
    scoping.add_resolved_reference(foo, r);
    assert!(!preserves(&nodes, &scoping, foo));
}

#[test]
fn test_nested_destructuring_default() {
    // var [{ a: [foo = () => {}] }] = []
    let inner_array = BindingPatternKind::ArrayPattern {
        elements: vec![Some(BindingPatternKind::AssignmentPattern {
            left: Box::new(BindingPatternKind::BindingIdentifier { symbol: 0 }),
            right: arrow(),
        })],
    };
    let object = BindingPatternKind::ObjectPattern { properties: vec![inner_array] };
    let outer_array =
        BindingPatternKind::ArrayPattern { elements: vec![None, Some(object)] };
    let (nodes, scoping, foo) = build_declarator(outer_array, Some(Expression::Other));
    assert!(preserves(&nodes, &scoping, foo));
}

#[test]
fn test_sibling_default_is_irrelevant() {
    // var [other = function() {}, foo = 1] = [] — only the default bound to
    // the symbol itself counts
    let pattern = BindingPatternKind::ArrayPattern {
        elements: vec![
            Some(BindingPatternKind::AssignmentPattern {
                left: Box::new(BindingPatternKind::BindingIdentifier { symbol: 1 }),
                right: anon_function(),
            }),
            Some(BindingPatternKind::AssignmentPattern {
                left: Box::new(BindingPatternKind::BindingIdentifier { symbol: 0 }),
                right: Expression::Other,
            }),
        ],
    };
    let mut nodes = AstNodes::default();
    let program = nodes.add_program_node(AstKind::Program, 0, 0, 0);
    let decl = nodes.add_node(
        AstKind::VariableDeclarator { id: pattern, init: Some(Expression::Other) },
        0,
        program,
        0,
        0,
    );
    let mut scoping = Scoping::new();
    let foo = scoping.add_symbol(decl);
    let other = scoping.add_symbol(decl);
    let set = collect_name_symbols(&scoping, &nodes);
    assert!(!set.contains(&foo));
    assert!(set.contains(&other));
}

#[test]
fn test_preservation_is_or_across_references() {
    // var foo; bar(foo); foo = function() {} — one non-preserving reference
    // does not disqualify a preserving one
    let mut nodes = AstNodes::default();
    let program = nodes.add_program_node(AstKind::Program, 0, 0, 0);
    let decl = nodes.add_node(
        AstKind::VariableDeclarator {
            id: BindingPatternKind::BindingIdentifier { symbol: 0 },
            init: None,
        },
        0,
        program,
        0,
        0,
    );
    let call = nodes.add_node(AstKind::Other, 0, program, 0, 0);
    let plain_use = nodes.add_node(AstKind::IdentifierReference { reference: Some(0) }, 0, call, 0, 0);
    let assign = nodes.add_node(
        AstKind::AssignmentExpression {
            left: AssignmentTarget::AssignmentTargetIdentifier { reference: 1 },
            right: anon_function(),
        },
        0,
        program,
        0,
        0,
    );
    let target = nodes.add_node(AstKind::AssignmentTarget, 0, assign, 0, 0);
    let simple = nodes.add_node(AstKind::SimpleAssignmentTarget, 0, target, 0, 0);
    let assigned_use =
        nodes.add_node(AstKind::IdentifierReference { reference: Some(1) }, 0, simple, 0, 0);
    let mut scoping = Scoping::new();
    let foo = scoping.add_symbol(decl);
    let r0 = scoping.add_reference(plain_use);
    let r1 = scoping.add_reference(assigned_use);
    scoping.add_resolved_reference(foo, r0);
    scoping.add_resolved_reference(foo, r1);
    assert!(preserves(&nodes, &scoping, foo));
}

#[test]
fn test_determinism() {
    let (nodes, scoping, foo) = build_simple_assign(anon_function());
    let first = collect_name_symbols(&scoping, &nodes);
    let second = collect_name_symbols(&scoping, &nodes);
    assert_eq!(first, second);
    assert!(first.contains(&foo));
}
