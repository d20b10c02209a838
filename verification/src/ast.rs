//! The syntax constructs the analysis reads, as a closed tagged union.
//!
//! A node's kind carries, as plain values, exactly what the name-preservation
//! rules inspect: which symbol a binding form declares, how a binding pattern
//! is shaped, and whether an initializer or right-hand side is an anonymous
//! function or class expression. Every construct the rules do not inspect is
//! collapsed into an `Other` variant, which the analysis always classifies as
//! non-matching.

use vstd::prelude::*;

use crate::ids::{ReferenceId, SymbolId};

verus! {

/// An expression, reduced to the classification the named-evaluation rule
/// needs: is it a function expression, an arrow function or a class
/// expression, and does it carry its own name?
#[derive(Clone, Copy, Debug)]
pub enum Expression {
    /// A `function` expression; `has_name` says whether it has its own
    /// identifier (`function named() {}`).
    FunctionExpression { has_name: bool },
    /// An arrow function, which can never have its own name.
    ArrowFunctionExpression,
    /// A `class` expression; `has_name` says whether it has its own
    /// identifier (`class Named {}`).
    ClassExpression { has_name: bool },
    /// Every other expression kind.
    Other,
}

impl Expression {
    /// An expression is anonymous-definable when an assignment of it to a
    /// binding would set the value's `name` property from that binding:
    /// function expressions without an own identifier, arrow functions, and
    /// class expressions without an own identifier. Everything else,
    /// including named function and class expressions, is not.
    pub open spec fn spec_is_anonymous_function_definition(self) -> bool {
        match self {
            Expression::FunctionExpression { has_name } => !has_name,
            Expression::ArrowFunctionExpression => true,
            Expression::ClassExpression { has_name } => !has_name,
            Expression::Other => false,
        }
    }

    /// Decide whether `self` is an anonymous-definable expression.
    pub fn is_anonymous_function_definition(&self) -> (r: bool)
        ensures
            r == self.spec_is_anonymous_function_definition(),
    {
        match self {
            Expression::FunctionExpression { has_name } => !*has_name,
            Expression::ArrowFunctionExpression => true,
            Expression::ClassExpression { has_name } => !*has_name,
            Expression::Other => false,
        }
    }
}

/// The shape of one binding pattern, as it appears on the left of a
/// `let`/`const`/`var` declarator.
pub enum BindingPatternKind {
    /// A plain identifier binding the given symbol.
    BindingIdentifier { symbol: SymbolId },
    /// An object destructuring pattern; each element is the value pattern of
    /// one property.
    ObjectPattern { properties: Vec<BindingPatternKind> },
    /// An array destructuring pattern; `None` elements are elision holes.
    ArrayPattern { elements: Vec<Option<BindingPatternKind>> },
    /// A default-valued sub-pattern `left = right`.
    AssignmentPattern { left: Box<BindingPatternKind>, right: Expression },
}

/// The target of an assignment expression, reduced to whether it is a plain
/// identifier reference.
pub enum AssignmentTarget {
    /// The target is a single identifier, carrying its resolved reference.
    AssignmentTargetIdentifier { reference: ReferenceId },
    /// Member expressions, patterns and every other target shape.
    Other,
}

/// One property of an object destructuring assignment target.
pub enum AssignmentTargetProperty {
    /// The shorthand form `{ name = init }`, binding through a reference.
    AssignmentTargetPropertyIdentifier { binding: ReferenceId, init: Option<Expression> },
    /// Every other property shape.
    Other,
}

/// The tag + payload of one node in the store: a closed union over the
/// syntax constructs, keeping as payload only what the analysis reads.
pub enum AstKind {
    /// The program itself, the unique root of the tree.
    Program,
    /// A function declaration or expression; `id` is the symbol of its own
    /// identifier, if it has one.
    Function { id: Option<SymbolId> },
    /// A class declaration or expression; `id` is the symbol of its own
    /// identifier, if it has one.
    Class { id: Option<SymbolId> },
    /// One `let`/`const`/`var` declarator: a binding pattern and an optional
    /// initializer.
    VariableDeclarator { id: BindingPatternKind, init: Option<Expression> },
    /// A use-site of a name, resolved (or not) to a reference.
    IdentifierReference { reference: Option<ReferenceId> },
    /// The wrapper node standing between an identifier reference and the
    /// assignment target that contains it.
    SimpleAssignmentTarget,
    /// The wrapper node standing between a simple target and the assignment
    /// construct that contains it.
    AssignmentTarget,
    /// An assignment `left = right`, including the compound logical forms
    /// `||=`, `&&=` and `??=`, which the named-evaluation rule treats alike.
    AssignmentExpression { left: AssignmentTarget, right: Expression },
    /// A default-valued assignment target `binding = init` inside a
    /// destructuring assignment.
    AssignmentTargetWithDefault { binding: AssignmentTarget, init: Expression },
    /// An object destructuring assignment target `{ ... } = obj`.
    ObjectAssignmentTarget { properties: Vec<AssignmentTargetProperty> },
    /// Every construct the analysis does not inspect.
    Other,
}

} // verus!
