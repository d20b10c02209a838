//! The name-preservation analysis: decide, for each symbol, whether an
//! anonymous function or class expression "flowing into" that symbol's
//! binding would have its `name` property implicitly set to the binding's
//! textual name (the named-evaluation rule), so that renaming the binding
//! would change a runtime-observable string.
//!
//! The decision is a closed, total classification: any node or reference
//! shape the rules do not recognize counts as non-matching, never as an
//! error.

use vstd::prelude::*;

use rustc_hash::FxHashSet;

use crate::ast::{
    AssignmentTarget, AssignmentTargetProperty, AstKind, BindingPatternKind, Expression,
};
use crate::ids::{AstNodeId, ReferenceId, SymbolId};
use crate::node::{AstNode, AstNodes};
use crate::scoping::Scoping;

verus! {

/// The build hasher of rustc-hash's `FxHashSet`, a deterministic, stateless
/// replacement for std's seeded default hasher.
#[verifier::external_type_specification]
#[verifier::external_body]
pub struct ExFxBuildHasher(rustc_hash::FxBuildHasher);

/// Relies on std's `HashSet::default` (through rustc-hash's `FxHashSet`
/// alias): a freshly built set is empty.
#[verifier::external_body]
fn fx_hash_set_new() -> (r: FxHashSet<SymbolId>)
    ensures
        r@ == Set::<SymbolId>::empty(),
{
    FxHashSet::default()
}

/// Relies on std's `HashSet::insert` with rustc-hash's `FxBuildHasher`:
/// `FxHasher` is deterministic and stateless, so the hash set behaves as a
/// mathematical set of its `u32` elements.
#[verifier::external_body]
fn fx_hash_set_insert(set: &mut FxHashSet<SymbolId>, value: SymbolId)
    ensures
        final(set)@ == old(set)@.insert(value),
{
    set.insert(value);
}

/// The first default expression along the structural path to `symbol_id`
/// inside a binding pattern: searching `pattern = default` sub-patterns whose
/// left-hand side is exactly the identifier binding `symbol_id`, recursing
/// through arbitrarily nested object and array patterns.
pub open spec fn spec_find_default(kind: BindingPatternKind, symbol_id: SymbolId) -> Option<
    Expression,
>
    decreases kind, 0int,
{
    match kind {
        BindingPatternKind::BindingIdentifier { .. } => None,
        BindingPatternKind::ObjectPattern { properties } => spec_find_default_in_patterns(
            properties@,
            0,
            symbol_id,
        ),
        BindingPatternKind::ArrayPattern { elements } => spec_find_default_in_elements(
            elements@,
            0,
            symbol_id,
        ),
        BindingPatternKind::AssignmentPattern { left, right } => {
            if spec_is_binding_id_of(*left, symbol_id) {
                Some(right)
            } else {
                spec_find_default(*left, symbol_id)
            }
        },
    }
}

/// `spec_find_default` over the property patterns of an object pattern, from
/// position `i` on: the first hit wins.
pub open spec fn spec_find_default_in_patterns(
    patterns: Seq<BindingPatternKind>,
    i: int,
    symbol_id: SymbolId,
) -> Option<Expression>
    decreases patterns, patterns.len() - i, 1int,
{
    if i < 0 || i >= patterns.len() {
        None
    } else {
        match spec_find_default(patterns[i], symbol_id) {
            Some(e) => Some(e),
            None => spec_find_default_in_patterns(patterns, i + 1, symbol_id),
        }
    }
}

/// `spec_find_default` over the elements of an array pattern, from position
/// `i` on, skipping elision holes: the first hit wins.
pub open spec fn spec_find_default_in_elements(
    elements: Seq<Option<BindingPatternKind>>,
    i: int,
    symbol_id: SymbolId,
) -> Option<Expression>
    decreases elements, elements.len() - i, 1int,
{
    if i < 0 || i >= elements.len() {
        None
    } else {
        match elements[i] {
            None => spec_find_default_in_elements(elements, i + 1, symbol_id),
            Some(binding) => match spec_find_default(binding, symbol_id) {
                Some(e) => Some(e),
                None => spec_find_default_in_elements(elements, i + 1, symbol_id),
            },
        }
    }
}

/// Whether a pattern is exactly the identifier binding `symbol_id`.
pub open spec fn spec_is_binding_id_of(kind: BindingPatternKind, symbol_id: SymbolId) -> bool {
    kind matches BindingPatternKind::BindingIdentifier { symbol } && symbol == symbol_id
}

/// Whether an assignment target is exactly the identifier carrying
/// `reference_id`.
pub open spec fn spec_is_assignment_target_id_of(
    target: AssignmentTarget,
    reference_id: ReferenceId,
) -> bool {
    target matches AssignmentTarget::AssignmentTargetIdentifier { reference } && reference
        == reference_id
}

/// The declaration-site test for symbol `symbol_id` against the kind of its
/// declaration node: a function or class declaration carrying the symbol's
/// own identifier; or a declarator binding the symbol directly to an
/// anonymous-definable initializer; or a declarator whose destructuring
/// pattern gives the symbol an anonymous-definable default. Every other
/// shape does not preserve the name at the declaration.
pub open spec fn spec_is_name_set_declare(kind: AstKind, symbol_id: SymbolId) -> bool {
    match kind {
        AstKind::Function { id } => id matches Some(s) && s == symbol_id,
        AstKind::Class { id } => id matches Some(s) && s == symbol_id,
        AstKind::VariableDeclarator { id: pattern, init } => {
            if spec_is_binding_id_of(pattern, symbol_id) {
                init matches Some(e) && e.spec_is_anonymous_function_definition()
            } else {
                spec_find_default(pattern, symbol_id) matches Some(e)
                    && e.spec_is_anonymous_function_definition()
            }
        },
        _ => false,
    }
}

/// Whether one property of an object assignment target binds `reference_id`
/// through the shorthand-with-default form with an anonymous-definable
/// default.
pub open spec fn spec_property_sets_name(
    property: AssignmentTargetProperty,
    reference_id: ReferenceId,
) -> bool {
    &&& property matches AssignmentTargetProperty::AssignmentTargetPropertyIdentifier {
        binding,
        init,
    }
    &&& binding == reference_id
    &&& init matches Some(e)
    &&& e.spec_is_anonymous_function_definition()
}

/// Whether some property of an object assignment target binds `reference_id`
/// through the shorthand-with-default form with an anonymous-definable
/// default.
pub open spec fn spec_any_property_sets_name(
    properties: Seq<AssignmentTargetProperty>,
    reference_id: ReferenceId,
) -> bool {
    exists|i: int|
        0 <= i < properties.len() && #[trigger] spec_property_sets_name(
            properties[i],
            reference_id,
        )
}

/// The reference-site test for a use occurring at node `node_id`, carrying
/// `reference_id`: the use is the direct target of a (possibly compound
/// logical) assignment whose right-hand side is anonymous-definable, or a
/// default-valued target inside a destructuring assignment with an
/// anonymous-definable default. The shapes are read off the ancestor chain
/// of the use's node; anything else does not preserve the name.
pub open spec fn spec_is_name_set_reference(
    nodes: AstNodes,
    node_id: int,
    reference_id: ReferenceId,
) -> bool {
    match nodes.spec_parent(node_id) {
        None => false,
        Some(parent) => match nodes.spec_kind(parent as int) {
            AstKind::SimpleAssignmentTarget => match nodes.spec_parent(parent as int) {
                None => false,
                Some(grand) => match nodes.spec_parent(grand as int) {
                    None => false,
                    Some(great) => match nodes.spec_kind(great as int) {
                        AstKind::AssignmentExpression { left, right } => spec_is_assignment_target_id_of(
                            left,
                            reference_id,
                        ) && right.spec_is_anonymous_function_definition(),
                        AstKind::AssignmentTargetWithDefault { binding, init } => spec_is_assignment_target_id_of(
                            binding,
                            reference_id,
                        ) && init.spec_is_anonymous_function_definition(),
                        _ => false,
                    },
                },
            },
            AstKind::ObjectAssignmentTarget { properties } => spec_any_property_sets_name(
                properties@,
                reference_id,
            ),
            _ => false,
        },
    }
}

/// The reference-site test for the `k`-th resolved reference of
/// `symbol_id`.
pub open spec fn spec_reference_sets_name_at(
    scoping: Scoping,
    nodes: AstNodes,
    symbol_id: SymbolId,
    k: int,
) -> bool {
    let reference_id = scoping.spec_resolved_references(symbol_id as int)[k];
    spec_is_name_set_reference(
        nodes,
        scoping.spec_reference_node(reference_id as int) as int,
        reference_id,
    )
}

/// Whether any resolved reference of `symbol_id` sits in a name-setting
/// position.
pub open spec fn spec_has_name_set_reference(
    scoping: Scoping,
    nodes: AstNodes,
    symbol_id: SymbolId,
) -> bool {
    exists|k: int|
        0 <= k < scoping.spec_resolved_references(symbol_id as int).len()
            && #[trigger] spec_reference_sets_name_at(scoping, nodes, symbol_id, k)
}

/// A symbol's name must be kept iff its declaration site or any of its
/// resolved references sets the name: preservation is a logical OR across
/// all evidence.
pub open spec fn spec_symbol_preserved(
    scoping: Scoping,
    nodes: AstNodes,
    symbol_id: SymbolId,
) -> bool {
    ||| spec_is_name_set_declare(
        nodes.spec_kind(scoping.spec_declaration(symbol_id as int) as int),
        symbol_id,
    )
    ||| spec_has_name_set_reference(scoping, nodes, symbol_id)
}

/// The preserved-name set: exactly the declared symbols whose name must be
/// kept. Membership is its only observable property.
pub open spec fn spec_preserved_symbols(scoping: Scoping, nodes: AstNodes) -> Set<SymbolId> {
    Set::new(
        |symbol_id: SymbolId|
            symbol_id < scoping.spec_symbols_len() && spec_symbol_preserved(
                scoping,
                nodes,
                symbol_id,
            ),
    )
}

/// Collect the symbols that are used to set `name` properties of functions
/// and classes: the deterministic, side-effect-free entry point of the
/// analysis.
pub fn collect_name_symbols(scoping: &Scoping, ast_nodes: &AstNodes) -> (r: FxHashSet<SymbolId>)
    requires
        ast_nodes.wf(),
        scoping.valid_for(*ast_nodes),
    ensures
        r@ == spec_preserved_symbols(*scoping, *ast_nodes),
{
    let collector = NameSymbolCollector::new(scoping, ast_nodes);
    collector.collect()
}

/// Collects symbols that are used to set `name` properties of functions and
/// classes.
struct NameSymbolCollector<'b> {
    scoping: &'b Scoping,
    ast_nodes: &'b AstNodes,
}

impl<'b> NameSymbolCollector<'b> {
    /// The collector only ever reads well-formed inputs: a well-formed store
    /// and a symbol table that speaks of its nodes.
    spec fn wf(self) -> bool {
        &&& self.ast_nodes.wf()
        &&& self.scoping.valid_for(*self.ast_nodes)
    }

    fn new(scoping: &'b Scoping, ast_nodes: &'b AstNodes) -> (r: Self)
        requires
            ast_nodes.wf(),
            scoping.valid_for(*ast_nodes),
        ensures
            r.wf(),
            r.scoping == scoping,
            r.ast_nodes == ast_nodes,
    {
        Self { scoping, ast_nodes }
    }

    #[verifier::loop_isolation(false)]
    fn collect(self) -> (r: FxHashSet<SymbolId>)
        requires
            self.wf(),
        ensures
            r@ == spec_preserved_symbols(*self.scoping, *self.ast_nodes),
    {
        let mut result = fx_hash_set_new();
        let n = self.scoping.symbols_len();
        let mut s: usize = 0;
        while s < n
            invariant
                self.wf(),
                n == self.scoping.spec_symbols_len(),
                s <= n,
                forall|x: SymbolId|
                    result@.contains(x) <==> (x < s && spec_symbol_preserved(
                        *self.scoping,
                        *self.ast_nodes,
                        x,
                    )),
            decreases n - s,
        {
            let symbol_id: SymbolId = s as SymbolId;
            let decl_node_id = self.scoping.symbol_declaration(symbol_id);
            let decl_node = self.ast_nodes.get_node(decl_node_id);
            if self.is_name_set_declare_node(decl_node, symbol_id)
                || self.has_name_set_reference_node(symbol_id) {
                fx_hash_set_insert(&mut result, symbol_id);
            }
            s = s + 1;
        }
        proof {
            assert(result@ =~= spec_preserved_symbols(*self.scoping, *self.ast_nodes));
        }
        result
    }

    /// Whether any resolved reference of `symbol_id` sits in a name-setting
    /// position.
    #[verifier::loop_isolation(false)]
    fn has_name_set_reference_node(&self, symbol_id: SymbolId) -> (r: bool)
        requires
            self.wf(),
            symbol_id < self.scoping.spec_symbols_len(),
        ensures
            r == spec_has_name_set_reference(*self.scoping, *self.ast_nodes, symbol_id),
    {
        let reference_ids = self.scoping.get_resolved_reference_ids(symbol_id);
        let n = reference_ids.len();
        let mut k: usize = 0;
        while k < n
            invariant
                self.wf(),
                symbol_id < self.scoping.spec_symbols_len(),
                reference_ids@ == self.scoping.spec_resolved_references(symbol_id as int),
                n == reference_ids@.len(),
                k <= n,
                forall|j: int|
                    0 <= j < k ==> !spec_reference_sets_name_at(
                        *self.scoping,
                        *self.ast_nodes,
                        symbol_id,
                        j,
                    ),
            decreases n - k,
        {
            let reference_id = reference_ids[k];
            proof {
                self.scoping.lemma_wf_resolved_reference_in_bounds(symbol_id as int, k as int);
            }
            let node_id = self.scoping.get_reference(reference_id).node_id();
            let node = self.ast_nodes.get_node(node_id);
            if self.is_name_set_reference_node(node, reference_id) {
                proof {
                    assert(spec_reference_sets_name_at(
                        *self.scoping,
                        *self.ast_nodes,
                        symbol_id,
                        k as int,
                    ));
                }
                return true;
            }
            k = k + 1;
        }
        false
    }

    /// The declaration-site test: does the declaration node of `symbol_id`
    /// set the symbol's name?
    fn is_name_set_declare_node(&self, node: &AstNode, symbol_id: SymbolId) -> (r: bool)
        ensures
            r == spec_is_name_set_declare(node.spec_kind(), symbol_id),
    {
        match node.kind() {
            AstKind::Function { id } => match id {
                Some(s) => *s == symbol_id,
                None => false,
            },
            AstKind::Class { id } => match id {
                Some(s) => *s == symbol_id,
                None => false,
            },
            AstKind::VariableDeclarator { id: pattern, init } => {
                if Self::is_binding_id_of_specific_symbol(pattern, symbol_id) {
                    match init {
                        Some(e) => self.is_expression_whose_name_needs_to_be_kept(e),
                        None => false,
                    }
                } else {
                    match Self::find_assign_binding_pattern_kind_of_specific_symbol(
                        pattern,
                        symbol_id,
                    ) {
                        Some(e) => self.is_expression_whose_name_needs_to_be_kept(&e),
                        None => false,
                    }
                }
            },
            _ => false,
        }
    }

    /// The reference-site test: does the use of `reference_id` occurring at
    /// `node` stand in a name-setting assignment position?
    #[verifier::loop_isolation(false)]
    fn is_name_set_reference_node(&self, node: &AstNode, reference_id: ReferenceId) -> (r: bool)
        requires
            self.wf(),
            node.spec_id() < self.ast_nodes.spec_len(),
        ensures
            r == spec_is_name_set_reference(
                *self.ast_nodes,
                node.spec_id() as int,
                reference_id,
            ),
    {
        let parent = match self.ast_nodes.parent_id(node.id()) {
            Some(p) => p,
            None => {
                return false;
            },
        };
        match self.ast_nodes.kind(parent) {
            AstKind::SimpleAssignmentTarget => {
                let grand = match self.ast_nodes.parent_id(parent) {
                    Some(g) => g,
                    None => {
                        return false;
                    },
                };
                let great = match self.ast_nodes.parent_id(grand) {
                    Some(g) => g,
                    None => {
                        return false;
                    },
                };
                match self.ast_nodes.kind(great) {
                    AstKind::AssignmentExpression { left, right } => {
                        Self::is_assignment_target_id_of_specific_reference(left, reference_id)
                            && self.is_expression_whose_name_needs_to_be_kept(right)
                    },
                    AstKind::AssignmentTargetWithDefault { binding, init } => {
                        Self::is_assignment_target_id_of_specific_reference(binding, reference_id)
                            && self.is_expression_whose_name_needs_to_be_kept(init)
                    },
                    _ => false,
                }
            },
            AstKind::ObjectAssignmentTarget { properties } => {
                let n = properties.len();
                let mut i: usize = 0;
                while i < n
                    invariant
                        n == properties@.len(),
                        i <= n,
                        forall|j: int|
                            0 <= j < i ==> !spec_property_sets_name(
                                #[trigger] properties@[j],
                                reference_id,
                            ),
                    decreases n - i,
                {
                    match &properties[i] {
                        AssignmentTargetProperty::AssignmentTargetPropertyIdentifier {
                            binding,
                            init,
                        } => {
                            if *binding == reference_id {
                                match init {
                                    Some(e) => {
                                        if self.is_expression_whose_name_needs_to_be_kept(e) {
                                            proof {
                                                assert(spec_property_sets_name(
                                                    properties@[i as int],
                                                    reference_id,
                                                ));
                                            }
                                            return true;
                                        }
                                    },
                                    None => {},
                                }
                            }
                        },
                        AssignmentTargetProperty::Other => {},
                    }
                    i = i + 1;
                }
                false
            },
            _ => false,
        }
    }

    /// The first default expression along the structural path to `symbol_id`
    /// inside `kind`, if any: a pure recursive search over the pattern.
    #[verifier::loop_isolation(false)]
    fn find_assign_binding_pattern_kind_of_specific_symbol(
        kind: &BindingPatternKind,
        symbol_id: SymbolId,
    ) -> (r: Option<Expression>)
        ensures
            r == spec_find_default(*kind, symbol_id),
        decreases *kind,
    {
        match kind {
            BindingPatternKind::BindingIdentifier { .. } => None,
            BindingPatternKind::ObjectPattern { properties } => {
                let n = properties.len();
                let mut i: usize = 0;
                while i < n
                    invariant
                        n == properties@.len(),
                        i <= n,
                        spec_find_default_in_patterns(properties@, i as int, symbol_id)
                            == spec_find_default_in_patterns(properties@, 0, symbol_id),
                    decreases n - i,
                {
                    let found = Self::find_assign_binding_pattern_kind_of_specific_symbol(
                        &properties[i],
                        symbol_id,
                    );
                    if found.is_some() {
                        return found;
                    }
                    i = i + 1;
                }
                None
            },
            BindingPatternKind::ArrayPattern { elements } => {
                let n = elements.len();
                let mut i: usize = 0;
                while i < n
                    invariant
                        n == elements@.len(),
                        i <= n,
                        spec_find_default_in_elements(elements@, i as int, symbol_id)
                            == spec_find_default_in_elements(elements@, 0, symbol_id),
                    decreases n - i,
                {
                    match &elements[i] {
                        None => {},
                        Some(binding) => {
                            let found = Self::find_assign_binding_pattern_kind_of_specific_symbol(
                                binding,
                                symbol_id,
                            );
                            if found.is_some() {
                                return found;
                            }
                        },
                    }
                    i = i + 1;
                }
                None
            },
            BindingPatternKind::AssignmentPattern { left, right } => {
                if Self::is_binding_id_of_specific_symbol(left, symbol_id) {
                    Some(*right)
                } else {
                    Self::find_assign_binding_pattern_kind_of_specific_symbol(left, symbol_id)
                }
            },
        }
    }

    /// Whether a pattern is exactly the identifier binding `symbol_id`.
    fn is_binding_id_of_specific_symbol(
        pattern_kind: &BindingPatternKind,
        symbol_id: SymbolId,
    ) -> (r: bool)
        ensures
            r == spec_is_binding_id_of(*pattern_kind, symbol_id),
    {
        match pattern_kind {
            BindingPatternKind::BindingIdentifier { symbol } => *symbol == symbol_id,
            _ => false,
        }
    }

    /// Whether an assignment target is exactly the identifier carrying
    /// `reference_id`.
    fn is_assignment_target_id_of_specific_reference(
        target_kind: &AssignmentTarget,
        reference_id: ReferenceId,
    ) -> (r: bool)
        ensures
            r == spec_is_assignment_target_id_of(*target_kind, reference_id),
    {
        match target_kind {
            AssignmentTarget::AssignmentTargetIdentifier { reference } => *reference
                == reference_id,
            _ => false,
        }
    }

    /// Whether an expression flowing into a binding forces the binding's name
    /// to be kept.
    fn is_expression_whose_name_needs_to_be_kept(&self, expr: &Expression) -> (r: bool)
        ensures
            r == expr.spec_is_anonymous_function_definition(),
    {
        expr.is_anonymous_function_definition()
    }
}


/// Membership in the preserved-name set, characterized: a symbol belongs to
/// it iff it is a declared symbol and either its declaration site or some
/// resolved reference sets its name. In particular a symbol whose declaration
/// does not match and none of whose references sits in a name-setting
/// position — an initializer that is no anonymous function or class, a plain
/// use of another name, any unrecognized shape — is absent from the set.
pub proof fn lemma_preserved_characterization(
    scoping: Scoping,
    nodes: AstNodes,
    symbol_id: SymbolId,
)
    ensures
        spec_preserved_symbols(scoping, nodes).contains(symbol_id) <==> (symbol_id
            < scoping.spec_symbols_len() && (spec_is_name_set_declare(
            nodes.spec_kind(scoping.spec_declaration(symbol_id as int) as int),
            symbol_id,
        ) || spec_has_name_set_reference(scoping, nodes, symbol_id))),
{
}

/// Determinism: the preserved-name set is a function of the store and the
/// symbol table alone, so any two results of `collect_name_symbols` on the
/// same inputs hold exactly the same symbols.
pub proof fn lemma_collect_name_symbols_deterministic(
    scoping: Scoping,
    nodes: AstNodes,
    a: Set<SymbolId>,
    b: Set<SymbolId>,
)
    requires
        a == spec_preserved_symbols(scoping, nodes),
        b == spec_preserved_symbols(scoping, nodes),
    ensures
        a == b,
{
}

/// Declaration coverage: a function or class declaration carrying the
/// symbol's own identifier always preserves that symbol, whatever its
/// references look like.
pub proof fn lemma_declaration_preserved(scoping: Scoping, nodes: AstNodes, symbol_id: SymbolId)
    requires
        symbol_id < scoping.spec_symbols_len(),
        nodes.spec_kind(scoping.spec_declaration(symbol_id as int) as int) == (AstKind::Function {
            id: Some(symbol_id),
        }) || nodes.spec_kind(scoping.spec_declaration(symbol_id as int) as int) == (AstKind::Class {
            id: Some(symbol_id),
        }),
    ensures
        spec_preserved_symbols(scoping, nodes).contains(symbol_id),
{
}

/// Simple-init coverage: a declarator binding the symbol directly preserves
/// it exactly when its initializer is an anonymous-definable expression — so
/// an anonymous function, arrow or anonymous class initializer preserves the
/// name, while a named function or class expression, another identifier or
/// any other initializer does not (absent reference-site evidence).
pub proof fn lemma_simple_init(
    scoping: Scoping,
    nodes: AstNodes,
    symbol_id: SymbolId,
    init: Option<Expression>,
)
    requires
        symbol_id < scoping.spec_symbols_len(),
        nodes.spec_kind(scoping.spec_declaration(symbol_id as int) as int) == (
        AstKind::VariableDeclarator {
            id: BindingPatternKind::BindingIdentifier { symbol: symbol_id },
            init,
        }),
        !spec_has_name_set_reference(scoping, nodes, symbol_id),
    ensures
        spec_preserved_symbols(scoping, nodes).contains(symbol_id) <==> (init matches Some(e)
            && e.spec_is_anonymous_function_definition()),
{
}

/// Destructuring defaults at the declaration: a declarator whose pattern
/// does not bind the symbol directly, but gives it — at any nesting depth —
/// a default value, preserves the symbol exactly when that default is
/// anonymous-definable (absent reference-site evidence).
pub proof fn lemma_destructuring_default(
    scoping: Scoping,
    nodes: AstNodes,
    symbol_id: SymbolId,
    pattern: BindingPatternKind,
    init: Option<Expression>,
)
    requires
        symbol_id < scoping.spec_symbols_len(),
        nodes.spec_kind(scoping.spec_declaration(symbol_id as int) as int) == (
        AstKind::VariableDeclarator { id: pattern, init }),
        !spec_is_binding_id_of(pattern, symbol_id),
        !spec_has_name_set_reference(scoping, nodes, symbol_id),
    ensures
        spec_preserved_symbols(scoping, nodes).contains(symbol_id) <==> (spec_find_default(
            pattern,
            symbol_id,
        ) matches Some(e) && e.spec_is_anonymous_function_definition()),
{
}

/// Reference evidence: one resolved reference in a name-setting position
/// puts the symbol in the preserved set, whatever the declaration and the
/// other references look like — preservation is an OR across all evidence.
pub proof fn lemma_reference_evidence_preserved(
    scoping: Scoping,
    nodes: AstNodes,
    symbol_id: SymbolId,
    k: int,
)
    requires
        symbol_id < scoping.spec_symbols_len(),
        0 <= k < scoping.spec_resolved_references(symbol_id as int).len(),
        spec_reference_sets_name_at(scoping, nodes, symbol_id, k),
    ensures
        spec_preserved_symbols(scoping, nodes).contains(symbol_id),
{
}

/// Assignment coverage: for a use standing under the simple-target and
/// target wrappers of a plain or compound logical assignment, the
/// reference-site test holds exactly when the use is the direct target and
/// the right-hand side is anonymous-definable.
pub proof fn lemma_assignment_shape(
    nodes: AstNodes,
    node_id: int,
    reference_id: ReferenceId,
    parent: AstNodeId,
    grand: AstNodeId,
    great: AstNodeId,
    left: AssignmentTarget,
    right: Expression,
)
    requires
        nodes.spec_parent(node_id) == Some(parent),
        nodes.spec_kind(parent as int) == AstKind::SimpleAssignmentTarget,
        nodes.spec_parent(parent as int) == Some(grand),
        nodes.spec_parent(grand as int) == Some(great),
        nodes.spec_kind(great as int) == (AstKind::AssignmentExpression { left, right }),
    ensures
        spec_is_name_set_reference(nodes, node_id, reference_id) == (
        spec_is_assignment_target_id_of(left, reference_id)
            && right.spec_is_anonymous_function_definition()),
{
}

/// Destructuring defaults at a reference: for a use standing under the
/// wrappers of a default-valued assignment target, the reference-site test
/// holds exactly when the use is the bound identifier and the default is
/// anonymous-definable.
pub proof fn lemma_default_target_shape(
    nodes: AstNodes,
    node_id: int,
    reference_id: ReferenceId,
    parent: AstNodeId,
    grand: AstNodeId,
    great: AstNodeId,
    binding: AssignmentTarget,
    init: Expression,
)
    requires
        nodes.spec_parent(node_id) == Some(parent),
        nodes.spec_kind(parent as int) == AstKind::SimpleAssignmentTarget,
        nodes.spec_parent(parent as int) == Some(grand),
        nodes.spec_parent(grand as int) == Some(great),
        nodes.spec_kind(great as int) == (AstKind::AssignmentTargetWithDefault { binding, init }),
    ensures
        spec_is_name_set_reference(nodes, node_id, reference_id) == (
        spec_is_assignment_target_id_of(binding, reference_id)
            && init.spec_is_anonymous_function_definition()),
{
}

/// The shorthand object-assignment-target-with-default form: for a use whose
/// parent is an object assignment target, the reference-site test holds
/// exactly when some property binds the use through the shorthand form with
/// an anonymous-definable default.
pub proof fn lemma_object_target_shape(
    nodes: AstNodes,
    node_id: int,
    reference_id: ReferenceId,
    parent: AstNodeId,
    properties: Seq<AssignmentTargetProperty>,
)
    requires
        nodes.spec_parent(node_id) == Some(parent),
        nodes.spec_kind(parent as int) matches AstKind::ObjectAssignmentTarget {
            properties: props,
        } && props@ == properties,
    ensures
        spec_is_name_set_reference(nodes, node_id, reference_id) == spec_any_property_sets_name(
            properties,
            reference_id,
        ),
{
}

/// The declaration-site test reads the declarator alone: two declaration
/// nodes of equal kind — wherever they stand, in particular as the left-hand
/// declaration of a `for`-`in` or `for`-`of` loop or as an ordinary
/// statement — classify alike.
pub proof fn lemma_declaration_context_irrelevant(
    a: AstNodes,
    decl_a: int,
    b: AstNodes,
    decl_b: int,
    symbol_id: SymbolId,
)
    requires
        a.spec_kind(decl_a) == b.spec_kind(decl_b),
    ensures
        spec_is_name_set_declare(a.spec_kind(decl_a), symbol_id) == spec_is_name_set_declare(
            b.spec_kind(decl_b),
            symbol_id,
        ),
{
}

} // verus!

