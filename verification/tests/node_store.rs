//! The node store: dense id assignment, parent links, ancestor chains and
//! the parent iterator.

use semantic_names::ast::AstKind;
use semantic_names::node::AstNodes;

/// A small tree: program -> a -> b -> c, and program -> d.
fn build_chain() -> (AstNodes, usize, usize, usize, usize, usize) {
    let mut nodes = AstNodes::default();
    let program = nodes.add_program_node(AstKind::Program, 0, 0, 0);
    let a = nodes.add_node(AstKind::Other, 1, program, 0, 0);
    let b = nodes.add_node(AstKind::Other, 2, a, 0, 0);
    let c = nodes.add_node(AstKind::Other, 3, b, 0, 0);
    let d = nodes.add_node(AstKind::Other, 4, program, 0, 0);
    (nodes, program, a, b, c, d)
}

#[test]
fn test_dense_increasing_ids() {
    let mut nodes = AstNodes::default();
    assert!(nodes.is_empty());
    assert_eq!(nodes.len(), 0);
    let program = nodes.add_program_node(AstKind::Program, 0, 0, 0);
    assert_eq!(program, 0);
    for expected in 1..8usize {
        let id = nodes.add_node(AstKind::Other, 0, expected - 1, 0, 0);
        assert_eq!(id, expected);
        assert_eq!(nodes.len(), expected + 1);
    }
    assert!(!nodes.is_empty());
    for id in 0..nodes.len() {
        assert_eq!(nodes.get_node(id).id(), id);
    }
}

#[test]
fn test_ancestors_terminate_at_root_within_depth() {
    let (nodes, program, a, b, c, d) = build_chain();
    assert_eq!(nodes.ancestors(c), vec![b, a, program]);
    assert_eq!(nodes.ancestors(b), vec![a, program]);
    assert_eq!(nodes.ancestors(a), vec![program]);
    assert_eq!(nodes.ancestors(d), vec![program]);
    assert_eq!(nodes.ancestors(program), Vec::<usize>::new());
}

#[test]
fn test_root_unique() {
    let (nodes, program, a, b, c, d) = build_chain();
    assert_eq!(nodes.root(), Some(program));
    let mut parentless = 0;
    for id in 0..nodes.len() {
        if nodes.parent_id(id).is_none() {
            parentless += 1;
            assert_eq!(id, program);
        }
    }
    assert_eq!(parentless, 1);
    // every other node's chain reaches the root
    for id in [a, b, c, d] {
        assert_eq!(nodes.ancestors(id).last(), Some(&program));
    }
}

#[test]
fn test_parent_links() {
    let (nodes, program, a, b, _c, _d) = build_chain();
    assert_eq!(nodes.parent_id(b), Some(a));
    assert_eq!(nodes.parent_id(program), None);
    assert!(matches!(nodes.parent_kind(a), Some(AstKind::Program)));
    assert!(nodes.parent_kind(program).is_none());
    assert_eq!(nodes.parent_node(b).unwrap().id(), a);
    assert!(matches!(nodes.kind(program), AstKind::Program));
    let root_node = nodes.root_node().unwrap();
    assert_eq!(root_node.id(), program);
    assert_eq!(root_node.scope_id(), 0);
}

#[test]
fn test_iter_parents_walks_to_root() {
    let (nodes, program, a, b, c, _d) = build_chain();
    let mut iter = nodes.iter_parents(c);
    let mut seen = Vec::new();
    while let Some(node) = iter.next() {
        seen.push(node.id());
    }
    assert_eq!(seen, vec![c, b, a, program]);
}

#[test]
fn test_iter_lists_nodes_in_id_order() {
    let (nodes, _, _, _, _, _) = build_chain();
    let all = nodes.iter();
    assert_eq!(all.len(), nodes.len());
    for (position, node) in all.iter().enumerate() {
        assert_eq!(node.id(), position);
    }
}

#[test]
fn test_flags_update_in_place() {
    let (mut nodes, _program, a, _b, _c, _d) = build_chain();
    assert_eq!(nodes.get_node(a).flags(), 0);
    *nodes.get_node_mut(a).flags_mut() = 3;
    assert_eq!(nodes.get_node(a).flags(), 3);
    // the structural links are untouched
    assert_eq!(nodes.get_node(a).id(), a);
    assert_eq!(nodes.parent_id(a), Some(0));
    if let Some(root_node) = nodes.root_node_mut() {
        *root_node.flags_mut() = 7;
    }
    assert_eq!(nodes.root_node().unwrap().flags(), 7);
}

#[test]
fn test_reserve_keeps_contents() {
    let (mut nodes, program, a, _b, _c, _d) = build_chain();
    let before = nodes.len();
    nodes.reserve(100);
    assert_eq!(nodes.len(), before);
    assert_eq!(nodes.root(), Some(program));
    assert_eq!(nodes.parent_id(a), Some(program));
}

#[test]
fn test_node_metadata() {
    let mut nodes = AstNodes::default();
    let program = nodes.add_program_node(AstKind::Program, 9, 4, 2);
    let node = nodes.get_node(program);
    assert_eq!(node.scope_id(), 9);
    assert_eq!(node.cfg_id(), 4);
    assert_eq!(node.flags(), 2);
    assert!(matches!(node.kind(), AstKind::Program));
}
