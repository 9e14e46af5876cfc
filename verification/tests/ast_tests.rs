use react_jitter::ast::{Kind, Location, Module, Node};

#[test]
fn new_node_is_a_created_one() {
    let child = Node::leaf(Kind::Ident, "a");
    let node = Node::new(Kind::Paren, "", Location { line: 3, column: 4 }, vec![child]);
    assert_eq!(node.kind, Kind::Paren);
    assert_eq!(node.text, "");
    assert_eq!(node.loc, Location { line: 3, column: 4 });
    assert_eq!(node.handle, 0);
    assert_eq!(node.children.len(), 1);
    assert_eq!(node.children[0].text, "a");
    assert_eq!(node.children[0].loc, Location::none());
}

#[test]
fn node_of_the_host_keeps_its_handle() {
    let node = Node::from_host(Kind::Other, "this", Location { line: 1, column: 0 }, 42, vec![]);
    assert_eq!(node.handle, 42);
    assert_eq!(node.location(), Location { line: 1, column: 0 });
    assert_eq!(node.text, "this");
}

#[test]
fn no_place_is_line_zero() {
    assert_eq!(Location::none(), Location { line: 0, column: 0 });
}

#[test]
fn rebuilt_node_changes_its_children_only() {
    let node = Node::from_host(Kind::Block, "x", Location { line: 5, column: 6 }, 9, vec![]);
    let rebuilt = node.rebuilt(vec![Node::leaf(Kind::Ident, "a")]);
    assert_eq!(rebuilt.kind, Kind::Block);
    assert_eq!(rebuilt.text, "x");
    assert_eq!(rebuilt.loc, Location { line: 5, column: 6 });
    assert_eq!(rebuilt.handle, 9);
    assert_eq!(rebuilt.children, vec![Node::leaf(Kind::Ident, "a")]);
    assert!(node.children.is_empty());
}

#[test]
fn duplicate_copies_the_whole_tree() {
    let leaf = Node::from_host(Kind::Ident, "a", Location { line: 2, column: 1 }, 3, vec![]);
    let inner = Node::from_host(Kind::Paren, "", Location { line: 2, column: 0 }, 2, vec![leaf]);
    let node = Node::from_host(Kind::Other, "t", Location { line: 1, column: 0 }, 1, vec![inner]);
    let copy = node.duplicate();
    assert_eq!(copy, node);
    assert_eq!(copy.children[0].children[0].handle, 3);
    assert_eq!(node.clone(), node);
    let module = Module { body: vec![node] };
    assert_eq!(module.clone(), module);
}
