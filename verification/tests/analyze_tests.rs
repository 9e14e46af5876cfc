use react_jitter::analyze::{analyze, hook_call, ReactFnAnalyzer};
use react_jitter::ast::{Kind, Location, Node};

fn n(kind: Kind, text: &str, children: Vec<Node>) -> Node {
    Node { kind, text: text.to_string(), loc: Location { line: 0, column: 0 }, handle: 0, children }
}

fn ident(name: &str) -> Node {
    n(Kind::Ident, name, vec![])
}

fn call(callee: Node, mut args: Vec<Node>) -> Node {
    let mut children = vec![callee];
    children.append(&mut args);
    n(Kind::Call, "", children)
}

fn jsx() -> Node {
    n(Kind::Jsx, "", vec![])
}

fn body(stmts: Vec<Node>) -> Node {
    n(Kind::Block, "", stmts)
}

fn function_parts(stmts: Vec<Node>) -> Vec<Node> {
    vec![n(Kind::Params, "", vec![]), body(stmts)]
}

#[test]
fn analyzer_starts_without_a_find() {
    let analyzer = ReactFnAnalyzer::new();
    assert!(!analyzer.should_instrument);
}

#[test]
fn jsx_is_found() {
    assert!(analyze(&body(vec![n(Kind::Return, "", vec![jsx()])])));
}

#[test]
fn jsx_deep_in_an_expression_is_found() {
    let deep = n(Kind::Other, "", vec![n(Kind::Paren, "", vec![n(Kind::Array, "", vec![ident("a"), jsx()])])]);
    assert!(analyze(&body(vec![deep])));
}

#[test]
fn body_without_statements_holds_nothing() {
    assert!(!analyze(&body(vec![])));
}

#[test]
fn hook_call_is_found() {
    assert!(analyze(&body(vec![call(ident("useBar"), vec![])])));
}

#[test]
fn ignored_hooks_count_for_the_analysis() {
    assert!(analyze(&body(vec![call(ident("useState"), vec![])])));
    assert!(analyze(&body(vec![call(ident("useJitterScope"), vec![])])));
}

#[test]
fn hook_call_in_the_arguments_of_a_call_is_found() {
    let outer = call(ident("compute"), vec![call(ident("useBar"), vec![])]);
    assert!(analyze(&body(vec![outer])));
}

#[test]
fn hook_call_in_the_callee_of_a_call_is_found() {
    let outer = call(call(ident("useBar"), vec![]), vec![]);
    assert!(analyze(&body(vec![outer])));
}

#[test]
fn plain_code_holds_nothing() {
    let stmts = vec![
        call(ident("compute"), vec![ident("a")]),
        call(n(Kind::Member, "useBar", vec![ident("hooks")]), vec![]),
        call(ident("user"), vec![]),
        n(Kind::Return, "", vec![n(Kind::NumberLit, "1", vec![])]),
    ];
    assert!(!analyze(&body(stmts)));
    assert!(!analyze(&ident("a")));
}

#[test]
fn nested_functions_and_classes_are_not_looked_into() {
    for kind in [Kind::FnDecl, Kind::FnExpr, Kind::Arrow, Kind::Class] {
        let nested = n(kind, "Inner", function_parts(vec![call(ident("useBar"), vec![]), jsx()]));
        assert!(!analyze(&body(vec![nested])), "{:?}", kind);
    }
}

#[test]
fn code_beside_a_nested_function_still_counts() {
    let nested = n(Kind::Arrow, "", function_parts(vec![]));
    assert!(analyze(&body(vec![nested, jsx()])));
}

#[test]
fn hook_call_needs_a_plain_identifier_as_callee() {
    assert!(hook_call(&call(ident("useBar"), vec![])));
    assert!(hook_call(&call(ident("useBar"), vec![ident("a")])));
    assert!(!hook_call(&call(n(Kind::Member, "useBar", vec![ident("React")]), vec![])));
    assert!(!hook_call(&call(n(Kind::Paren, "", vec![ident("useBar")]), vec![])));
    assert!(!hook_call(&call(ident("use"), vec![])));
    assert!(!hook_call(&n(Kind::Call, "", vec![])));
    assert!(!hook_call(&ident("useBar")));
    assert!(!hook_call(&n(Kind::Other, "", vec![ident("useBar")])));
}

#[test]
fn analyzer_keeps_a_find() {
    let mut analyzer = ReactFnAnalyzer::new();
    analyzer.visit_node(&ident("a"));
    assert!(!analyzer.should_instrument);
    analyzer.visit_node(&jsx());
    assert!(analyzer.should_instrument);
    analyzer.visit_node(&ident("a"));
    assert!(analyzer.should_instrument);
    analyzer.visit_nodes(&vec![ident("b")]);
    assert!(analyzer.should_instrument);
}

#[test]
fn analyzer_answers_for_the_parts_of_a_function() {
    let mut analyzer = ReactFnAnalyzer::new();
    assert!(!analyzer.analyze_fn(&body(vec![ident("a")])));
    assert!(analyzer.analyze_fn(&body(vec![jsx()])));
    let mut analyzer = ReactFnAnalyzer::new();
    analyzer.visit_nodes(&function_parts(vec![jsx()]));
    assert!(analyzer.should_instrument);
}

#[test]
fn analysis_does_not_change_the_tree() {
    let block = body(vec![call(ident("useBar"), vec![]), jsx()]);
    let before = block.clone();
    assert!(analyze(&block));
    assert_eq!(block, before);
}
