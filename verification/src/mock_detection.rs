//! The expression that tells, when the instrumented program runs, whether
//! a hook was replaced by a mock of a test framework.
use crate::ast::{created, nodes_view, Kind, Location, Node, NodeView};
use crate::synth::{str_lit, str_lit_view};
use vstd::prelude::*;
use vstd::string::*;

verus! {

/// The keys that a mock function of Jest or Vitest has.
pub open spec fn mock_keys() -> Seq<Seq<char>> {
    seq!["mockImplementation"@, "mockReturnValue"@]
}

/// `left op right`.
pub open spec fn binary_view(op: Seq<char>, left: NodeView, right: NodeView) -> NodeView {
    created(Kind::Binary, op, Location::nowhere(), seq![left, right])
}

/// `"key" in hook`.
pub open spec fn key_in_view(key: Seq<char>, hook: NodeView) -> NodeView {
    binary_view("in"@, str_lit_view(key), hook)
}

/// Whether one of `keys` is in `hook`: the tests `"key" in hook` joined by
/// `||` from the left, and the literal `false` where there is no key.
pub open spec fn mock_key_chain_view(keys: Seq<Seq<char>>, hook: NodeView) -> NodeView
    decreases keys.len(),
{
    if keys.len() == 0 {
        created(Kind::BoolLit, "false"@, Location::nowhere(), Seq::empty())
    } else if keys.len() == 1 {
        key_in_view(keys[0], hook)
    } else {
        binary_view("||"@, mock_key_chain_view(keys.drop_last(), hook), key_in_view(keys.last(), hook))
    }
}

/// `typeof hook === "function" && ("mockImplementation" in hook ||
/// "mockReturnValue" in hook)`.
pub open spec fn is_mocked_view(hook: NodeView) -> NodeView {
    binary_view(
        "&&"@,
        binary_view(
            "==="@,
            created(Kind::Unary, "typeof"@, Location::nowhere(), seq![hook]),
            str_lit_view("function"@),
        ),
        mock_key_chain_view(mock_keys(), hook),
    )
}

fn binary(op: &str, left: Node, right: Node) -> (r: Node)
    ensures
        r@ == binary_view(op@, left@, right@),
{
    let mut children: Vec<Node> = Vec::new();
    children.push(left);
    children.push(right);
    assert(nodes_view(children@) =~= seq![left@, right@]);
    Node::new(Kind::Binary, op, Location::none(), children)
}

/// Builds the test whether one of the keys of a mock function is in the
/// value of `hook_ident`.
pub fn build_mock_key_or_chain(hook_ident: &Node) -> (r: Node)
    ensures
        r@ == mock_key_chain_view(mock_keys(), hook_ident@),
{
    let mut keys: Vec<String> = Vec::new();
    keys.push(String::from_str("mockImplementation"));
    keys.push(String::from_str("mockReturnValue"));
    assert(keys.deep_view() =~= mock_keys());
    let mut acc: Option<Node> = None;
    let mut i: usize = 0;
    while i < keys.len()
        invariant
            i <= keys.len(),
            i == 0 ==> acc is None,
            i > 0 ==> acc is Some && acc->0@ == mock_key_chain_view(keys.deep_view().take(i as int), hook_ident@),
        decreases keys.len() - i,
    {
        let key_in = binary("in", str_lit(keys[i].as_str()), hook_ident.duplicate());
        let ghost done = keys.deep_view().take(i + 1);
        assert(done.last() == keys[i as int]@);
        assert(done.drop_last() =~= keys.deep_view().take(i as int));
        acc = Some(
            match acc {
                None => key_in,
                Some(previous) => binary("||", previous, key_in),
            },
        );
        i = i + 1;
    }
    assert(keys.deep_view().take(keys.len() as int) =~= keys.deep_view());
    match acc {
        Some(chain) => chain,
        None => Node::leaf(Kind::BoolLit, "false"),
    }
}

/// Builds the expression that is true, when the program runs, where the
/// value of `hook_ident` is a function that has one of the keys of a mock
/// function. The `typeof` test comes first because `in` fails on a value
/// that is no object.
pub fn build_is_mocked_expr(hook_ident: &Node) -> (r: Node)
    ensures
        r@ == is_mocked_view(hook_ident@),
{
    let mut operand: Vec<Node> = Vec::new();
    operand.push(hook_ident.duplicate());
    assert(nodes_view(operand@) =~= seq![hook_ident@]);
    let type_of = Node::new(Kind::Unary, "typeof", Location::none(), operand);
    let is_function = binary("===", type_of, str_lit("function"));
    let keys = build_mock_key_or_chain(hook_ident);
    binary("&&", is_function, keys)
}

} // verus!
