//! The analysis that decides whether a declaration is worth instrumenting:
//! whether the code of its body, not that of the functions and classes
//! nested in it, holds JSX or a call of a hook.
use crate::ast::{nodes_view, Kind, Node, NodeView};
use crate::naming::{hook_name, is_hook_name};
use vstd::prelude::*;
use vstd::string::*;

verus! {

/// Whether `n` is a call whose callee is a plain identifier that follows
/// the hook-naming convention.
pub open spec fn is_hook_call(n: NodeView) -> bool {
    &&& n.kind == Kind::Call
    &&& n.children.len() >= 1
    &&& n.children[0].kind == Kind::Ident
    &&& hook_name(n.children[0].text)
}

/// Whether `n` opens a scope of its own, which the analysis of an
/// enclosing declaration does not look into.
pub open spec fn opens_scope(n: NodeView) -> bool {
    n.kind == Kind::FnDecl || n.kind == Kind::FnExpr || n.kind == Kind::Arrow || n.kind
        == Kind::Class
}

/// Whether `n` holds JSX or a hook call outside of nested functions and
/// classes.
pub open spec fn contains_probe(n: NodeView) -> bool
    decreases n,
{
    if n.kind == Kind::Jsx {
        true
    } else if opens_scope(n) {
        false
    } else {
        is_hook_call(n) || exists|i: int| 0 <= i < n.children.len() && contains_probe(#[trigger] n.children[i])
    }
}

/// Whether one of `nodes` holds JSX or a hook call outside of nested
/// functions and classes.
pub open spec fn any_probe(nodes: Seq<NodeView>) -> bool {
    exists|i: int| 0 <= i < nodes.len() && contains_probe(#[trigger] nodes[i])
}

/// Decides whether `n` is a call of a hook by its name.
pub fn hook_call(n: &Node) -> (r: bool)
    ensures
        r == is_hook_call(n@),
{
    if n.kind == Kind::Call && n.children.len() >= 1 {
        let callee = &n.children[0];
        assert(callee@ == n@.children[0]);
        callee.kind == Kind::Ident && is_hook_name(callee.text.as_str())
    } else {
        false
    }
}

/// The analysis of one declaration. It is made for one decision and reads
/// the tree without changing it.
pub struct ReactFnAnalyzer {
    pub should_instrument: bool,
}

impl ReactFnAnalyzer {
    /// An analyzer that has found nothing yet.
    pub fn new() -> (r: ReactFnAnalyzer)
        ensures
            !r.should_instrument,
    {
        ReactFnAnalyzer { should_instrument: false }
    }

    /// Walks `n`. Afterwards the flag is set if it was set before or `n`
    /// holds JSX or a hook call of its own.
    pub fn visit_node(&mut self, n: &Node)
        ensures
            final(self).should_instrument == (old(self).should_instrument || contains_probe(n@)),
        decreases n,
    {
        if self.should_instrument {
            return ;
        }
        match n.kind {
            Kind::Jsx => {
                self.should_instrument = true;
            },
            Kind::FnDecl | Kind::FnExpr | Kind::Arrow | Kind::Class => {},
            _ => {
                if hook_call(n) {
                    self.should_instrument = true;
                } else {
                    self.visit_nodes(&n.children);
                    assert(nodes_view(n.children@) == n@.children);
                }
            },
        }
    }

    /// Walks `nodes` in their order, and stops at the first find.
    pub fn visit_nodes(&mut self, nodes: &Vec<Node>)
        ensures
            final(self).should_instrument == (old(self).should_instrument || any_probe(nodes_view(nodes@))),
        decreases nodes,
    {
        let mut i: usize = 0;
        while i < nodes.len() && !self.should_instrument
            invariant
                i <= nodes.len(),
                self.should_instrument == (old(self).should_instrument || exists|j: int|
                    0 <= j < i && contains_probe(#[trigger] nodes_view(nodes@)[j])),
            decreases nodes.len() - i,
        {
            self.visit_node(&nodes[i]);
            assert(nodes[i as int]@ == nodes_view(nodes@)[i as int]);
            i = i + 1;
        }
    }

    /// Answers for the declaration whose body is `body`.
    pub fn analyze_fn(&mut self, body: &Node) -> (r: bool)
        ensures
            r == (old(self).should_instrument || contains_probe(body@)),
            final(self).should_instrument == r,
    {
        self.visit_node(body);
        self.should_instrument
    }
}

/// Decides whether the declaration whose body is `body` is worth
/// instrumenting: whether the body holds JSX or a hook call of its own.
pub fn analyze(body: &Node) -> (r: bool)
    ensures
        r == contains_probe(body@),
{
    let mut analyzer = ReactFnAnalyzer::new();
    analyzer.analyze_fn(body)
}

} // verus!
