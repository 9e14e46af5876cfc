//! The syntax tree that the pass works on.
//!
//! A tree is made of nodes of one shape: a kind, a text, a place in the
//! source, and children in source order. A host converts its own tree into
//! this one before the pass and back after it. The `handle` of a node is the
//! host's name for the node it came from, so that whatever the pass does not
//! look at can be found again; the pass hands it through untouched, and
//! gives the nodes that it creates the handle 0.
use vstd::prelude::*;
use vstd::string::*;

verus! {

/// A place in the source text: a line, counted from 1, and a display column.
/// Line 0 stands for "no place", which is what created nodes have.
#[derive(Clone, Copy, Debug, PartialEq, Eq, Structural)]
pub struct Location {
    pub line: u32,
    pub column: u32,
}

/// What a node is. The comments give the meaning of the node's text and
/// children; a node not laid out as its kind says is treated like `Other`.
#[derive(Clone, Copy, Debug, PartialEq, Eq, Structural)]
pub enum Kind {
    /// An identifier; the text is its name.
    Ident,
    /// A string literal; the text is its value.
    StringLit,
    /// A number literal; the text is its decimal numeral.
    NumberLit,
    /// A boolean literal; the text is `true` or `false`.
    BoolLit,
    /// `object.property`; the text is the property, the one child the object.
    Member,
    /// A call; the first child is the callee, the others are the arguments.
    Call,
    /// An argument together with its source text (the text; empty where the
    /// source text is not known); the one child is the argument.
    Arg,
    /// A spread argument `...x`; the one child is `x`.
    Spread,
    /// A comma sequence of expressions.
    Sequence,
    /// A parenthesized expression.
    Paren,
    /// An array literal.
    Array,
    /// An object literal; the children are its properties.
    Object,
    /// A `key: value` property; the text is the key, the one child the value.
    KeyValue,
    /// A unary operation; the text is the operator.
    Unary,
    /// A binary operation; the text is the operator, the children the operands.
    Binary,
    /// A JSX element or fragment.
    Jsx,
    /// An arrow function; the children are its parameters (a `Params` node)
    /// and its body (a `Block`, or else an expression).
    Arrow,
    /// A function expression; the text is its name (empty if it has none),
    /// the children are its parameters and, if it has one, its body.
    FnExpr,
    /// A class declaration or expression.
    Class,
    /// The parameter list of a function.
    Params,
    /// A block of statements.
    Block,
    /// A `return` statement; the child, if any, is the returned expression.
    Return,
    /// A function declaration; laid out like `FnExpr`.
    FnDecl,
    /// A variable declaration; the text is `const`, `let` or `var`, the
    /// children are `Declarator` nodes.
    VarDecl,
    /// One binding of a variable declaration; the children are the bound
    /// pattern and, if there is one, the initializer.
    Declarator,
    /// An import declaration; the text is the module specifier, the
    /// children are the import's specifiers.
    Import,
    /// A named import specifier; the text is the local name.
    ImportNamed,
    /// `export` followed by a declaration, which is the one child.
    ExportDecl,
    /// `export default` followed by a declaration, which is the one child.
    ExportDefaultDecl,
    /// Anything else.
    Other,
}

/// A node of the syntax tree.
#[derive(Debug, PartialEq, Eq)]
pub struct Node {
    pub kind: Kind,
    pub text: String,
    pub loc: Location,
    pub handle: u32,
    pub children: Vec<Node>,
}

/// A module: the sequence of its top-level items.
#[derive(Debug, PartialEq, Eq)]
pub struct Module {
    pub body: Vec<Node>,
}

/// The mathematical value of a node.
pub struct NodeView {
    pub kind: Kind,
    pub text: Seq<char>,
    pub loc: Location,
    pub handle: u32,
    pub children: Seq<NodeView>,
}

/// The mathematical value of a module.
pub struct ModuleView {
    pub body: Seq<NodeView>,
}

/// The value of the node `n`.
pub open spec fn node_view(n: Node) -> NodeView
    decreases n,
{
    NodeView {
        kind: n.kind,
        text: n.text@,
        loc: n.loc,
        handle: n.handle,
        children: nodes_view(n.children@),
    }
}

/// The values of the nodes `nodes`, in their order.
pub open spec fn nodes_view(nodes: Seq<Node>) -> Seq<NodeView>
    decreases nodes,
{
    Seq::new(
        nodes.len(),
        |i: int|
            if 0 <= i < nodes.len() {
                node_view(nodes[i])
            } else {
                arbitrary()
            },
    )
}

impl View for Node {
    type V = NodeView;

    open spec fn view(&self) -> NodeView {
        node_view(*self)
    }
}

impl View for Module {
    type V = ModuleView;

    open spec fn view(&self) -> ModuleView {
        ModuleView { body: nodes_view(self.body@) }
    }
}

impl Clone for Node {
    fn clone(&self) -> (r: Node)
        ensures
            r@ == self@,
    {
        self.duplicate()
    }
}

impl Clone for Module {
    fn clone(&self) -> (r: Module)
        ensures
            r@ == self@,
    {
        let mut body: Vec<Node> = Vec::new();
        let mut i: usize = 0;
        while i < self.body.len()
            invariant
                i <= self.body.len(),
                body.len() == i,
                forall|j: int| 0 <= j < i ==> (#[trigger] body[j])@ == self.body[j]@,
            decreases self.body.len() - i,
        {
            body.push(self.body[i].duplicate());
            i = i + 1;
        }
        assert(nodes_view(body@) =~= nodes_view(self.body@));
        Module { body }
    }
}

impl Location {
    /// The place of a node that does not come from the source text.
    pub open spec fn nowhere() -> Location {
        Location { line: 0, column: 0 }
    }

    /// The place of a node that does not come from the source text.
    pub fn none() -> (r: Location)
        ensures
            r == Location::nowhere(),
    {
        Location { line: 0, column: 0 }
    }
}

/// The node `n` with `children` in place of its own children.
pub open spec fn with_children(n: NodeView, children: Seq<NodeView>) -> NodeView {
    NodeView { kind: n.kind, text: n.text, loc: n.loc, handle: n.handle, children }
}

/// A created node: one with the handle 0.
pub open spec fn created(kind: Kind, text: Seq<char>, loc: Location, children: Seq<NodeView>) -> NodeView {
    NodeView { kind, text, loc, handle: 0, children }
}

/// The values of `nodes` followed by the value of `last` are the values of
/// `nodes` with `last` pushed.
pub proof fn lemma_nodes_view_push(nodes: Seq<Node>, last: Node)
    ensures
        nodes_view(nodes.push(last)) == nodes_view(nodes).push(node_view(last)),
{
    assert(nodes_view(nodes.push(last)) =~= nodes_view(nodes).push(node_view(last)));
}

/// The list that holds `a` alone.
pub(crate) fn one(a: Node) -> (v: Vec<Node>)
    ensures
        nodes_view(v@) == seq![a@],
{
    let mut v: Vec<Node> = Vec::new();
    v.push(a);
    assert(nodes_view(v@) =~= seq![a@]);
    v
}

/// The list that holds `a` and then `b`.
pub(crate) fn two(a: Node, b: Node) -> (v: Vec<Node>)
    ensures
        nodes_view(v@) == seq![a@, b@],
{
    let mut v: Vec<Node> = Vec::new();
    v.push(a);
    v.push(b);
    assert(nodes_view(v@) =~= seq![a@, b@]);
    v
}

impl Node {
    /// Creates a node with the given kind, text, place and children.
    pub fn new(kind: Kind, text: &str, loc: Location, children: Vec<Node>) -> (r: Node)
        ensures
            r@ == created(kind, text@, loc, nodes_view(children@)),
    {
        Node { kind, text: String::from_str(text), loc, handle: 0, children }
    }

    /// Creates a node without children and without a place.
    pub fn leaf(kind: Kind, text: &str) -> (r: Node)
        ensures
            r@ == created(kind, text@, Location::nowhere(), Seq::empty()),
    {
        let r = Node { kind, text: String::from_str(text), loc: Location::none(), handle: 0, children: Vec::new() };
        assert(nodes_view(r.children@) =~= Seq::empty());
        r
    }

    /// Creates a node that a host's node with the name `handle` turned into.
    pub fn from_host(kind: Kind, text: &str, loc: Location, handle: u32, children: Vec<Node>) -> (r: Node)
        ensures
            r@ == (NodeView { kind, text: text@, loc, handle, children: nodes_view(children@) }),
    {
        Node { kind, text: String::from_str(text), loc, handle, children }
    }

    /// The place of this node in the source text, as the host resolved it.
    pub fn location(&self) -> (r: Location)
        ensures
            r == self@.loc,
    {
        self.loc
    }

    /// A copy of this node and of everything below it.
    pub fn duplicate(&self) -> (r: Node)
        ensures
            r@ == self@,
        decreases self,
    {
        let mut children: Vec<Node> = Vec::new();
        let mut i: usize = 0;
        while i < self.children.len()
            invariant
                i <= self.children.len(),
                children.len() == i,
                forall|j: int| 0 <= j < i ==> (#[trigger] children[j])@ == self.children[j]@,
            decreases self.children.len() - i,
        {
            let child = self.children[i].duplicate();
            children.push(child);
            i = i + 1;
        }
        assert(nodes_view(children@) =~= nodes_view(self.children@));
        Node { kind: self.kind, text: self.text.clone(), loc: self.loc, handle: self.handle, children }
    }

    /// This node with `children` in place of its own.
    pub fn rebuilt(&self, children: Vec<Node>) -> (r: Node)
        ensures
            r@ == with_children(self@, nodes_view(children@)),
    {
        Node { kind: self.kind, text: self.text.clone(), loc: self.loc, handle: self.handle, children }
    }
}

} // verus!
