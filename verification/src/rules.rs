//! What the pass does to a tree, stated as mathematical functions: which
//! declarations are instrumented, and what every node turns into.
use crate::analyze::{contains_probe, is_hook_call};
use crate::ast::{created, with_children, Kind, ModuleView, NodeView};
use crate::config::{runtime_module, runtime_symbol};
use crate::naming::{component_name, hook_name};
use crate::synth::{
    anonymous_name, callee_name, probed_view, runtime_import_view, scope_stmt_view, wrapped_view,
};
use vstd::prelude::*;

verus! {

/// What a walk over a module depends on besides the tree.
pub struct Rules {
    /// The path of the module's file, as it is written into the metadata.
    pub file: Seq<char>,
    /// The names of the hooks whose calls are left alone.
    pub ignored: Seq<Seq<char>>,
    /// Whether the metadata of a hook call records the arguments' texts.
    pub include_arguments: bool,
}

/// Whether a call of `name` is rewritten inside an instrumented function:
/// the name follows the hook-naming convention, is not in the ignore list,
/// and is not the runtime's own initializer.
pub open spec fn should_rewrite(ignored: Seq<Seq<char>>, name: Seq<char>) -> bool {
    hook_name(name) && !ignored.contains(name) && name != runtime_symbol()
}

/// Whether `n` is a hook call site in a walk under `rules`: a call of a
/// plain identifier that is rewritten inside an instrumented function.
pub open spec fn is_hook_call_site(rules: Rules, n: NodeView) -> bool {
    is_hook_call(n) && should_rewrite(rules.ignored, callee_name(n))
}

/// Whether the function `f` has a body: its children are its parameters
/// and a block.
pub open spec fn has_body(f: NodeView) -> bool {
    f.children.len() == 2 && f.children[1].kind == Kind::Block
}

/// Whether the function `f` is instrumented as a component: its name is
/// that of a component (or it has none, where `anonymous_ok`), it has a
/// body, and the code of the body holds JSX or a hook call.
pub open spec fn eligible_function(f: NodeView, anonymous_ok: bool) -> bool {
    &&& component_name(f.text) || (anonymous_ok && f.text.len() == 0)
    &&& has_body(f)
    &&& contains_probe(f.children[1])
}

/// Whether `n` is a function declaration that is instrumented.
pub open spec fn is_component_decl(n: NodeView) -> bool {
    n.kind == Kind::FnDecl && eligible_function(n, false)
}

/// Whether `n` is a default export of a function expression.
pub open spec fn exports_default_function(n: NodeView) -> bool {
    n.kind == Kind::ExportDefaultDecl && n.children.len() == 1 && n.children[0].kind
        == Kind::FnExpr
}

/// Whether `n` is a default export of a function that is instrumented.
pub open spec fn is_default_component(n: NodeView) -> bool {
    exports_default_function(n) && eligible_function(n.children[0], true)
}

/// Whether `n` is an export of a variable declaration.
pub open spec fn exports_variables(n: NodeView) -> bool {
    n.kind == Kind::ExportDecl && n.children.len() == 1 && n.children[0].kind == Kind::VarDecl
}

/// Whether the declarator `d` binds a hook utility: a name that follows
/// the hook-naming convention, bound to an arrow function. Such a binding
/// is instrumented by its name alone where it is exported.
pub open spec fn is_hook_utility(d: NodeView) -> bool {
    &&& d.kind == Kind::Declarator
    &&& d.children.len() == 2
    &&& d.children[0].kind == Kind::Ident
    &&& hook_name(d.children[0].text)
    &&& d.children[1].kind == Kind::Arrow
    &&& d.children[1].children.len() == 2
}

/// The name of the scope of the function `f`: its own name, or a fixed one
/// where it has none.
pub open spec fn scope_name(f: NodeView) -> Seq<char> {
    if f.text.len() == 0 {
        anonymous_name()
    } else {
        f.text
    }
}

/// The function `f`, whose children are its parameters and its body, met
/// in the scope `outer` and instrumented under the name `name`. Its body is
/// rewritten inside the new scope and starts with the statement that binds
/// the scope handle; a body that is a single expression becomes a block
/// that returns that expression. Its parameters are rewritten in the scope
/// around the function, because the handle of the new scope is bound only
/// in the body.
pub open spec fn instrumented(rules: Rules, outer: Option<Seq<char>>, name: Seq<char>, f: NodeView) -> NodeView
    recommends
        f.children.len() == 2,
    decreases f, 0nat,
{
    let scope = Some(name);
    let body = f.children[1];
    let first = scope_stmt_view(name, rules.file, f.loc);
    if f.children.len() == 2 {
        with_children(
            f,
            seq![
                rewrite(rules, outer, f.children[0]),
                if body.kind == Kind::Block {
                    with_children(body, seq![first] + rewrite_all(rules, scope, body.children))
                } else {
                    created(
                        Kind::Block,
                        Seq::empty(),
                        body.loc,
                        seq![
                            first,
                            created(
                                Kind::Return,
                                Seq::empty(),
                                body.loc,
                                seq![wrapped_view(rewrite(rules, scope, body))],
                            ),
                        ],
                    )
                },
            ],
        )
    } else {
        f
    }
}

/// What the declarator `d` of an exported variable declaration turns into.
pub open spec fn rewrite_declarator(rules: Rules, scope: Option<Seq<char>>, d: NodeView) -> NodeView
    decreases d, 2nat,
{
    if is_hook_utility(d) {
        with_children(
            d,
            seq![
                rewrite(rules, scope, d.children[0]),
                instrumented(rules, scope, d.children[0].text, d.children[1]),
            ],
        )
    } else {
        rewrite(rules, scope, d)
    }
}

/// What the node `n` turns into when it is met in the scope `scope`, which
/// is the name of the instrumented function around it, if there is one.
///
/// The rules, of which the first that fits applies:
/// - an instrumented function declaration opens a scope of its own for its
///   body;
/// - so does a default export of an instrumented function;
/// - of an exported variable declaration, each hook utility opens one;
/// - inside a scope, a `return` of a value returns the wrapped value;
/// - inside a scope, a hook call that is not ignored is put between its
///   two probes, after its parts were rewritten;
/// - of anything else only the children change.
pub open spec fn rewrite(rules: Rules, scope: Option<Seq<char>>, n: NodeView) -> NodeView
    decreases n, 1nat,
{
    if is_component_decl(n) {
        instrumented(rules, scope, n.text, n)
    } else if is_default_component(n) {
        with_children(n, seq![instrumented(rules, scope, scope_name(n.children[0]), n.children[0])])
    } else if exports_variables(n) {
        with_children(
            n,
            seq![
                with_children(
                    n.children[0],
                    Seq::new(
                        n.children[0].children.len(),
                        |i: int|
                            if 0 <= i < n.children[0].children.len() {
                                rewrite_declarator(rules, scope, n.children[0].children[i])
                            } else {
                                arbitrary()
                            },
                    ),
                ),
            ],
        )
    } else if scope is Some && n.kind == Kind::Return && n.children.len() == 1 {
        with_children(n, seq![wrapped_view(rewrite(rules, scope, n.children[0]))])
    } else if scope is Some && is_hook_call_site(rules, n) {
        probed_view(
            rules.file,
            rules.include_arguments,
            with_children(n, rewrite_all(rules, scope, n.children)),
        )
    } else {
        with_children(n, rewrite_all(rules, scope, n.children))
    }
}

/// What the nodes `nodes` turn into, each by itself.
pub open spec fn rewrite_all(rules: Rules, scope: Option<Seq<char>>, nodes: Seq<NodeView>) -> Seq<
    NodeView,
>
    decreases nodes, 0nat,
{
    Seq::new(
        nodes.len(),
        |i: int|
            if 0 <= i < nodes.len() {
                rewrite(rules, scope, nodes[i])
            } else {
                arbitrary()
            },
    )
}

/// Whether the walk over `n` instruments a declaration: `n` itself or one
/// inside it.
pub open spec fn instruments(n: NodeView) -> bool
    decreases n,
{
    if is_component_decl(n) || is_default_component(n) {
        true
    } else if exports_variables(n) {
        exists|i: int|
            0 <= i < n.children[0].children.len() && (is_hook_utility(
                #[trigger] n.children[0].children[i],
            ) || instruments(n.children[0].children[i]))
    } else {
        exists|i: int| 0 <= i < n.children.len() && instruments(#[trigger] n.children[i])
    }
}

/// Whether the walk over one of `nodes` instruments a declaration.
pub open spec fn any_instruments(nodes: Seq<NodeView>) -> bool {
    exists|i: int| 0 <= i < nodes.len() && instruments(#[trigger] nodes[i])
}

/// Whether `n` imports the runtime's initializer: a named import of that
/// symbol from that module.
pub open spec fn is_runtime_import(n: NodeView) -> bool {
    &&& n.kind == Kind::Import
    &&& n.text == runtime_module()
    &&& exists|j: int|
        0 <= j < n.children.len() && (#[trigger] n.children[j]).kind == Kind::ImportNamed
            && n.children[j].text == runtime_symbol()
}

/// Whether one of the items `body` imports the runtime's initializer.
pub open spec fn has_runtime_import(body: Seq<NodeView>) -> bool {
    exists|i: int| 0 <= i < body.len() && is_runtime_import(#[trigger] body[i])
}

/// The number of imports that `body` starts with.
pub open spec fn leading_imports(body: Seq<NodeView>) -> int
    decreases body.len(),
{
    if body.len() > 0 && body[0].kind == Kind::Import {
        1 + leading_imports(body.drop_first())
    } else {
        0
    }
}

/// The items `body` with the import of the runtime's initializer: as they
/// are where they hold that import, and else with it put in right after
/// the imports that `body` starts with.
pub open spec fn with_runtime_import(body: Seq<NodeView>) -> Seq<NodeView> {
    if has_runtime_import(body) {
        body
    } else {
        body.insert(leading_imports(body), runtime_import_view())
    }
}

/// What the module `m` turns into: nothing else where it is excluded, and
/// else its items rewritten outside of any scope, with the import of the
/// runtime where a declaration was instrumented.
pub open spec fn transformed(rules: Rules, excluded: bool, m: ModuleView) -> ModuleView {
    if excluded {
        m
    } else if any_instruments(m.body) {
        ModuleView { body: with_runtime_import(rewrite_all(rules, None, m.body)) }
    } else {
        ModuleView { body: rewrite_all(rules, None, m.body) }
    }
}

} // verus!
