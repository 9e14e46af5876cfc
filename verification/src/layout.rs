//! The layout of the tree: how many children a node of a kind has and of
//! which kinds they are. A tree that is laid out well when the pass takes
//! it is laid out well when the pass hands it back.
use crate::ast::{created, nodes_view, with_children, Kind, Location, ModuleView, Node, NodeView};
use crate::config::runtime_symbol;
use crate::laws::lemma_leading_imports_in_range;
use crate::laws::lemma_rewrite_keeps_node;
use crate::rules::{
    exports_variables, has_runtime_import, instrumented, is_component_decl, is_default_component,
    is_hook_call_site, is_hook_utility, leading_imports, rewrite, rewrite_all, rewrite_declarator,
    scope_name, transformed, Rules,
};
use crate::site_id::site_id;
use crate::synth::{
    arg_text, arg_texts_view, arguments_of, call_view, callee_name, handle_method_view,
    ident_view, is_render_wrap, key_value_view, meta_obj_view, num_lit_view, probed_view,
    render_method, runtime_import_view, scope_handle, scope_metadata_view, scope_stmt_view,
    site_object_view, str_lit_view, wrapped_view,
};
use vstd::prelude::*;

verus! {

/// Whether the children of `n` are as many, and of such kinds, as the kind
/// of `n` asks for.
pub open spec fn laid_out(n: NodeView) -> bool {
    match n.kind {
        Kind::Member | Kind::Arg | Kind::Spread | Kind::Paren | Kind::KeyValue | Kind::Unary
        | Kind::ExportDecl | Kind::ExportDefaultDecl => n.children.len() == 1,
        Kind::Call => n.children.len() >= 1,
        Kind::Binary => n.children.len() == 2,
        Kind::Return => n.children.len() <= 1,
        Kind::Declarator => n.children.len() == 1 || n.children.len() == 2,
        Kind::Arrow => n.children.len() == 2 && n.children[0].kind == Kind::Params,
        Kind::FnExpr | Kind::FnDecl => {
            &&& n.children.len() == 1 || n.children.len() == 2
            &&& n.children[0].kind == Kind::Params
            &&& n.children.len() == 2 ==> n.children[1].kind == Kind::Block
        },
        Kind::VarDecl => forall|i: int|
            0 <= i < n.children.len() ==> (#[trigger] n.children[i]).kind == Kind::Declarator,
        _ => true,
    }
}

/// Whether `n` and every node below it is laid out as its kind asks for.
pub open spec fn well_formed(n: NodeView) -> bool
    decreases n,
{
    laid_out(n) && forall|i: int| 0 <= i < n.children.len() ==> well_formed(#[trigger] n.children[i])
}

/// Whether each of `nodes` is well formed.
pub open spec fn all_well_formed(nodes: Seq<NodeView>) -> bool {
    forall|i: int| 0 <= i < nodes.len() ==> well_formed(#[trigger] nodes[i])
}

/// Decides whether the children of `n` are laid out as its kind asks for.
pub fn is_laid_out(n: &Node) -> (r: bool)
    ensures
        r == laid_out(n@),
{
    assert(nodes_view(n.children@) == n@.children);
    let count = n.children.len();
    match n.kind {
        Kind::Member | Kind::Arg | Kind::Spread | Kind::Paren | Kind::KeyValue | Kind::Unary
        | Kind::ExportDecl | Kind::ExportDefaultDecl => count == 1,
        Kind::Call => count >= 1,
        Kind::Binary => count == 2,
        Kind::Return => count <= 1,
        Kind::Declarator => count == 1 || count == 2,
        Kind::Arrow => {
            if count == 2 {
                assert(n.children[0]@ == n@.children[0]);
                n.children[0].kind == Kind::Params
            } else {
                false
            }
        },
        Kind::FnExpr | Kind::FnDecl => {
            if count == 1 || count == 2 {
                assert(n.children[0]@ == n@.children[0]);
                if count == 2 {
                    assert(n.children[1]@ == n@.children[1]);
                }
                n.children[0].kind == Kind::Params && (count == 1 || n.children[1].kind == Kind::Block)
            } else {
                false
            }
        },
        Kind::VarDecl => {
            let mut i: usize = 0;
            while i < count
                invariant
                    i <= count,
                    count == n.children.len(),
                    n@.kind == Kind::VarDecl,
                    n@.children == nodes_view(n.children@),
                    forall|j: int| 0 <= j < i ==> (#[trigger] n@.children[j]).kind == Kind::Declarator,
                decreases count - i,
            {
                assert(n.children[i as int]@ == n@.children[i as int]);
                if !(n.children[i].kind == Kind::Declarator) {
                    assert(n@.children[i as int].kind != Kind::Declarator);
                    return false;
                }
                i = i + 1;
            }
            true
        },
        _ => true,
    }
}

/// Decides whether `n` and every node below it is laid out as its kind
/// asks for.
pub fn is_well_formed(n: &Node) -> (r: bool)
    ensures
        r == well_formed(n@),
    decreases n,
{
    assert(nodes_view(n.children@) == n@.children);
    if !is_laid_out(n) {
        return false;
    }
    let mut i: usize = 0;
    while i < n.children.len()
        invariant
            i <= n.children.len(),
            n@.children == nodes_view(n.children@),
            forall|j: int| 0 <= j < i ==> well_formed(#[trigger] n@.children[j]),
        decreases n.children.len() - i,
    {
        assert(n.children[i as int]@ == n@.children[i as int]);
        if !is_well_formed(&n.children[i]) {
            return false;
        }
        i = i + 1;
    }
    true
}

proof fn lemma_leaf(kind: Kind, text: Seq<char>)
    requires
        kind == Kind::Ident || kind == Kind::StringLit || kind == Kind::NumberLit || kind
            == Kind::ImportNamed,
    ensures
        well_formed(created(kind, text, Location::nowhere(), Seq::empty())),
{
}

proof fn lemma_property(key: Seq<char>, value: NodeView)
    requires
        well_formed(value),
    ensures
        well_formed(key_value_view(key, value)),
{
}

proof fn lemma_handle_method(method: Seq<char>)
    ensures
        well_formed(handle_method_view(method)),
{
    lemma_leaf(Kind::Ident, scope_handle());
}

proof fn lemma_call(callee: NodeView, args: Seq<NodeView>, loc: Location)
    requires
        well_formed(callee),
        all_well_formed(args),
    ensures
        well_formed(call_view(callee, args, loc)),
{
    let children = seq![callee] + args;
    assert forall|i: int| 0 <= i < children.len() implies well_formed(#[trigger] children[i]) by {
        if i > 0 {
            assert(children[i] == args[i - 1]);
        }
    }
}

proof fn lemma_site_object(name: Seq<char>, id: Seq<char>, file: Seq<char>, line: u32, column: u32)
    ensures
        well_formed(site_object_view(name, id, file, line, column)),
{
    lemma_property("name"@, str_lit_view(name));
    lemma_property("id"@, str_lit_view(id));
    lemma_property("file"@, str_lit_view(file));
    lemma_property("line"@, num_lit_view(line));
    lemma_property("column"@, num_lit_view(column));
}

/// The statement that binds a scope handle is well formed.
pub proof fn lemma_scope_stmt_well_formed(name: Seq<char>, file: Seq<char>, loc: Location)
    ensures
        well_formed(scope_stmt_view(name, file, loc)),
        scope_stmt_view(name, file, loc).kind == Kind::VarDecl,
{
    let meta = scope_metadata_view(name, file, loc);
    lemma_site_object(name, site_id(file, loc.line, loc.column), file, loc.line, loc.column);
    lemma_leaf(Kind::Ident, runtime_symbol());
    lemma_leaf(Kind::Ident, scope_handle());
    lemma_call(ident_view(runtime_symbol()), seq![meta], Location::nowhere());
    let declarator = scope_stmt_view(name, file, loc).children[0];
    assert(well_formed(declarator));
}

proof fn lemma_meta_well_formed(file: Seq<char>, hook: Seq<char>, loc: Location, args: Option<Seq<NodeView>>)
    ensures
        well_formed(meta_obj_view(file, hook, loc, args)),
{
    let id = site_id(file, loc.line, loc.column);
    lemma_property("id"@, str_lit_view(id));
    lemma_property("file"@, str_lit_view(file));
    lemma_property("hook"@, str_lit_view(hook));
    lemma_property("line"@, num_lit_view(loc.line));
    lemma_property("column"@, num_lit_view(loc.column));
    if let Some(a) = args {
        let texts = arg_texts_view(a);
        assert forall|j: int| 0 <= j < texts.children.len() implies well_formed(
            #[trigger] texts.children[j],
        ) by {
            lemma_leaf(Kind::StringLit, arg_text(a[j]));
        }
        assert(well_formed(texts));
        lemma_property("arguments"@, texts);
    }
}

/// A well-formed hook call between its probes is well formed.
pub proof fn lemma_probes_well_formed(file: Seq<char>, include_arguments: bool, call: NodeView)
    requires
        well_formed(call),
    ensures
        well_formed(probed_view(file, include_arguments, call)),
{
    let paren = probed_view(file, include_arguments, call);
    let sequence = paren.children[0];
    let meta = sequence.children[1].children[2];
    lemma_meta_well_formed(
        file,
        callee_name(call),
        call.loc,
        if include_arguments {
            Some(arguments_of(call))
        } else {
            None
        },
    );
    let id = str_lit_view(site_id(file, call.loc.line, call.loc.column));
    lemma_handle_method("s"@);
    lemma_handle_method("e"@);
    lemma_call(handle_method_view("s"@), seq![id], call.loc);
    lemma_call(handle_method_view("e"@), seq![call, meta], call.loc);
    assert(well_formed(sequence));
}

/// A wrapped value is well formed where the value is.
pub proof fn lemma_wrap_well_formed(e: NodeView)
    requires
        well_formed(e),
    ensures
        well_formed(wrapped_view(e)),
{
    if !is_render_wrap(e) {
        lemma_handle_method(render_method());
        lemma_call(handle_method_view(render_method()), seq![e], e.loc);
    }
}

/// A node that is rewritten keeps its kind, unless it is a call.
proof fn lemma_kind_stays(rules: Rules, scope: Option<Seq<char>>, n: NodeView)
    requires
        n.kind != Kind::Call,
    ensures
        rewrite(rules, scope, n).kind == n.kind,
{
    lemma_rewrite_keeps_node(rules, scope, n);
}

/// A well-formed node is well formed after it was rewritten.
pub proof fn lemma_rewrite_keeps_layout(rules: Rules, scope: Option<Seq<char>>, n: NodeView)
    requires
        well_formed(n),
    ensures
        well_formed(rewrite(rules, scope, n)),
    decreases n, 1nat,
{
    let r = rewrite(rules, scope, n);
    if is_component_decl(n) {
        lemma_instrumented_keeps_layout(rules, scope, n.text, n);
    } else if is_default_component(n) {
        assert(well_formed(n.children[0]));
        lemma_instrumented_keeps_layout(rules, scope, scope_name(n.children[0]), n.children[0]);
    } else if exports_variables(n) {
        let decl = n.children[0];
        let decls = r.children[0].children;
        assert(well_formed(decl));
        assert forall|i: int| 0 <= i < decls.len() implies well_formed(#[trigger] decls[i]) && decls[i].kind
            == Kind::Declarator by {
            assert(well_formed(decl.children[i]));
            lemma_declarator_keeps_layout(rules, scope, decl.children[i]);
        }
        assert(well_formed(r.children[0]));
    } else if scope is Some && n.kind == Kind::Return && n.children.len() == 1 {
        lemma_rewrite_keeps_layout(rules, scope, n.children[0]);
        lemma_wrap_well_formed(rewrite(rules, scope, n.children[0]));
    } else {
        let children = rewrite_all(rules, scope, n.children);
        assert forall|i: int| 0 <= i < children.len() implies well_formed(#[trigger] children[i]) && (
        n.children[i].kind != Kind::Call ==> children[i].kind == n.children[i].kind) by {
            assert(well_formed(n.children[i]));
            lemma_rewrite_keeps_layout(rules, scope, n.children[i]);
            if n.children[i].kind != Kind::Call {
                lemma_kind_stays(rules, scope, n.children[i]);
            }
        }
        let kept = with_children(n, children);
        assert(laid_out(kept));
        assert(well_formed(kept));
        if scope is Some && is_hook_call_site(rules, n) {
            lemma_probes_well_formed(rules.file, rules.include_arguments, kept);
        }
    }
}

proof fn lemma_declarator_keeps_layout(rules: Rules, scope: Option<Seq<char>>, d: NodeView)
    requires
        well_formed(d),
        d.kind == Kind::Declarator,
    ensures
        well_formed(rewrite_declarator(rules, scope, d)),
        rewrite_declarator(rules, scope, d).kind == Kind::Declarator,
    decreases d, 2nat,
{
    if is_hook_utility(d) {
        assert(well_formed(d.children[0]));
        assert(well_formed(d.children[1]));
        lemma_rewrite_keeps_layout(rules, scope, d.children[0]);
        lemma_instrumented_keeps_layout(rules, scope, d.children[0].text, d.children[1]);
    } else {
        lemma_rewrite_keeps_layout(rules, scope, d);
        lemma_kind_stays(rules, scope, d);
    }
}

proof fn lemma_instrumented_keeps_layout(rules: Rules, outer: Option<Seq<char>>, name: Seq<char>, f: NodeView)
    requires
        well_formed(f),
        f.kind == Kind::FnDecl || f.kind == Kind::FnExpr || f.kind == Kind::Arrow,
    ensures
        well_formed(instrumented(rules, outer, name, f)),
        instrumented(rules, outer, name, f).kind == f.kind,
    decreases f, 0nat,
{
    if f.children.len() == 2 {
        let params = f.children[0];
        let body = f.children[1];
        let scope = Some(name);
        let first = scope_stmt_view(name, rules.file, f.loc);
        let r = instrumented(rules, outer, name, f);
        assert(well_formed(params));
        assert(well_formed(body));
        lemma_rewrite_keeps_layout(rules, outer, params);
        lemma_kind_stays(rules, outer, params);
        lemma_scope_stmt_well_formed(name, rules.file, f.loc);
        if body.kind == Kind::Block {
            let stmts = rewrite_all(rules, scope, body.children);
            assert forall|i: int| 0 <= i < stmts.len() implies well_formed(#[trigger] stmts[i]) by {
                assert(well_formed(body.children[i]));
                lemma_rewrite_keeps_layout(rules, scope, body.children[i]);
            }
            let all = seq![first] + stmts;
            assert forall|i: int| 0 <= i < all.len() implies well_formed(#[trigger] all[i]) by {
                if i > 0 {
                    assert(all[i] == stmts[i - 1]);
                }
            }
            assert(well_formed(r.children[1]));
        } else {
            lemma_rewrite_keeps_layout(rules, scope, body);
            lemma_wrap_well_formed(rewrite(rules, scope, body));
            let returned = r.children[1].children[1];
            assert(well_formed(returned));
            assert(well_formed(r.children[1]));
        }
        assert(r.children[1].kind == Kind::Block);
        assert(laid_out(r));
    }
}

/// The pass hands back a well-formed module where it was handed one.
pub proof fn lemma_pass_keeps_layout(rules: Rules, excluded: bool, m: ModuleView)
    requires
        all_well_formed(m.body),
    ensures
        all_well_formed(transformed(rules, excluded, m).body),
{
    if !excluded {
        let body = rewrite_all(rules, None, m.body);
        assert forall|i: int| 0 <= i < body.len() implies well_formed(#[trigger] body[i]) by {
            assert(well_formed(m.body[i]));
            lemma_rewrite_keeps_layout(rules, None, m.body[i]);
        }
        if !has_runtime_import(body) {
            lemma_leading_imports_in_range(body);
            let at = leading_imports(body);
            let import = runtime_import_view();
            lemma_leaf(Kind::ImportNamed, runtime_symbol());
            assert(well_formed(import));
            let longer = body.insert(at, import);
            assert forall|i: int| 0 <= i < longer.len() implies well_formed(#[trigger] longer[i]) by {
                if i < at {
                    assert(longer[i] == body[i]);
                } else if i > at {
                    assert(longer[i] == body[i - 1]);
                }
            }
        }
    }
}

} // verus!
