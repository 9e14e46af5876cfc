//! The pass only adds: every node of the host is in the result as often as
//! it was in the tree before, so that nothing of the program is lost and
//! nothing is there twice.
use crate::ast::{created, with_children, Kind, Location, ModuleView, NodeView};
use crate::config::runtime_symbol;
use crate::laws::lemma_leading_imports_in_range;
use crate::rules::{
    exports_variables, has_runtime_import, instrumented, is_component_decl, is_default_component,
    is_hook_call_site, is_hook_utility, leading_imports, rewrite, rewrite_all, rewrite_declarator,
    scope_name, transformed, with_runtime_import, Rules,
};
use crate::site_id::site_id;
use crate::synth::{
    arg_texts_view, arguments_of, call_view, callee_name, end_call_view, handle_method_view,
    ident_view, is_render_wrap, key_value_view, meta_obj_view, num_lit_view, probed_view,
    render_method, runtime_import_view, scope_handle, scope_metadata_view, scope_stmt_view,
    site_object_view, start_call_view, str_lit_view, wrapped_view,
};
use vstd::prelude::*;

verus! {

/// How often the handle `handle` occurs in the tree `n`.
pub open spec fn occurrences(n: NodeView, handle: u32) -> nat
    decreases n,
{
    occurrences_in(n.children, handle) + if n.handle == handle {
        1nat
    } else {
        0nat
    }
}

/// How often the handle `handle` occurs in the trees `nodes`.
pub open spec fn occurrences_in(nodes: Seq<NodeView>, handle: u32) -> nat
    decreases nodes,
{
    if nodes.len() == 0 {
        0
    } else {
        occurrences_in(nodes.drop_last(), handle) + occurrences(nodes.last(), handle)
    }
}

proof fn lemma_one(a: NodeView, handle: u32)
    ensures
        occurrences_in(seq![a], handle) == occurrences(a, handle),
{
    reveal_with_fuel(occurrences_in, 2);
    assert(seq![a].drop_last() =~= Seq::<NodeView>::empty());
    assert(seq![a].last() == a);
}

proof fn lemma_two(a: NodeView, b: NodeView, handle: u32)
    ensures
        occurrences_in(seq![a, b], handle) == occurrences(a, handle) + occurrences(b, handle),
{
    assert(seq![a, b].drop_last() =~= seq![a]);
    assert(seq![a, b].last() == b);
    lemma_one(a, handle);
}

proof fn lemma_joined(a: Seq<NodeView>, b: Seq<NodeView>, handle: u32)
    ensures
        occurrences_in(a + b, handle) == occurrences_in(a, handle) + occurrences_in(b, handle),
    decreases b.len(),
{
    if b.len() == 0 {
        assert(a + b =~= a);
    } else {
        lemma_joined(a, b.drop_last(), handle);
        assert((a + b).drop_last() =~= a + b.drop_last());
        assert((a + b).last() == b.last());
    }
}

proof fn lemma_pointwise(a: Seq<NodeView>, b: Seq<NodeView>, handle: u32)
    requires
        a.len() == b.len(),
        forall|i: int| 0 <= i < a.len() ==> occurrences(#[trigger] a[i], handle) == occurrences(b[i], handle),
    ensures
        occurrences_in(a, handle) == occurrences_in(b, handle),
    decreases a.len(),
{
    if a.len() > 0 {
        lemma_pointwise(a.drop_last(), b.drop_last(), handle);
        assert(a.last() == a[a.len() - 1]);
        assert(b.last() == b[b.len() - 1]);
    }
}

proof fn lemma_none_in(nodes: Seq<NodeView>, handle: u32)
    requires
        forall|i: int| 0 <= i < nodes.len() ==> occurrences(#[trigger] nodes[i], handle) == 0,
    ensures
        occurrences_in(nodes, handle) == 0,
    decreases nodes.len(),
{
    if nodes.len() > 0 {
        lemma_none_in(nodes.drop_last(), handle);
        assert(nodes.last() == nodes[nodes.len() - 1]);
    }
}

proof fn lemma_leaf(kind: Kind, text: Seq<char>, handle: u32)
    requires
        handle != 0,
    ensures
        occurrences(created(kind, text, Location::nowhere(), Seq::empty()), handle) == 0,
{
}

proof fn lemma_property(key: Seq<char>, value: NodeView, handle: u32)
    requires
        handle != 0,
    ensures
        occurrences(key_value_view(key, value), handle) == occurrences(value, handle),
{
    lemma_one(value, handle);
}

proof fn lemma_handle_method(method: Seq<char>, handle: u32)
    requires
        handle != 0,
    ensures
        occurrences(handle_method_view(method), handle) == 0,
{
    lemma_one(ident_view(scope_handle()), handle);
}

proof fn lemma_call(callee: NodeView, args: Seq<NodeView>, loc: Location, handle: u32)
    requires
        handle != 0,
    ensures
        occurrences(call_view(callee, args, loc), handle) == occurrences(callee, handle) + occurrences_in(
            args,
            handle,
        ),
{
    lemma_joined(seq![callee], args, handle);
    lemma_one(callee, handle);
}

proof fn lemma_site_object(name: Seq<char>, id: Seq<char>, file: Seq<char>, line: u32, column: u32, handle: u32)
    requires
        handle != 0,
    ensures
        occurrences(site_object_view(name, id, file, line, column), handle) == 0,
{
    let props = site_object_view(name, id, file, line, column).children;
    assert forall|i: int| 0 <= i < props.len() implies occurrences(#[trigger] props[i], handle) == 0 by {
        lemma_property("name"@, str_lit_view(name), handle);
        lemma_property("id"@, str_lit_view(id), handle);
        lemma_property("file"@, str_lit_view(file), handle);
        lemma_property("line"@, num_lit_view(line), handle);
        lemma_property("column"@, num_lit_view(column), handle);
    }
    lemma_none_in(props, handle);
}

/// The statement that binds a scope handle holds no node of the host.
pub proof fn lemma_scope_stmt_is_new(name: Seq<char>, file: Seq<char>, loc: Location, handle: u32)
    requires
        handle != 0,
    ensures
        occurrences(scope_stmt_view(name, file, loc), handle) == 0,
{
    let meta = scope_metadata_view(name, file, loc);
    lemma_site_object(name, site_id(file, loc.line, loc.column), file, loc.line, loc.column, handle);
    let init = call_view(ident_view(runtime_symbol()), seq![meta], Location::nowhere());
    lemma_call(ident_view(runtime_symbol()), seq![meta], Location::nowhere(), handle);
    lemma_one(meta, handle);
    let declarator = scope_stmt_view(name, file, loc).children[0];
    lemma_two(ident_view(scope_handle()), init, handle);
    assert(declarator.children =~= seq![ident_view(scope_handle()), init]);
    lemma_one(declarator, handle);
    assert(scope_stmt_view(name, file, loc).children =~= seq![declarator]);
}

proof fn lemma_meta_is_new(
    file: Seq<char>,
    hook: Seq<char>,
    loc: Location,
    args: Option<Seq<NodeView>>,
    handle: u32,
)
    requires
        handle != 0,
    ensures
        occurrences(meta_obj_view(file, hook, loc, args), handle) == 0,
{
    let props = meta_obj_view(file, hook, loc, args).children;
    let id = site_id(file, loc.line, loc.column);
    assert forall|i: int| 0 <= i < props.len() implies occurrences(#[trigger] props[i], handle) == 0 by {
        lemma_property("id"@, str_lit_view(id), handle);
        lemma_property("file"@, str_lit_view(file), handle);
        lemma_property("hook"@, str_lit_view(hook), handle);
        lemma_property("line"@, num_lit_view(loc.line), handle);
        lemma_property("column"@, num_lit_view(loc.column), handle);
        if let Some(a) = args {
            let texts = arg_texts_view(a);
            assert forall|j: int| 0 <= j < texts.children.len() implies occurrences(
                #[trigger] texts.children[j],
                handle,
            ) == 0 by {}
            lemma_none_in(texts.children, handle);
            lemma_property("arguments"@, texts, handle);
        }
    }
    lemma_none_in(props, handle);
}

/// A hook call between its probes holds the nodes of the host that the
/// call holds, and no others.
pub proof fn lemma_probes_keep_the_call(file: Seq<char>, include_arguments: bool, call: NodeView, handle: u32)
    requires
        handle != 0,
    ensures
        occurrences(probed_view(file, include_arguments, call), handle) == occurrences(call, handle),
{
    let paren = probed_view(file, include_arguments, call);
    let sequence = paren.children[0];
    let start = start_call_view(file, call.loc);
    let meta = sequence.children[1].children[2];
    let end = end_call_view(call, meta);
    assert(sequence.children =~= seq![start, end]);
    lemma_meta_is_new(
        file,
        callee_name(call),
        call.loc,
        if include_arguments {
            Some(arguments_of(call))
        } else {
            None
        },
        handle,
    );
    let id = str_lit_view(site_id(file, call.loc.line, call.loc.column));
    lemma_handle_method("s"@, handle);
    lemma_handle_method("e"@, handle);
    lemma_call(handle_method_view("s"@), seq![id], call.loc, handle);
    lemma_one(id, handle);
    lemma_call(handle_method_view("e"@), seq![call, meta], call.loc, handle);
    lemma_two(call, meta, handle);
    lemma_two(start, end, handle);
    lemma_one(sequence, handle);
    assert(paren.children =~= seq![sequence]);
}

/// A wrapped value holds the nodes of the host that the value holds, and no
/// others.
pub proof fn lemma_wrap_keeps_the_value(e: NodeView, handle: u32)
    requires
        handle != 0,
    ensures
        occurrences(wrapped_view(e), handle) == occurrences(e, handle),
{
    if !is_render_wrap(e) {
        lemma_handle_method(render_method(), handle);
        lemma_call(handle_method_view(render_method()), seq![e], e.loc, handle);
        lemma_one(e, handle);
    }
}

/// Rewriting a node keeps every node of the host exactly as often as it was
/// there.
pub proof fn lemma_rewrite_keeps_host_nodes(rules: Rules, scope: Option<Seq<char>>, n: NodeView, handle: u32)
    requires
        handle != 0,
    ensures
        occurrences(rewrite(rules, scope, n), handle) == occurrences(n, handle),
    decreases n, 1nat,
{
    if is_component_decl(n) {
        lemma_instrumented_keeps_host_nodes(rules, scope, n.text, n, handle);
    } else if is_default_component(n) {
        let f = n.children[0];
        lemma_instrumented_keeps_host_nodes(rules, scope, scope_name(f), f, handle);
        lemma_one(instrumented(rules, scope, scope_name(f), f), handle);
        lemma_one(f, handle);
        assert(n.children =~= seq![f]);
    } else if exports_variables(n) {
        let decl = n.children[0];
        let decls = rewrite(rules, scope, n).children[0].children;
        assert forall|i: int| 0 <= i < decl.children.len() implies occurrences(#[trigger] decls[i], handle)
            == occurrences(decl.children[i], handle) by {
            lemma_declarator_keeps_host_nodes(rules, scope, decl.children[i], handle);
        }
        lemma_pointwise(decls, decl.children, handle);
        lemma_one(with_children(decl, decls), handle);
        lemma_one(decl, handle);
        assert(n.children =~= seq![decl]);
    } else if scope is Some && n.kind == Kind::Return && n.children.len() == 1 {
        let value = n.children[0];
        lemma_rewrite_keeps_host_nodes(rules, scope, value, handle);
        lemma_wrap_keeps_the_value(rewrite(rules, scope, value), handle);
        lemma_one(wrapped_view(rewrite(rules, scope, value)), handle);
        lemma_one(value, handle);
        assert(n.children =~= seq![value]);
    } else {
        lemma_rewrite_all_keeps_host_nodes(rules, scope, n.children, handle);
        if scope is Some && is_hook_call_site(rules, n) {
            lemma_probes_keep_the_call(
                rules.file,
                rules.include_arguments,
                with_children(n, rewrite_all(rules, scope, n.children)),
                handle,
            );
        }
    }
}

/// Rewriting nodes keeps every node of the host exactly as often as it was
/// there.
pub proof fn lemma_rewrite_all_keeps_host_nodes(
    rules: Rules,
    scope: Option<Seq<char>>,
    nodes: Seq<NodeView>,
    handle: u32,
)
    requires
        handle != 0,
    ensures
        occurrences_in(rewrite_all(rules, scope, nodes), handle) == occurrences_in(nodes, handle),
    decreases nodes, 0nat,
{
    let out = rewrite_all(rules, scope, nodes);
    assert forall|i: int| 0 <= i < nodes.len() implies occurrences(#[trigger] out[i], handle) == occurrences(
        nodes[i],
        handle,
    ) by {
        lemma_rewrite_keeps_host_nodes(rules, scope, nodes[i], handle);
    }
    lemma_pointwise(out, nodes, handle);
}

proof fn lemma_declarator_keeps_host_nodes(rules: Rules, scope: Option<Seq<char>>, d: NodeView, handle: u32)
    requires
        handle != 0,
    ensures
        occurrences(rewrite_declarator(rules, scope, d), handle) == occurrences(d, handle),
    decreases d, 2nat,
{
    if is_hook_utility(d) {
        let name = d.children[0];
        let arrow = d.children[1];
        lemma_rewrite_keeps_host_nodes(rules, scope, name, handle);
        lemma_instrumented_keeps_host_nodes(rules, scope, name.text, arrow, handle);
        lemma_two(rewrite(rules, scope, name), instrumented(rules, scope, name.text, arrow), handle);
        lemma_two(name, arrow, handle);
        assert(d.children =~= seq![name, arrow]);
    } else {
        lemma_rewrite_keeps_host_nodes(rules, scope, d, handle);
    }
}

proof fn lemma_instrumented_keeps_host_nodes(
    rules: Rules,
    outer: Option<Seq<char>>,
    name: Seq<char>,
    f: NodeView,
    handle: u32,
)
    requires
        handle != 0,
    ensures
        occurrences(instrumented(rules, outer, name, f), handle) == occurrences(f, handle),
    decreases f, 0nat,
{
    if f.children.len() == 2 {
        let params = f.children[0];
        let body = f.children[1];
        let scope = Some(name);
        let first = scope_stmt_view(name, rules.file, f.loc);
        let new_body = instrumented(rules, outer, name, f).children[1];
        lemma_rewrite_keeps_host_nodes(rules, outer, params, handle);
        lemma_scope_stmt_is_new(name, rules.file, f.loc, handle);
        if body.kind == Kind::Block {
            lemma_rewrite_all_keeps_host_nodes(rules, scope, body.children, handle);
            lemma_joined(seq![first], rewrite_all(rules, scope, body.children), handle);
            lemma_one(first, handle);
        } else {
            lemma_rewrite_keeps_host_nodes(rules, scope, body, handle);
            let value = wrapped_view(rewrite(rules, scope, body));
            lemma_wrap_keeps_the_value(rewrite(rules, scope, body), handle);
            let returned = created(Kind::Return, Seq::empty(), body.loc, seq![value]);
            lemma_one(value, handle);
            lemma_two(first, returned, handle);
            assert(new_body.children =~= seq![first, returned]);
        }
        assert(occurrences(new_body, handle) == occurrences(body, handle));
        lemma_two(rewrite(rules, outer, params), new_body, handle);
        lemma_two(params, body, handle);
        assert(f.children =~= seq![params, body]);
    }
}

/// Putting the import of the runtime in adds no node of the host.
proof fn lemma_import_is_new(body: Seq<NodeView>, handle: u32)
    requires
        handle != 0,
    ensures
        occurrences_in(with_runtime_import(body), handle) == occurrences_in(body, handle),
{
    if !has_runtime_import(body) {
        lemma_leading_imports_in_range(body);
        let at = leading_imports(body);
        let import = runtime_import_view();
        lemma_one(import.children[0], handle);
        assert(import.children =~= seq![import.children[0]]);
        assert(occurrences(import, handle) == 0);
        let longer = body.insert(at, import);
        assert(longer =~= body.subrange(0, at) + seq![import] + body.subrange(at, body.len() as int));
        assert(body =~= body.subrange(0, at) + body.subrange(at, body.len() as int));
        lemma_joined(body.subrange(0, at) + seq![import], body.subrange(at, body.len() as int), handle);
        lemma_joined(body.subrange(0, at), seq![import], handle);
        lemma_joined(body.subrange(0, at), body.subrange(at, body.len() as int), handle);
        lemma_one(import, handle);
    }
}

/// The pass only adds: every node of the host's module is in the result
/// exactly as often as it was in the module before.
pub proof fn lemma_pass_keeps_host_nodes(rules: Rules, excluded: bool, m: ModuleView, handle: u32)
    requires
        handle != 0,
    ensures
        occurrences_in(transformed(rules, excluded, m).body, handle) == occurrences_in(m.body, handle),
{
    if !excluded {
        lemma_rewrite_all_keeps_host_nodes(rules, None, m.body, handle);
        lemma_import_is_new(rewrite_all(rules, None, m.body), handle);
    }
}

} // verus!
