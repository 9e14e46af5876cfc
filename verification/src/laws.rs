//! What holds of the pass for every tree and every set of options.
use crate::analyze::{contains_probe, is_hook_call, opens_scope};
use crate::ast::{with_children, Kind, ModuleView, NodeView};
use crate::config::{default_ignored, runtime_symbol};
use crate::rules::{
    any_instruments, exports_variables, has_runtime_import, instrumented, instruments,
    is_component_decl, is_runtime_import, leading_imports, rewrite, rewrite_all,
    rewrite_declarator, should_rewrite, transformed, Rules,
};
use crate::site_id::site_id;
use crate::synth::{
    end_call_view, is_render_wrap, probed_view, runtime_import_view, scope_stmt_view, wrapped_view,
};
use crate::transform::with_runtime_symbol;
use vstd::prelude::*;

verus! {

/// Wrapping a returned value is idempotent: a value that was wrapped is not
/// wrapped again.
pub proof fn lemma_wrap_is_idempotent(e: NodeView)
    ensures
        is_render_wrap(wrapped_view(e)),
        wrapped_view(wrapped_view(e)) == wrapped_view(e),
{
}

/// A node keeps its kind, its text, its place, its handle and the number
/// of its children when it is rewritten, unless it is a hook call that is
/// put between its probes.
pub proof fn lemma_rewrite_keeps_node(rules: Rules, scope: Option<Seq<char>>, n: NodeView)
    ensures
        ({
            let r = rewrite(rules, scope, n);
            ||| (r.kind == n.kind && r.text == n.text && r.loc == n.loc && r.handle == n.handle
                && r.children.len() == n.children.len())
            ||| (scope is Some && is_hook_call(n) && should_rewrite(rules.ignored, n.children[0].text)
                && r == probed_view(
                rules.file,
                rules.include_arguments,
                with_children(n, rewrite_all(rules, scope, n.children)),
            ))
        }),
{
    if is_component_decl(n) {
        assert(rewrite(rules, scope, n) == instrumented(rules, scope, n.text, n));
        assert(n.children.len() == 2);
        assert(instrumented(rules, scope, n.text, n).children.len() == 2);
    }
}

/// A call of the render wrapper is still one after it was rewritten.
pub proof fn lemma_rewrite_keeps_wrap(rules: Rules, scope: Option<Seq<char>>, e: NodeView)
    requires
        is_render_wrap(e),
    ensures
        is_render_wrap(rewrite(rules, scope, e)),
{
    let callee = e.children[0];
    lemma_rewrite_keeps_node(rules, scope, e);
    lemma_rewrite_keeps_node(rules, scope, callee);
    lemma_rewrite_keeps_node(rules, scope, callee.children[0]);
}

/// Running the pass a second time does not wrap the value of a `return` a
/// second time: after the first run the value is a call of the render
/// wrapper, and the second run hands on what that call was rewritten to,
/// with no wrapper around it.
pub proof fn lemma_return_wrapped_once(rules: Rules, scope: Option<Seq<char>>, n: NodeView)
    requires
        scope is Some,
        n.kind == Kind::Return,
        n.children.len() == 1,
    ensures
        ({
            let once = rewrite(rules, scope, n);
            let twice = rewrite(rules, scope, once);
            &&& once.kind == Kind::Return
            &&& once.children.len() == 1
            &&& is_render_wrap(once.children[0])
            &&& twice.children.len() == 1
            &&& twice.children[0] == rewrite(rules, scope, once.children[0])
        }),
{
    let once = rewrite(rules, scope, n);
    lemma_wrap_is_idempotent(rewrite(rules, scope, n.children[0]));
    lemma_rewrite_keeps_wrap(rules, scope, once.children[0]);
}

/// The identifier of a site depends on the file, the line and the column
/// alone.
pub proof fn lemma_same_site_same_id(
    file1: Seq<char>,
    line1: u32,
    column1: u32,
    file2: Seq<char>,
    line2: u32,
    column2: u32,
)
    requires
        file1 == file2,
        line1 == line2,
        column1 == column2,
    ensures
        site_id(file1, line1, column1) == site_id(file2, line2, column2),
{
}

/// A module whose file is excluded is left as it is.
pub proof fn lemma_excluded_module_unchanged(rules: Rules, m: ModuleView)
    ensures
        transformed(rules, true, m) == m,
{
}

/// A function declaration whose body holds neither JSX nor a hook call of
/// its own is not instrumented, whatever its name.
pub proof fn lemma_plain_function_not_instrumented(n: NodeView)
    requires
        n.kind == Kind::FnDecl,
        !contains_probe(n.children[1]),
    ensures
        !is_component_decl(n),
{
}

/// An instrumented function declaration gains the statement that binds its
/// scope handle as the first statement of its body.
pub proof fn lemma_component_gains_scope(rules: Rules, scope: Option<Seq<char>>, n: NodeView)
    requires
        is_component_decl(n),
    ensures
        ({
            let r = rewrite(rules, scope, n);
            &&& r.children.len() == 2
            &&& r.children[1].kind == Kind::Block
            &&& r.children[1].children.len() == n.children[1].children.len() + 1
            &&& r.children[1].children[0] == scope_stmt_view(n.text, rules.file, n.loc)
        }),
{
    assert(rewrite(rules, scope, n) == instrumented(rules, scope, n.text, n));
    assert(n.children.len() == 2);
    assert(n.children[1].kind == Kind::Block);
}

/// Outside of any scope, a tree in which no declaration is instrumented
/// comes back as it was.
pub proof fn lemma_untouched_without_candidate(rules: Rules, n: NodeView)
    requires
        !instruments(n),
    ensures
        rewrite(rules, None, n) == n,
    decreases n,
{
    if exports_variables(n) {
        let decl = n.children[0];
        assert forall|i: int| 0 <= i < decl.children.len() implies rewrite_declarator(
            rules,
            None,
            #[trigger] decl.children[i],
        ) == decl.children[i] by {
            lemma_untouched_without_candidate(rules, decl.children[i]);
        }
        assert(rewrite(rules, None, n).children[0].children =~= decl.children);
        assert(rewrite(rules, None, n).children =~= n.children);
    } else {
        assert forall|i: int| 0 <= i < n.children.len() implies rewrite(rules, None, #[trigger] n.children[i])
            == n.children[i] by {
            lemma_untouched_without_candidate(rules, n.children[i]);
        }
        assert(rewrite_all(rules, None, n.children) =~= n.children);
    }
}

/// A module in which no declaration is instrumented is left as it is.
pub proof fn lemma_module_untouched_without_candidate(rules: Rules, excluded: bool, m: ModuleView)
    requires
        !any_instruments(m.body),
    ensures
        transformed(rules, excluded, m) == m,
{
    assert forall|i: int| 0 <= i < m.body.len() implies rewrite(rules, None, #[trigger] m.body[i])
        == m.body[i] by {
        lemma_untouched_without_candidate(rules, m.body[i]);
    }
    assert(rewrite_all(rules, None, m.body) =~= m.body);
}

/// The runtime's own initializer is never rewritten, whatever the ignore
/// list holds.
pub proof fn lemma_runtime_symbol_never_rewritten(ignored: Seq<Seq<char>>)
    ensures
        !should_rewrite(ignored, runtime_symbol()),
{
}

/// A hook of the default ignore list is never rewritten under that list.
pub proof fn lemma_default_hooks_never_rewritten(name: Seq<char>)
    requires
        default_ignored().contains(name),
    ensures
        !should_rewrite(with_runtime_symbol(default_ignored()), name),
{
    assert(default_ignored()[0] == runtime_symbol());
}

/// `useState` is never rewritten under the default ignore list.
pub proof fn lemma_use_state_never_rewritten()
    ensures
        !should_rewrite(with_runtime_symbol(default_ignored()), "useState"@),
{
    assert(default_ignored()[1] == "useState"@);
    lemma_default_hooks_never_rewritten("useState"@);
}

/// Inside a scope, a call of a hook that is not ignored is put between its
/// two probes, and a call of an ignored hook is not.
pub proof fn lemma_hook_call_in_scope(rules: Rules, scope: Option<Seq<char>>, n: NodeView)
    requires
        scope is Some,
        is_hook_call(n),
    ensures
        should_rewrite(rules.ignored, n.children[0].text) ==> rewrite(rules, scope, n) == probed_view(
            rules.file,
            rules.include_arguments,
            with_children(n, rewrite_all(rules, scope, n.children)),
        ),
        !should_rewrite(rules.ignored, n.children[0].text) ==> rewrite(rules, scope, n) == with_children(
            n,
            rewrite_all(rules, scope, n.children),
        ),
{
}

/// The value of a hook call that was put between its probes is the value of
/// the end probe, the last part of the sequence, and its first argument is
/// the call itself.
pub proof fn lemma_probes_end_with_the_call(file: Seq<char>, include_arguments: bool, call: NodeView)
    ensures
        ({
            let sequence = probed_view(file, include_arguments, call).children[0];
            &&& probed_view(file, include_arguments, call).kind == Kind::Paren
            &&& sequence.kind == Kind::Sequence
            &&& sequence.children.len() == 2
            &&& sequence.children.last().children[1] == call
        }),
{
    let sequence = probed_view(file, include_arguments, call).children[0];
    assert(sequence.children.len() == 2);
    let meta = sequence.children[1].children[2];
    assert(sequence.children[1] == end_call_view(call, meta));
}

/// The analysis of a declaration does not look into the functions and
/// classes nested in it: what they hold does not make it eligible.
pub proof fn lemma_nested_scope_hides_probes(n: NodeView)
    requires
        opens_scope(n),
    ensures
        !contains_probe(n),
{
}

/// Outside of any scope a hook call is left alone: it is rewritten only
/// inside a declaration that is instrumented itself.
pub proof fn lemma_hook_call_outside_scope(rules: Rules, n: NodeView)
    requires
        is_hook_call(n),
    ensures
        rewrite(rules, None, n) == with_children(n, rewrite_all(rules, None, n.children)),
{
}

/// The number of the items of `body` that import the runtime's initializer.
pub open spec fn runtime_imports(body: Seq<NodeView>) -> nat
    decreases body.len(),
{
    if body.len() == 0 {
        0
    } else {
        runtime_imports(body.drop_last()) + if is_runtime_import(body.last()) {
            1nat
        } else {
            0nat
        }
    }
}

/// An import of the runtime's initializer is one after it was rewritten,
/// and nothing else becomes one.
pub proof fn lemma_rewrite_keeps_import(rules: Rules, scope: Option<Seq<char>>, n: NodeView)
    ensures
        is_runtime_import(rewrite(rules, scope, n)) == is_runtime_import(n),
{
    let r = rewrite(rules, scope, n);
    lemma_rewrite_keeps_node(rules, scope, n);
    if n.kind == Kind::Import {
        assert(r.children == rewrite_all(rules, scope, n.children));
        assert forall|j: int| 0 <= j < n.children.len() implies ((#[trigger] r.children[j]).kind
            == Kind::ImportNamed && r.children[j].text == runtime_symbol()) == (n.children[j].kind
            == Kind::ImportNamed && n.children[j].text == runtime_symbol()) by {
            lemma_rewrite_keeps_node(rules, scope, n.children[j]);
        }
        if is_runtime_import(n) {
            let j = choose|j: int|
                0 <= j < n.children.len() && (#[trigger] n.children[j]).kind == Kind::ImportNamed
                    && n.children[j].text == runtime_symbol();
            assert(r.children[j].kind == Kind::ImportNamed);
        }
        if is_runtime_import(r) {
            let j = choose|j: int|
                0 <= j < r.children.len() && (#[trigger] r.children[j]).kind == Kind::ImportNamed
                    && r.children[j].text == runtime_symbol();
            assert(n.children[j].kind == Kind::ImportNamed);
        }
    }
}

/// Rewriting the items of a module changes neither the number of its
/// imports of the runtime's initializer nor whether it has one.
pub proof fn lemma_rewrite_keeps_imports(rules: Rules, scope: Option<Seq<char>>, body: Seq<NodeView>)
    ensures
        runtime_imports(rewrite_all(rules, scope, body)) == runtime_imports(body),
    decreases body.len(),
{
    if body.len() > 0 {
        lemma_rewrite_keeps_imports(rules, scope, body.drop_last());
        lemma_rewrite_keeps_import(rules, scope, body.last());
        assert(rewrite_all(rules, scope, body).drop_last() =~= rewrite_all(rules, scope, body.drop_last()));
    }
}

/// A sequence of items holds an import of the runtime's initializer just
/// when the number of such imports is not zero.
pub proof fn lemma_has_import_counts(body: Seq<NodeView>)
    ensures
        has_runtime_import(body) == (runtime_imports(body) > 0),
    decreases body.len(),
{
    if body.len() > 0 {
        lemma_has_import_counts(body.drop_last());
        if has_runtime_import(body) {
            let i = choose|i: int| 0 <= i < body.len() && is_runtime_import(#[trigger] body[i]);
            if i < body.len() - 1 {
                assert(body.drop_last()[i] == body[i]);
            }
        }
        if has_runtime_import(body.drop_last()) {
            let i = choose|i: int|
                0 <= i < body.drop_last().len() && is_runtime_import(#[trigger] body.drop_last()[i]);
            assert(body[i] == body.drop_last()[i]);
        }
        if is_runtime_import(body.last()) {
            assert(body[body.len() - 1] == body.last());
        }
    }
}

/// Putting one more item into a sequence adds one to the number of its
/// imports of the runtime's initializer where the item is such an import.
pub proof fn lemma_insert_counts(body: Seq<NodeView>, at: int, item: NodeView)
    requires
        0 <= at <= body.len(),
    ensures
        runtime_imports(body.insert(at, item)) == runtime_imports(body) + if is_runtime_import(item) {
            1nat
        } else {
            0nat
        },
    decreases body.len(),
{
    let longer = body.insert(at, item);
    if at == body.len() {
        assert(longer.drop_last() =~= body);
        assert(longer.last() == item);
    } else {
        lemma_insert_counts(body.drop_last(), at, item);
        assert(longer.drop_last() =~= body.drop_last().insert(at, item));
        assert(longer.last() == body.last());
    }
}

/// The imports of the runtime's initializer after the pass: a module that
/// has such an import keeps what it has and gains none, and a module that
/// has none gains exactly one where a declaration was instrumented, and
/// none where none was.
pub proof fn lemma_import_not_duplicated(rules: Rules, m: ModuleView)
    ensures
        runtime_imports(transformed(rules, false, m).body) == runtime_imports(m.body) + if any_instruments(
            m.body,
        ) && runtime_imports(m.body) == 0 {
            1nat
        } else {
            0nat
        },
{
    let body = rewrite_all(rules, None, m.body);
    lemma_rewrite_keeps_imports(rules, None, m.body);
    lemma_has_import_counts(body);
    if any_instruments(m.body) && !has_runtime_import(body) {
        lemma_leading_imports_in_range(body);
        lemma_insert_counts(body, leading_imports(body), runtime_import_view());
        assert(runtime_import_view().children[0].kind == Kind::ImportNamed);
    }
}

/// The number of leading imports of a sequence of items is at most its
/// length.
pub proof fn lemma_leading_imports_in_range(body: Seq<NodeView>)
    ensures
        0 <= leading_imports(body) <= body.len(),
    decreases body.len(),
{
    if body.len() > 0 && body[0].kind == Kind::Import {
        lemma_leading_imports_in_range(body.drop_first());
    }
}

} // verus!
