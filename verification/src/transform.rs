//! The pass itself: the walk over a module that instruments components and
//! hook utilities.
use crate::analyze::{analyze, hook_call};
use crate::ast::{lemma_nodes_view_push, nodes_view, one, two, Kind, Location, Module, Node};
use crate::config::{runtime_module, runtime_symbol, Options};
use crate::exclude::{any_matches, compilable, compile_patterns, should_exclude, sources_of};
use crate::naming::{is_component_name, is_hook_name};
use crate::rules::{
    any_instruments, eligible_function, exports_default_function, exports_variables,
    instrumented, instruments, is_hook_utility, is_runtime_import, leading_imports, rewrite,
    rewrite_all, rewrite_declarator, should_rewrite, transformed, with_runtime_import, Rules,
};
use crate::site_id::{compute_id, site_id};
use crate::synth::{probed, runtime_import, scope_stmt, scope_stmt_view, wrap_in_h_re};
use crate::text::{forward_slashes, normalize_path, same_text};
use glob::Pattern;
use vstd::prelude::*;
use vstd::string::*;

verus! {

/// The options of a run, made ready for it: the ignore list holds the
/// runtime's initializer, and the exclude patterns are compiled.
pub struct TransformOptions {
    ignored_hooks: Vec<String>,
    exclude_patterns: Vec<Pattern>,
    include_arguments: bool,
}

/// What belongs to the walk over one module. The scope of the walk is not
/// kept here: it is handed down from node to node.
pub struct TraversalState {
    file_path: String,
    instrumented_any: bool,
}

/// The pass over one module.
pub struct JitterTransform {
    options: TransformOptions,
    state: TraversalState,
}

/// The ignore list `hooks`, with the runtime's initializer added at the end
/// where it is not in the list.
pub open spec fn with_runtime_symbol(hooks: Seq<Seq<char>>) -> Seq<Seq<char>> {
    if hooks.contains(runtime_symbol()) {
        hooks
    } else {
        hooks.push(runtime_symbol())
    }
}

/// The scope of a walk as a mathematical value.
pub open spec fn scope_view(scope: Option<&str>) -> Option<Seq<char>> {
    match scope {
        Some(name) => Some(name@),
        None => None,
    }
}

/// Decides whether `name` is in `list`.
pub fn listed(list: &Vec<String>, name: &str) -> (r: bool)
    ensures
        r == list.deep_view().contains(name@),
{
    let mut i: usize = 0;
    while i < list.len()
        invariant
            i <= list.len(),
            forall|j: int| 0 <= j < i ==> list.deep_view()[j] != name@,
        decreases list.len() - i,
    {
        if same_text(list[i].as_str(), name) {
            assert(list.deep_view()[i as int] == name@);
            return true;
        }
        i = i + 1;
    }
    false
}

impl TransformOptions {
    #[verifier::type_invariant]
    spec fn holds_runtime_symbol(self) -> bool {
        self.ignored_hooks.deep_view().contains(runtime_symbol())
    }

    /// The names of the hooks whose calls are left alone.
    pub closed spec fn ignored(&self) -> Seq<Seq<char>> {
        self.ignored_hooks.deep_view()
    }

    /// The sources of the exclude patterns.
    pub closed spec fn excluded(&self) -> Seq<Seq<char>> {
        sources_of(self.exclude_patterns@)
    }

    /// Whether the metadata of a hook call records the arguments' texts.
    pub closed spec fn records_arguments(&self) -> bool {
        self.include_arguments
    }

    /// Makes the options ready for a run: adds the runtime's initializer to
    /// the ignore list, and compiles the exclude patterns, of which those
    /// that do not compile are dropped.
    pub fn new(options: Options) -> (r: TransformOptions)
        ensures
            r.ignored() == with_runtime_symbol(options.ignore_hooks.deep_view()),
            r.excluded() == compilable(options.exclude.deep_view()),
            r.records_arguments() == options.include_arguments,
    {
        let exclude_patterns = compile_patterns(&options.exclude);
        let mut ignored_hooks = options.ignore_hooks;
        if !listed(&ignored_hooks, "useJitterScope") {
            let ghost before = ignored_hooks.deep_view();
            ignored_hooks.push(String::from_str("useJitterScope"));
            assert(ignored_hooks.deep_view() =~= before.push(runtime_symbol()));
            assert(ignored_hooks.deep_view()[before.len() as int] == runtime_symbol());
        }
        TransformOptions { ignored_hooks, exclude_patterns, include_arguments: options.include_arguments }
    }
}

impl JitterTransform {
    /// The path of the module's file.
    pub closed spec fn file(&self) -> Seq<char> {
        self.state.file_path@
    }

    /// The names of the hooks whose calls are left alone.
    pub closed spec fn ignored(&self) -> Seq<Seq<char>> {
        self.options.ignored()
    }

    /// The sources of the exclude patterns.
    pub closed spec fn excluded(&self) -> Seq<Seq<char>> {
        self.options.excluded()
    }

    /// Whether the metadata of a hook call records the arguments' texts.
    pub closed spec fn records_arguments(&self) -> bool {
        self.options.records_arguments()
    }

    /// Whether a declaration was instrumented since the walk began.
    pub closed spec fn instrumented_any(&self) -> bool {
        self.state.instrumented_any
    }

    /// What the walk depends on besides the tree.
    pub open spec fn rules(&self) -> Rules {
        Rules { file: self.file(), ignored: self.ignored(), include_arguments: self.records_arguments() }
    }

    /// Whether `other` walks the same file with the same options.
    pub open spec fn same_run(&self, other: &JitterTransform) -> bool {
        &&& self.file() == other.file()
        &&& self.ignored() == other.ignored()
        &&& self.excluded() == other.excluded()
        &&& self.records_arguments() == other.records_arguments()
    }

    /// Whether the path of the module's file matches an exclude pattern.
    pub open spec fn excludes_file(&self) -> bool {
        any_matches(self.excluded(), forward_slashes(self.file()))
    }

    /// A pass over the module of the file at `file_path`.
    pub fn new(file_path: String, options: Options) -> (r: JitterTransform)
        ensures
            r.file() == file_path@,
            r.ignored() == with_runtime_symbol(options.ignore_hooks.deep_view()),
            r.excluded() == compilable(options.exclude.deep_view()),
            r.records_arguments() == options.include_arguments,
            !r.instrumented_any(),
    {
        JitterTransform {
            options: TransformOptions::new(options),
            state: TraversalState { file_path, instrumented_any: false },
        }
    }

    /// The path of the module's file.
    pub fn file_path(&self) -> (r: &str)
        ensures
            r@ == self.file(),
    {
        self.state.file_path.as_str()
    }

    /// The names of the hooks whose calls are left alone.
    pub fn ignored_hooks(&self) -> (r: &Vec<String>)
        ensures
            r.deep_view() == self.ignored(),
            r.deep_view().contains(runtime_symbol()),
    {
        proof {
            use_type_invariant(&self.options);
        }
        &self.options.ignored_hooks
    }

    /// Whether the metadata of a hook call records the arguments' texts.
    pub fn include_arguments(&self) -> (r: bool)
        ensures
            r == self.records_arguments(),
    {
        self.options.include_arguments
    }

    /// Whether a declaration was instrumented since the walk began.
    pub fn has_instrumented(&self) -> (r: bool)
        ensures
            r == self.instrumented_any(),
    {
        self.state.instrumented_any
    }

    /// The path of the module's file with forward slashes only.
    pub fn normalize_path(&self) -> (r: String)
        ensures
            r@ == forward_slashes(self.file()),
    {
        normalize_path(self.state.file_path.as_str())
    }

    /// Decides whether the module is excluded from the pass.
    pub fn should_exclude_file(&self) -> (r: bool)
        ensures
            r == self.excludes_file(),
    {
        should_exclude(&self.options.exclude_patterns, self.state.file_path.as_str())
    }

    /// The identifier of the site at `line` and `column` of `file`.
    pub fn generate_location_hash(&self, file: &str, line: u32, column: u32) -> (id: String)
        ensures
            id@ == site_id(file@, line, column),
            id@.len() == 8,
    {
        compute_id(file, line, column)
    }

    /// Decides whether a call of `name` is rewritten inside an instrumented
    /// function.
    pub fn should_wrap_hook(&self, name: &str) -> (r: bool)
        ensures
            r == should_rewrite(self.ignored(), name@),
    {
        proof {
            use_type_invariant(&self.options);
        }
        is_hook_name(name) && !listed(&self.options.ignored_hooks, name)
    }

    /// Marks the function whose body holds the statements `body` as
    /// instrumented: puts the statement that binds the scope handle of the
    /// declaration `name` at `loc` in front of them.
    pub fn instrument_function_body(&mut self, body: &mut Vec<Node>, name: &str, loc: Location)
        ensures
            final(self).same_run(old(self)),
            final(self).instrumented_any(),
            nodes_view(final(body)@) == seq![scope_stmt_view(name@, old(self).file(), loc)] + nodes_view(
                old(body)@,
            ),
    {
        self.state.instrumented_any = true;
        let first = scope_stmt(name, self.state.file_path.as_str(), loc);
        body.insert(0, first);
        assert(nodes_view(body@) =~= seq![first@] + nodes_view(old(body)@));
    }

    /// Instruments the function `f`, whose children are its parameters and
    /// its body and which is met in the scope `outer`, under the name `name`.
    pub fn instrument_function(&mut self, outer: Option<&str>, name: &str, f: &Node) -> (r: Node)
        ensures
            final(self).same_run(old(self)),
            final(self).instrumented_any() == (old(self).instrumented_any() || f@.children.len()
                == 2),
            r@ == instrumented(old(self).rules(), scope_view(outer), name@, f@),
        decreases f, 0nat,
    {
        assert(nodes_view(f.children@) == f@.children);
        if f.children.len() != 2 {
            return f.duplicate();
        }
        assert(f.children[0]@ == f@.children[0]);
        assert(f.children[1]@ == f@.children[1]);
        let params = self.fold_node(outer, &f.children[0]);
        let body = &f.children[1];
        let new_body = if body.kind == Kind::Block {
            assert(nodes_view(body.children@) == body@.children);
            let mut stmts = self.fold_nodes(Some(name), &body.children);
            self.instrument_function_body(&mut stmts, name, f.loc);
            body.rebuilt(stmts)
        } else {
            let value = self.fold_node(Some(name), body);
            let returned = Node {
                kind: Kind::Return,
                text: String::new(),
                loc: body.loc,
                handle: 0,
                children: one(wrap_in_h_re(value)),
            };
            let mut stmts = one(returned);
            self.instrument_function_body(&mut stmts, name, f.loc);
            assert(nodes_view(stmts@) =~= seq![scope_stmt_view(name@, old(self).file(), f.loc), returned@]);
            Node { kind: Kind::Block, text: String::new(), loc: body.loc, handle: 0, children: stmts }
        };
        f.rebuilt(two(params, new_body))
    }

    /// Rewrites one declarator of an exported variable declaration: a hook
    /// utility is instrumented by its name alone.
    pub fn fold_declarator(&mut self, scope: Option<&str>, d: &Node) -> (r: Node)
        ensures
            final(self).same_run(old(self)),
            final(self).instrumented_any() == (old(self).instrumented_any() || is_hook_utility(d@)
                || instruments(d@)),
            r@ == rewrite_declarator(old(self).rules(), scope_view(scope), d@),
        decreases d, 2nat,
    {
        if hook_utility(d) {
            assert(d.children[0]@ == d@.children[0]);
            assert(d.children[1]@ == d@.children[1]);
            let pattern = self.fold_node(scope, &d.children[0]);
            let arrow = self.instrument_function(scope, d.children[0].text.as_str(), &d.children[1]);
            d.rebuilt(two(pattern, arrow))
        } else {
            self.fold_node(scope, d)
        }
    }

    /// Rewrites the declarators of an exported variable declaration.
    pub fn fold_declarators(&mut self, scope: Option<&str>, decls: &Vec<Node>) -> (r: Vec<Node>)
        ensures
            final(self).same_run(old(self)),
            final(self).instrumented_any() == (old(self).instrumented_any() || exists|j: int|
                0 <= j < decls.len() && (is_hook_utility(#[trigger] nodes_view(decls@)[j]) || instruments(
                    nodes_view(decls@)[j],
                ))),
            r.len() == decls.len(),
            forall|j: int|
                0 <= j < decls.len() ==> (#[trigger] nodes_view(r@)[j]) == rewrite_declarator(
                    old(self).rules(),
                    scope_view(scope),
                    nodes_view(decls@)[j],
                ),
        decreases decls, 3nat,
    {
        let mut out: Vec<Node> = Vec::new();
        let mut i: usize = 0;
        while i < decls.len()
            invariant
                i <= decls.len(),
                self.same_run(old(self)),
                self.instrumented_any() == (old(self).instrumented_any() || exists|j: int|
                    0 <= j < i && (is_hook_utility(#[trigger] nodes_view(decls@)[j]) || instruments(
                        nodes_view(decls@)[j],
                    ))),
                out.len() == i,
                forall|j: int|
                    0 <= j < i ==> (#[trigger] nodes_view(out@)[j]) == rewrite_declarator(
                        old(self).rules(),
                        scope_view(scope),
                        nodes_view(decls@)[j],
                    ),
            decreases decls.len() - i,
        {
            assert(decls[i as int]@ == nodes_view(decls@)[i as int]);
            let d = self.fold_declarator(scope, &decls[i]);
            proof {
                lemma_nodes_view_push(out@, d);
            }
            out.push(d);
            i = i + 1;
        }
        out
    }

    /// Rewrites the node `n`, met in the scope `scope`.
    pub fn fold_node(&mut self, scope: Option<&str>, n: &Node) -> (r: Node)
        ensures
            final(self).same_run(old(self)),
            final(self).instrumented_any() == (old(self).instrumented_any() || instruments(n@)),
            r@ == rewrite(old(self).rules(), scope_view(scope), n@),
        decreases n, 1nat,
    {
        assert(nodes_view(n.children@) == n@.children);
        if n.kind == Kind::FnDecl && eligible(n, false) {
            self.instrument_function(scope, n.text.as_str(), n)
        } else if exported_default_function(n) && eligible(&n.children[0], true) {
            let f = &n.children[0];
            assert(f@ == n@.children[0]);
            let g = if f.text.as_str().is_empty() {
                self.instrument_function(scope, "(anonymous)", f)
            } else {
                self.instrument_function(scope, f.text.as_str(), f)
            };
            n.rebuilt(one(g))
        } else if exported_variables(n) {
            let decl = &n.children[0];
            assert(decl@ == n@.children[0]);
            assert(nodes_view(decl.children@) == decl@.children);
            let decls = self.fold_declarators(scope, &decl.children);
            assert(nodes_view(decls@) =~= rewrite(old(self).rules(), scope_view(scope), n@).children[0].children);
            n.rebuilt(one(decl.rebuilt(decls)))
        } else if scope.is_some() && n.kind == Kind::Return && n.children.len() == 1 {
            assert(n.children[0]@ == n@.children[0]);
            let value = self.fold_node(scope, &n.children[0]);
            n.rebuilt(one(wrap_in_h_re(value)))
        } else {
            let children = self.fold_nodes(scope, &n.children);
            let rebuilt = n.rebuilt(children);
            if scope.is_some() && hook_call(n) {
                assert(n.children[0]@ == n@.children[0]);
                if self.should_wrap_hook(n.children[0].text.as_str()) {
                    probed(self.state.file_path.as_str(), self.options.include_arguments, rebuilt)
                } else {
                    rebuilt
                }
            } else {
                rebuilt
            }
        }
    }

    /// Rewrites the nodes `nodes`, each met in the scope `scope`.
    pub fn fold_nodes(&mut self, scope: Option<&str>, nodes: &Vec<Node>) -> (r: Vec<Node>)
        ensures
            final(self).same_run(old(self)),
            final(self).instrumented_any() == (old(self).instrumented_any() || any_instruments(
                nodes_view(nodes@),
            )),
            nodes_view(r@) == rewrite_all(old(self).rules(), scope_view(scope), nodes_view(nodes@)),
        decreases nodes, 0nat,
    {
        let mut out: Vec<Node> = Vec::new();
        let mut i: usize = 0;
        while i < nodes.len()
            invariant
                i <= nodes.len(),
                self.same_run(old(self)),
                self.instrumented_any() == (old(self).instrumented_any() || exists|j: int|
                    0 <= j < i && instruments(#[trigger] nodes_view(nodes@)[j])),
                out.len() == i,
                forall|j: int|
                    0 <= j < i ==> (#[trigger] nodes_view(out@)[j]) == rewrite(
                        old(self).rules(),
                        scope_view(scope),
                        nodes_view(nodes@)[j],
                    ),
            decreases nodes.len() - i,
        {
            assert(nodes[i as int]@ == nodes_view(nodes@)[i as int]);
            let node = self.fold_node(scope, &nodes[i]);
            proof {
                lemma_nodes_view_push(out@, node);
            }
            out.push(node);
            i = i + 1;
        }
        assert(nodes_view(out@) =~= rewrite_all(old(self).rules(), scope_view(scope), nodes_view(nodes@)));
        out
    }

    /// Rewrites the module `m`. A module whose file is excluded comes back
    /// as it was. Else its items are rewritten, and where a declaration was
    /// instrumented the module imports the runtime's initializer afterwards.
    pub fn fold_module(&mut self, m: Module) -> (r: Module)
        ensures
            final(self).same_run(old(self)),
            final(self).instrumented_any() == (!old(self).excludes_file() && any_instruments(m@.body)),
            r@ == transformed(old(self).rules(), old(self).excludes_file(), m@),
    {
        self.state.instrumented_any = false;
        if self.should_exclude_file() {
            return m;
        }
        let mut body = self.fold_nodes(None, &m.body);
        if self.state.instrumented_any {
            ensure_runtime_import(&mut body);
        }
        Module { body }
    }
}

/// Decides whether `n` imports the runtime's initializer.
pub fn imports_runtime(n: &Node) -> (r: bool)
    ensures
        r == is_runtime_import(n@),
{
    if !(n.kind == Kind::Import) || !same_text(n.text.as_str(), "react-jitter/runtime") {
        return false;
    }
    let mut j: usize = 0;
    while j < n.children.len()
        invariant
            j <= n.children.len(),
            n@.kind == Kind::Import,
            n@.text == runtime_module(),
            forall|k: int|
                0 <= k < j ==> !((#[trigger] n@.children[k]).kind == Kind::ImportNamed
                    && n@.children[k].text == runtime_symbol()),
        decreases n.children.len() - j,
    {
        let specifier = &n.children[j];
        assert(specifier@ == n@.children[j as int]);
        if specifier.kind == Kind::ImportNamed && same_text(specifier.text.as_str(), "useJitterScope") {
            assert(n@.children[j as int].kind == Kind::ImportNamed && n@.children[j as int].text
                == runtime_symbol());
            return true;
        }
        j = j + 1;
    }
    false
}

/// Makes sure that the items `body` import the runtime's initializer: where
/// they do not, the import is put in right after the imports that `body`
/// starts with.
pub fn ensure_runtime_import(body: &mut Vec<Node>)
    ensures
        nodes_view(final(body)@) == with_runtime_import(nodes_view(old(body)@)),
{
    let ghost items = nodes_view(body@);
    let mut i: usize = 0;
    while i < body.len()
        invariant
            i <= body.len(),
            items == nodes_view(body@),
            forall|k: int| 0 <= k < i ==> !is_runtime_import(#[trigger] items[k]),
        decreases body.len() - i,
    {
        assert(body[i as int]@ == items[i as int]);
        if imports_runtime(&body[i]) {
            return ;
        }
        i = i + 1;
    }
    let mut at: usize = 0;
    assert(items.skip(0) =~= items);
    while at < body.len() && body[at].kind == Kind::Import
        invariant
            at <= body.len(),
            items == nodes_view(body@),
            leading_imports(items) == at + leading_imports(items.skip(at as int)),
        decreases body.len() - at,
    {
        assert(items.skip(at as int)[0] == body[at as int]@);
        assert(items.skip(at as int).drop_first() =~= items.skip(at + 1));
        at = at + 1;
    }
    assert(leading_imports(items.skip(at as int)) == 0) by {
        if at < body.len() {
            assert(items.skip(at as int)[0] == body[at as int]@);
        }
    }
    let import = runtime_import();
    body.insert(at, import);
    assert(nodes_view(body@) =~= items.insert(at as int, import@));
}

/// Decides whether the function `f` is instrumented as a component.
pub fn eligible(f: &Node, anonymous_ok: bool) -> (r: bool)
    ensures
        r == eligible_function(f@, anonymous_ok),
{
    assert(nodes_view(f.children@) == f@.children);
    let named = is_component_name(f.text.as_str()) || (anonymous_ok && f.text.as_str().is_empty());
    if named && f.children.len() == 2 {
        assert(f.children[1]@ == f@.children[1]);
        f.children[1].kind == Kind::Block && analyze(&f.children[1])
    } else {
        false
    }
}

/// Decides whether `n` is a default export of a function expression.
pub fn exported_default_function(n: &Node) -> (r: bool)
    ensures
        r == exports_default_function(n@),
{
    if n.kind == Kind::ExportDefaultDecl && n.children.len() == 1 {
        assert(n.children[0]@ == n@.children[0]);
        n.children[0].kind == Kind::FnExpr
    } else {
        false
    }
}

/// Decides whether `n` is an export of a variable declaration.
pub fn exported_variables(n: &Node) -> (r: bool)
    ensures
        r == exports_variables(n@),
{
    if n.kind == Kind::ExportDecl && n.children.len() == 1 {
        assert(n.children[0]@ == n@.children[0]);
        n.children[0].kind == Kind::VarDecl
    } else {
        false
    }
}

/// Decides whether the declarator `d` binds a hook utility.
pub fn hook_utility(d: &Node) -> (r: bool)
    ensures
        r == is_hook_utility(d@),
{
    if d.kind == Kind::Declarator && d.children.len() == 2 {
        let name = &d.children[0];
        let init = &d.children[1];
        assert(name@ == d@.children[0]);
        assert(init@ == d@.children[1]);
        name.kind == Kind::Ident && is_hook_name(name.text.as_str()) && init.kind == Kind::Arrow
            && init.children.len() == 2
    } else {
        false
    }
}

} // verus!
