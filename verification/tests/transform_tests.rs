use react_jitter::ast::{Kind, Location, Module, Node};
use react_jitter::config::{Config, Options};
use react_jitter::pass::{jitter_pass, process_transform, react_jitter};
use react_jitter::transform::JitterTransform;
use sha2::{Digest, Sha256};

fn nowhere() -> Location {
    Location { line: 0, column: 0 }
}

fn n(kind: Kind, text: &str, children: Vec<Node>) -> Node {
    Node { kind, text: text.to_string(), loc: nowhere(), handle: 0, children }
}

fn at(line: u32, column: u32, mut node: Node) -> Node {
    node.loc = Location { line, column };
    node
}

fn ident(name: &str) -> Node {
    n(Kind::Ident, name, vec![])
}

fn string(value: &str) -> Node {
    n(Kind::StringLit, value, vec![])
}

fn number(text: &str) -> Node {
    n(Kind::NumberLit, text, vec![])
}

fn prop(key: &str, value: Node) -> Node {
    n(Kind::KeyValue, key, vec![value])
}

fn call(line: u32, column: u32, callee: Node, mut args: Vec<Node>) -> Node {
    let mut children = vec![callee];
    children.append(&mut args);
    at(line, column, n(Kind::Call, "", children))
}

fn block(stmts: Vec<Node>) -> Node {
    n(Kind::Block, "", stmts)
}

fn params(items: Vec<Node>) -> Node {
    n(Kind::Params, "", items)
}

fn ret(value: Node) -> Node {
    n(Kind::Return, "", vec![value])
}

fn jsx(children: Vec<Node>) -> Node {
    n(Kind::Jsx, "", children)
}

fn constant(name: &str, init: Node) -> Node {
    n(Kind::VarDecl, "const", vec![n(Kind::Declarator, "", vec![ident(name), init])])
}

fn function(line: u32, column: u32, name: &str, stmts: Vec<Node>) -> Node {
    at(line, column, n(Kind::FnDecl, name, vec![params(vec![]), block(stmts)]))
}

fn arrow(line: u32, column: u32, body: Node) -> Node {
    at(line, column, n(Kind::Arrow, "", vec![params(vec![]), body]))
}

fn export(decl: Node) -> Node {
    n(Kind::ExportDecl, "", vec![decl])
}

fn import(source: &str, names: Vec<&str>) -> Node {
    n(Kind::Import, source, names.into_iter().map(|name| n(Kind::ImportNamed, name, vec![])).collect())
}

fn module(body: Vec<Node>) -> Module {
    Module { body }
}

fn id(file: &str, line: u32, column: u32) -> String {
    let digest = Sha256::digest(format!("{}:{}:{}", file, line, column).as_bytes());
    hex::encode(&digest[..4])
}

fn handle_method(method: &str) -> Node {
    n(Kind::Member, method, vec![ident("h")])
}

fn scope_init(name: &str, file: &str, line: u32, column: u32) -> Node {
    let meta = n(
        Kind::Object,
        "",
        vec![
            prop("name", string(name)),
            prop("id", string(&id(file, line, column))),
            prop("file", string(file)),
            prop("line", number(&line.to_string())),
            prop("column", number(&column.to_string())),
        ],
    );
    constant("h", n(Kind::Call, "", vec![ident("useJitterScope"), meta]))
}

fn call_meta(file: &str, hook: &str, line: u32, column: u32) -> Vec<Node> {
    vec![
        prop("id", string(&id(file, line, column))),
        prop("file", string(file)),
        prop("hook", string(hook)),
        prop("line", number(&line.to_string())),
        prop("column", number(&column.to_string())),
    ]
}

fn probes_with(file: &str, hook: &str, line: u32, column: u32, inner: Node, meta: Vec<Node>) -> Node {
    let _ = hook;
    let start = call(line, column, handle_method("s"), vec![string(&id(file, line, column))]);
    let end = call(line, column, handle_method("e"), vec![inner, n(Kind::Object, "", meta)]);
    at(line, column, n(Kind::Paren, "", vec![at(line, column, n(Kind::Sequence, "", vec![start, end]))]))
}

fn probes(file: &str, hook: &str, line: u32, column: u32, inner: Node) -> Node {
    probes_with(file, hook, line, column, inner, call_meta(file, hook, line, column))
}

fn render(line: u32, column: u32, value: Node) -> Node {
    call(line, column, handle_method("re"), vec![value])
}

fn runtime_import() -> Node {
    import("react-jitter/runtime", vec!["useJitterScope"])
}

fn run(file: &str, input: Module) -> Module {
    process_transform(input, Config::All(true), file.to_string())
}

fn run_with(file: &str, options: Options, input: Module) -> Module {
    process_transform(input, Config::WithOptions(options), file.to_string())
}

fn count_in(node: &Node, wanted: &dyn Fn(&Node) -> bool) -> usize {
    let own = if wanted(node) { 1 } else { 0 };
    own + node.children.iter().map(|c| count_in(c, wanted)).sum::<usize>()
}

// export function Foo() { const x = useBar(); return <div>{x}</div>; }
fn foo_component() -> Module {
    module(vec![export(function(
        1,
        7,
        "Foo",
        vec![
            constant("x", call(1, 34, ident("useBar"), vec![])),
            ret(at(1, 51, jsx(vec![ident("x")]))),
        ],
    ))])
}

#[test]
fn end_to_end_example() {
    let out = run("Foo.tsx", foo_component());
    let expected = module(vec![
        runtime_import(),
        export(function(
            1,
            7,
            "Foo",
            vec![
                scope_init("Foo", "Foo.tsx", 1, 7),
                constant(
                    "x",
                    probes("Foo.tsx", "useBar", 1, 34, call(1, 34, ident("useBar"), vec![])),
                ),
                ret(render(1, 51, at(1, 51, jsx(vec![ident("x")])))),
            ],
        )),
    ]);
    assert_eq!(out, expected);
}

#[test]
fn end_to_end_example_gains_one_leading_import() {
    let out = run("Foo.tsx", foo_component());
    assert_eq!(out.body.len(), 2);
    assert_eq!(out.body[0], runtime_import());
    let imports = out.body.iter().filter(|item| item.kind == Kind::Import).count();
    assert_eq!(imports, 1);
}

#[test]
fn end_to_end_example_names_the_declaration_and_its_place() {
    let out = run("Foo.tsx", foo_component());
    let first = &out.body[1].children[0].children[1].children[0];
    let meta = &first.children[0].children[1].children[1];
    assert_eq!(meta.children[0], prop("name", string("Foo")));
    assert_eq!(meta.children[1], prop("id", string("d881d990")));
    assert_eq!(meta.children[2], prop("file", string("Foo.tsx")));
    assert_eq!(meta.children[3], prop("line", number("1")));
    assert_eq!(meta.children[4], prop("column", number("7")));
}

#[test]
fn capitalized_function_without_jsx_or_hooks_is_not_instrumented() {
    // function Foo() { return 1; }
    let input = module(vec![function(1, 0, "Foo", vec![ret(number("1"))])]);
    let out = run("Foo.tsx", input.clone());
    assert_eq!(out, input);
}

#[test]
fn capitalized_function_with_jsx_is_instrumented() {
    // function Foo() { return <div/>; }
    let input = module(vec![function(1, 0, "Foo", vec![ret(at(1, 24, jsx(vec![])))])]);
    let out = run("Foo.tsx", input);
    let expected = module(vec![
        runtime_import(),
        function(
            1,
            0,
            "Foo",
            vec![scope_init("Foo", "Foo.tsx", 1, 0), ret(render(1, 24, at(1, 24, jsx(vec![]))))],
        ),
    ]);
    assert_eq!(out, expected);
}

#[test]
fn lowercase_function_with_jsx_is_not_instrumented() {
    let input = module(vec![function(1, 0, "foo", vec![ret(jsx(vec![]))])]);
    assert_eq!(run("foo.tsx", input.clone()), input);
}

#[test]
fn hook_in_a_parameter_default_does_not_make_a_component_eligible() {
    // function Foo(a = useBar()) { return 1; }
    let default = n(Kind::Other, "", vec![ident("a"), call(1, 17, ident("useBar"), vec![])]);
    let input = module(vec![at(
        1,
        0,
        n(Kind::FnDecl, "Foo", vec![params(vec![default]), block(vec![ret(number("1"))])]),
    )]);
    assert_eq!(run("Foo.tsx", input.clone()), input);
}

#[test]
fn parameters_stay_in_the_scope_around_the_function() {
    // function Foo(a = useBar()) { return <div/>; }
    // function Outer() { function Inner(b = useBaz()) { return <i/>; } return <div/>; }
    let default = |name: &str, hook: Node| n(Kind::Other, "", vec![ident(name), hook]);
    let foo = at(
        1,
        0,
        n(
            Kind::FnDecl,
            "Foo",
            vec![
                params(vec![default("a", call(1, 17, ident("useBar"), vec![]))]),
                block(vec![ret(jsx(vec![]))]),
            ],
        ),
    );
    let inner = at(
        2,
        19,
        n(
            Kind::FnDecl,
            "Inner",
            vec![
                params(vec![default("b", call(2, 38, ident("useBaz"), vec![]))]),
                block(vec![ret(jsx(vec![]))]),
            ],
        ),
    );
    let outer = function(2, 0, "Outer", vec![inner, ret(jsx(vec![]))]);
    let out = run("a.tsx", module(vec![foo, outer]));
    // outside of any scope the default of `a` is left alone
    let foo_out = &out.body[1];
    assert_eq!(
        foo_out.children[0],
        params(vec![default("a", call(1, 17, ident("useBar"), vec![]))])
    );
    assert_eq!(foo_out.children[1].children[0], scope_init("Foo", "a.tsx", 1, 0));
    // inside `Outer` the default of `b` is probed with the handle of `Outer`
    let inner_out = &out.body[2].children[1].children[1];
    assert_eq!(inner_out.kind, Kind::FnDecl);
    assert_eq!(
        inner_out.children[0],
        params(vec![default(
            "b",
            probes("a.tsx", "useBaz", 2, 38, call(2, 38, ident("useBaz"), vec![]))
        )])
    );
    assert_eq!(inner_out.children[1].children[0], scope_init("Inner", "a.tsx", 2, 19));
}

#[test]
fn function_without_body_is_not_instrumented() {
    let declared = at(1, 0, n(Kind::FnDecl, "Foo", vec![params(vec![jsx(vec![])])]));
    let input = module(vec![declared]);
    assert_eq!(run("Foo.tsx", input.clone()), input);
}

#[test]
fn use_state_is_never_rewritten_under_default_ignore_list() {
    // function Foo() { const s = useState(0); return <div/>; }
    let input = module(vec![function(
        1,
        0,
        "Foo",
        vec![constant("s", call(1, 27, ident("useState"), vec![number("0")])), ret(jsx(vec![]))],
    )]);
    let out = run("Foo.tsx", input);
    let body = &out.body[1].children[1];
    assert_eq!(body.children[1], constant("s", call(1, 27, ident("useState"), vec![number("0")])));
    assert_eq!(count_in(&out.body[1], &|x| x.kind == Kind::Sequence), 0);
}

#[test]
fn every_default_ignored_hook_is_left_alone() {
    for hook in react_jitter::config::default_ignored_hooks() {
        let input = module(vec![function(
            1,
            0,
            "Foo",
            vec![constant("s", call(2, 4, ident(&hook), vec![])), ret(jsx(vec![]))],
        )]);
        let out = run("Foo.tsx", input);
        assert_eq!(count_in(&out.body[1], &|x| x.kind == Kind::Sequence), 0, "{}", hook);
    }
}

#[test]
fn custom_hook_in_component_is_rewritten() {
    // function Foo() { const t = useCustomThing(); return <div/>; }
    let input = module(vec![function(
        1,
        0,
        "Foo",
        vec![constant("t", call(2, 12, ident("useCustomThing"), vec![])), ret(jsx(vec![]))],
    )]);
    let out = run("Foo.tsx", input);
    let body = &out.body[1].children[1];
    assert_eq!(
        body.children[1],
        constant(
            "t",
            probes("Foo.tsx", "useCustomThing", 2, 12, call(2, 12, ident("useCustomThing"), vec![]))
        )
    );
}

#[test]
fn hook_of_the_users_ignore_list_is_left_alone() {
    let options = Options {
        ignore_hooks: vec!["useBar".to_string()],
        exclude: vec![],
        include_arguments: false,
    };
    let out = run_with("Foo.tsx", options, foo_component());
    let body = &out.body[1].children[0].children[1];
    assert_eq!(body.children[1], constant("x", call(1, 34, ident("useBar"), vec![])));
    // useState is not in this list, so it is rewritten now
    let options = Options {
        ignore_hooks: vec!["useBar".to_string()],
        exclude: vec![],
        include_arguments: false,
    };
    let input = module(vec![function(
        1,
        0,
        "Foo",
        vec![constant("s", call(1, 27, ident("useState"), vec![])), ret(jsx(vec![]))],
    )]);
    let out = run_with("Foo.tsx", options, input);
    assert_eq!(count_in(&out.body[1], &|x| x.kind == Kind::Sequence), 1);
}

#[test]
fn runtime_initializer_is_ignored_whatever_the_list() {
    let options = Options { ignore_hooks: vec![], exclude: vec![], include_arguments: false };
    // function Foo() { const h2 = useJitterScope(); return <div/>; }
    let input = module(vec![function(
        1,
        0,
        "Foo",
        vec![constant("h2", call(1, 28, ident("useJitterScope"), vec![])), ret(jsx(vec![]))],
    )]);
    let out = run_with("Foo.tsx", options, input);
    let body = &out.body[1].children[1];
    assert_eq!(body.children[1], constant("h2", call(1, 28, ident("useJitterScope"), vec![])));
}

#[test]
fn hook_in_nested_function_does_not_make_component_eligible() {
    // function Foo() { const f = () => { useBar(); }; return 1; }
    let nested = arrow(1, 27, block(vec![call(1, 35, ident("useBar"), vec![])]));
    let input = module(vec![function(1, 0, "Foo", vec![constant("f", nested), ret(number("1"))])]);
    assert_eq!(run("Foo.tsx", input.clone()), input);
}

#[test]
fn jsx_in_nested_class_does_not_make_component_eligible() {
    let class = n(Kind::Class, "Inner", vec![n(Kind::Other, "", vec![ret(jsx(vec![]))])]);
    let input = module(vec![function(1, 0, "Foo", vec![class, ret(number("1"))])]);
    assert_eq!(run("Foo.tsx", input.clone()), input);
}

#[test]
fn nested_function_is_instrumented_if_it_qualifies_itself() {
    // function outer() { function Inner() { return useBar(); } }
    let inner = function(2, 2, "Inner", vec![ret(call(2, 28, ident("useBar"), vec![]))]);
    let input = module(vec![function(1, 0, "outer", vec![inner])]);
    let out = run("a.tsx", input);
    let expected_inner = function(
        2,
        2,
        "Inner",
        vec![
            scope_init("Inner", "a.tsx", 2, 2),
            ret(render(2, 28, probes("a.tsx", "useBar", 2, 28, call(2, 28, ident("useBar"), vec![])))),
        ],
    );
    let expected = module(vec![runtime_import(), function(1, 0, "outer", vec![expected_inner])]);
    assert_eq!(out, expected);
}

#[test]
fn hook_call_outside_of_components_is_left_alone() {
    // const x = useBar(); function Foo() { return <div/>; } const y = useBaz();
    let input = module(vec![
        constant("x", call(1, 10, ident("useBar"), vec![])),
        function(2, 0, "Foo", vec![ret(jsx(vec![]))]),
        constant("y", call(3, 10, ident("useBaz"), vec![])),
    ]);
    let out = run("a.tsx", input);
    assert_eq!(out.body.len(), 4);
    assert_eq!(out.body[1], constant("x", call(1, 10, ident("useBar"), vec![])));
    assert_eq!(out.body[3], constant("y", call(3, 10, ident("useBaz"), vec![])));
}

#[test]
fn hook_call_in_callback_of_an_instrumented_component_uses_its_scope() {
    // function Foo() { const f = () => useBar(); return <div/>; }
    let nested = arrow(1, 27, call(1, 33, ident("useBar"), vec![]));
    let input =
        module(vec![function(1, 0, "Foo", vec![constant("f", nested), ret(jsx(vec![]))])]);
    let out = run("Foo.tsx", input);
    let body = &out.body[1].children[1];
    let expected = arrow(
        1,
        27,
        probes("Foo.tsx", "useBar", 1, 33, call(1, 33, ident("useBar"), vec![])),
    );
    assert_eq!(body.children[1], constant("f", expected));
}

#[test]
fn existing_runtime_import_is_not_duplicated() {
    let mut input = foo_component();
    input.body.insert(0, runtime_import());
    let out = run("Foo.tsx", input);
    assert_eq!(out.body.len(), 2);
    assert_eq!(out.body[0], runtime_import());
    assert_eq!(out.body.iter().filter(|item| item.kind == Kind::Import).count(), 1);
}

#[test]
fn existing_runtime_import_counts_anywhere_and_among_other_names() {
    let mut input = foo_component();
    input.body.push(import("react-jitter/runtime", vec!["other", "useJitterScope"]));
    let out = run("Foo.tsx", input);
    assert_eq!(out.body.len(), 2);
    assert_eq!(out.body[0].kind, Kind::ExportDecl);
}

#[test]
fn import_of_another_name_or_module_does_not_count() {
    let mut input = foo_component();
    input.body.insert(0, import("react-jitter/runtime", vec!["useOther"]));
    input.body.insert(1, import("react-jitter", vec!["useJitterScope"]));
    let out = run("Foo.tsx", input);
    assert_eq!(out.body.len(), 4);
    assert_eq!(out.body[2], runtime_import());
}

#[test]
fn default_import_of_the_runtime_does_not_count() {
    let mut input = foo_component();
    let default_specifier = n(Kind::Other, "useJitterScope", vec![]);
    input.body.insert(0, n(Kind::Import, "react-jitter/runtime", vec![default_specifier]));
    let out = run("Foo.tsx", input);
    assert_eq!(out.body.len(), 3);
    assert_eq!(out.body[1], runtime_import());
}

#[test]
fn import_goes_after_the_leading_imports() {
    let mut input = foo_component();
    input.body.insert(0, import("react", vec!["useState"]));
    input.body.insert(1, import("./bar", vec!["useBar"]));
    input.body.push(import("./late", vec!["late"]));
    let out = run("Foo.tsx", input);
    assert_eq!(out.body.len(), 5);
    assert_eq!(out.body[0], import("react", vec!["useState"]));
    assert_eq!(out.body[1], import("./bar", vec!["useBar"]));
    assert_eq!(out.body[2], runtime_import());
    assert_eq!(out.body[3].kind, Kind::ExportDecl);
    assert_eq!(out.body[4], import("./late", vec!["late"]));
}

#[test]
fn module_without_instrumented_declaration_gains_no_import() {
    let input = module(vec![
        import("react", vec!["useState"]),
        constant("x", call(2, 10, ident("useBar"), vec![])),
    ]);
    assert_eq!(run("a.tsx", input.clone()), input);
}

#[test]
fn empty_module_stays_empty() {
    assert_eq!(run("a.tsx", module(vec![])), module(vec![]));
}

#[test]
fn anonymous_default_export_is_a_component() {
    // export default function () { return <div/>; }
    let function = at(1, 15, n(Kind::FnExpr, "", vec![params(vec![]), block(vec![ret(jsx(vec![]))])]));
    let input = module(vec![n(Kind::ExportDefaultDecl, "", vec![function])]);
    let out = run("page.tsx", input);
    let expected_function = at(
        1,
        15,
        n(
            Kind::FnExpr,
            "",
            vec![
                params(vec![]),
                block(vec![
                    scope_init("(anonymous)", "page.tsx", 1, 15),
                    ret(render(0, 0, jsx(vec![]))),
                ]),
            ],
        ),
    );
    let expected =
        module(vec![runtime_import(), n(Kind::ExportDefaultDecl, "", vec![expected_function])]);
    assert_eq!(out, expected);
}

#[test]
fn named_default_export_goes_by_its_name() {
    let make = |name: &str| {
        let function =
            at(1, 15, n(Kind::FnExpr, name, vec![params(vec![]), block(vec![ret(jsx(vec![]))])]));
        module(vec![n(Kind::ExportDefaultDecl, "", vec![function])])
    };
    let out = run("page.tsx", make("Page"));
    assert_eq!(out.body.len(), 2);
    assert_eq!(
        out.body[1].children[0].children[1].children[0],
        scope_init("Page", "page.tsx", 1, 15)
    );
    assert_eq!(run("page.tsx", make("page")), make("page"));
}

#[test]
fn anonymous_default_export_without_jsx_or_hooks_is_left_alone() {
    let function =
        at(1, 15, n(Kind::FnExpr, "", vec![params(vec![]), block(vec![ret(number("1"))])]));
    let input = module(vec![n(Kind::ExportDefaultDecl, "", vec![function])]);
    assert_eq!(run("page.tsx", input.clone()), input);
}

#[test]
fn function_expression_elsewhere_is_no_candidate() {
    // const Foo = function () { return <div/>; };
    let function =
        at(1, 12, n(Kind::FnExpr, "Foo", vec![params(vec![]), block(vec![ret(jsx(vec![]))])]));
    let input = module(vec![constant("Foo", function)]);
    assert_eq!(run("a.tsx", input.clone()), input);
}

#[test]
fn exported_hook_utility_with_expression_body() {
    // export const useTotal = () => useItems();
    let body = call(1, 30, ident("useItems"), vec![]);
    let input = module(vec![export(constant("useTotal", arrow(1, 24, body)))]);
    let out = run("hooks.ts", input);
    let new_body = at(
        1,
        30,
        block(vec![
            scope_init("useTotal", "hooks.ts", 1, 24),
            at(
                1,
                30,
                ret(render(
                    1,
                    30,
                    probes("hooks.ts", "useItems", 1, 30, call(1, 30, ident("useItems"), vec![])),
                )),
            ),
        ]),
    );
    let expected =
        module(vec![runtime_import(), export(constant("useTotal", arrow(1, 24, new_body)))]);
    assert_eq!(out, expected);
}

#[test]
fn exported_hook_utility_with_block_body() {
    // export const useTotal = () => { const items = useItems(); return items.length; };
    let length = n(Kind::Member, "length", vec![ident("items")]);
    let body = block(vec![
        constant("items", call(1, 46, ident("useItems"), vec![])),
        ret(at(1, 65, length)),
    ]);
    let input = module(vec![export(constant("useTotal", arrow(1, 24, body)))]);
    let out = run("hooks.ts", input);
    let new_body = block(vec![
        scope_init("useTotal", "hooks.ts", 1, 24),
        constant(
            "items",
            probes("hooks.ts", "useItems", 1, 46, call(1, 46, ident("useItems"), vec![])),
        ),
        ret(render(1, 65, at(1, 65, n(Kind::Member, "length", vec![ident("items")])))),
    ]);
    let expected =
        module(vec![runtime_import(), export(constant("useTotal", arrow(1, 24, new_body)))]);
    assert_eq!(out, expected);
}

#[test]
fn hook_utility_is_eligible_by_its_name_alone() {
    // export const useNothing = () => 1;
    let input = module(vec![export(constant("useNothing", arrow(1, 26, at(1, 32, number("1")))))]);
    let out = run("hooks.ts", input);
    let new_body = at(
        1,
        32,
        block(vec![
            scope_init("useNothing", "hooks.ts", 1, 26),
            at(1, 32, ret(render(1, 32, at(1, 32, number("1"))))),
        ]),
    );
    let expected =
        module(vec![runtime_import(), export(constant("useNothing", arrow(1, 26, new_body)))]);
    assert_eq!(out, expected);
}

#[test]
fn hook_utility_that_is_not_exported_is_left_alone() {
    let input =
        module(vec![constant("useTotal", arrow(1, 17, call(1, 23, ident("useItems"), vec![])))]);
    assert_eq!(run("hooks.ts", input.clone()), input);
}

#[test]
fn exported_arrow_with_another_name_is_left_alone() {
    let make = |name: &str| {
        module(vec![export(constant(name, arrow(1, 17, call(1, 23, ident("useItems"), vec![]))))])
    };
    assert_eq!(run("hooks.ts", make("user")), make("user"));
    assert_eq!(run("hooks.ts", make("total")), make("total"));
    assert_eq!(run("hooks.ts", make("use")), make("use"));
}

#[test]
fn exported_hook_name_bound_to_something_else_is_left_alone() {
    let input = module(vec![export(constant("useTotal", number("1")))]);
    assert_eq!(run("hooks.ts", input.clone()), input);
}

#[test]
fn each_declarator_of_an_export_is_taken_by_itself() {
    // export const a = useBar(), useB = () => 1;
    let decl = n(
        Kind::VarDecl,
        "const",
        vec![
            n(Kind::Declarator, "", vec![ident("a"), call(1, 17, ident("useBar"), vec![])]),
            n(Kind::Declarator, "", vec![ident("useB"), arrow(1, 34, at(1, 40, number("1")))]),
        ],
    );
    let out = run("hooks.ts", module(vec![export(decl)]));
    let decls = &out.body[1].children[0].children;
    assert_eq!(
        decls[0],
        n(Kind::Declarator, "", vec![ident("a"), call(1, 17, ident("useBar"), vec![])])
    );
    assert_eq!(decls[1].children[1].children[1].children[0], scope_init("useB", "hooks.ts", 1, 34));
}

#[test]
fn return_that_is_wrapped_already_is_left_alone() {
    // function Foo() { return h.re(<div/>); }
    let wrapped = render(1, 24, jsx(vec![]));
    let input = module(vec![function(1, 0, "Foo", vec![ret(wrapped)])]);
    let out = run("Foo.tsx", input);
    let body = &out.body[1].children[1];
    assert_eq!(body.children[1], ret(render(1, 24, jsx(vec![]))));
}

#[test]
fn second_run_does_not_wrap_a_return_twice() {
    let once = run("Foo.tsx", foo_component());
    let twice = run("Foo.tsx", once);
    let function = &twice.body[1].children[0];
    let wraps = count_in(function, &|x| {
        x.kind == Kind::Call
            && !x.children.is_empty()
            && x.children[0].kind == Kind::Member
            && x.children[0].text == "re"
    });
    assert_eq!(wraps, 1);
    let returned = function.children[1].children.last().unwrap();
    assert_eq!(returned.kind, Kind::Return);
    assert_eq!(returned.children[0].children[1].kind, Kind::Jsx);
}

#[test]
fn wrapper_of_another_object_is_no_render_wrapper() {
    // function Foo() { return g.re(<div/>); }
    let other = call(1, 24, n(Kind::Member, "re", vec![ident("g")]), vec![jsx(vec![])]);
    let input = module(vec![function(1, 0, "Foo", vec![ret(other)])]);
    let out = run("Foo.tsx", input);
    let body = &out.body[1].children[1];
    let inner = call(1, 24, n(Kind::Member, "re", vec![ident("g")]), vec![jsx(vec![])]);
    assert_eq!(body.children[1], ret(render(1, 24, inner)));
}

#[test]
fn return_without_value_is_left_alone() {
    // function Foo() { if (x) return; return <div/>; }
    let bare = n(Kind::Return, "", vec![]);
    let input = module(vec![function(
        1,
        0,
        "Foo",
        vec![n(Kind::Other, "", vec![ident("x"), bare]), ret(jsx(vec![]))],
    )]);
    let out = run("Foo.tsx", input);
    let body = &out.body[1].children[1];
    assert_eq!(body.children[1], n(Kind::Other, "", vec![ident("x"), n(Kind::Return, "", vec![])]));
}

#[test]
fn return_outside_of_components_is_left_alone() {
    let input = module(vec![function(1, 0, "helper", vec![ret(call(1, 27, ident("compute"), vec![]))])]);
    assert_eq!(run("a.ts", input.clone()), input);
}

#[test]
fn nested_hook_calls_are_rewritten_inside_out() {
    // function Foo() { useA(useB()); return <div/>; }
    let inner = call(1, 22, ident("useB"), vec![]);
    let outer = call(1, 17, ident("useA"), vec![inner]);
    let input = module(vec![function(1, 0, "Foo", vec![outer, ret(jsx(vec![]))])]);
    let out = run("Foo.tsx", input);
    let body = &out.body[1].children[1];
    let inner_probes = probes("Foo.tsx", "useB", 1, 22, call(1, 22, ident("useB"), vec![]));
    let expected =
        probes("Foo.tsx", "useA", 1, 17, call(1, 17, ident("useA"), vec![inner_probes]));
    assert_eq!(body.children[1], expected);
}

#[test]
fn call_of_a_member_is_no_hook_call() {
    // function Foo() { React.useBar(); return <div/>; }
    let member = call(1, 17, n(Kind::Member, "useBar", vec![ident("React")]), vec![]);
    let input = module(vec![function(1, 0, "Foo", vec![member, ret(jsx(vec![]))])]);
    let out = run("Foo.tsx", input);
    let body = &out.body[1].children[1];
    assert_eq!(
        body.children[1],
        call(1, 17, n(Kind::Member, "useBar", vec![ident("React")]), vec![])
    );
}

#[test]
fn call_of_a_member_does_not_make_a_component_eligible() {
    let member = call(1, 17, n(Kind::Member, "useBar", vec![ident("React")]), vec![]);
    let input = module(vec![function(1, 0, "Foo", vec![member, ret(number("1"))])]);
    assert_eq!(run("Foo.tsx", input.clone()), input);
}

#[test]
fn ignored_hook_still_makes_a_component_eligible() {
    // function Foo() { useState(0); return 1; }
    let input = module(vec![function(
        1,
        0,
        "Foo",
        vec![call(1, 17, ident("useState"), vec![number("0")]), ret(at(1, 38, number("1")))],
    )]);
    let out = run("Foo.tsx", input);
    let expected = module(vec![
        runtime_import(),
        function(
            1,
            0,
            "Foo",
            vec![
                scope_init("Foo", "Foo.tsx", 1, 0),
                call(1, 17, ident("useState"), vec![number("0")]),
                ret(render(1, 38, at(1, 38, number("1")))),
            ],
        ),
    ]);
    assert_eq!(out, expected);
}

#[test]
fn arguments_are_recorded_when_asked_for() {
    // function Foo() { useBar(a + 1, ...rest, b); return <div/>; }
    let sum = n(Kind::Arg, "a + 1", vec![n(Kind::Other, "", vec![ident("a"), number("1")])]);
    let rest = n(Kind::Spread, "", vec![ident("rest")]);
    let bare = ident("b");
    let unknown = n(Kind::Arg, "", vec![ident("c")]);
    let hook = call(1, 17, ident("useBar"), vec![sum, rest, bare, unknown]);
    let input = module(vec![function(1, 0, "Foo", vec![hook, ret(jsx(vec![]))])]);
    let options = Options { include_arguments: true, ..Options::default() };
    let out = run_with("Foo.tsx", options, input);
    let body = &out.body[1].children[1];
    let mut meta = call_meta("Foo.tsx", "useBar", 1, 17);
    meta.push(prop(
        "arguments",
        n(
            Kind::Array,
            "",
            vec![string("a + 1"), string("..."), string("<unsupported>"), string("<unsupported>")],
        ),
    ));
    let kept = call(
        1,
        17,
        ident("useBar"),
        vec![
            n(Kind::Arg, "a + 1", vec![n(Kind::Other, "", vec![ident("a"), number("1")])]),
            n(Kind::Spread, "", vec![ident("rest")]),
            ident("b"),
            n(Kind::Arg, "", vec![ident("c")]),
        ],
    );
    assert_eq!(body.children[1], probes_with("Foo.tsx", "useBar", 1, 17, kept, meta));
}

#[test]
fn arguments_of_a_call_without_arguments_are_an_empty_array() {
    let options = Options { include_arguments: true, ..Options::default() };
    let out = run_with("Foo.tsx", options, foo_component());
    let body = &out.body[1].children[0].children[1];
    let mut meta = call_meta("Foo.tsx", "useBar", 1, 34);
    meta.push(prop("arguments", n(Kind::Array, "", vec![])));
    let expected =
        probes_with("Foo.tsx", "useBar", 1, 34, call(1, 34, ident("useBar"), vec![]), meta);
    assert_eq!(body.children[1], constant("x", expected));
}

#[test]
fn arguments_are_not_recorded_by_default() {
    let sum = n(Kind::Arg, "a + 1", vec![ident("a")]);
    let hook = call(1, 17, ident("useBar"), vec![sum]);
    let input = module(vec![function(1, 0, "Foo", vec![hook, ret(jsx(vec![]))])]);
    let out = run("Foo.tsx", input);
    let meta = &out.body[1].children[1].children[1].children[0].children[1].children[2];
    assert_eq!(meta.kind, Kind::Object);
    assert_eq!(meta.children.len(), 5);
}

#[test]
fn handles_of_the_host_are_handed_through() {
    let mut input = foo_component();
    fn number_nodes(node: &mut Node, next: &mut u32) {
        node.handle = *next;
        *next += 1;
        for child in node.children.iter_mut() {
            number_nodes(child, next);
        }
    }
    let mut next = 1;
    number_nodes(&mut input.body[0], &mut next);
    let out = run("Foo.tsx", input.clone());
    assert_eq!(out.body[0].handle, 0);
    let export_in = &input.body[0];
    let export_out = &out.body[1];
    assert_eq!(export_out.handle, export_in.handle);
    let function_in = &export_in.children[0];
    let function_out = &export_out.children[0];
    assert_eq!(function_out.handle, function_in.handle);
    assert_eq!(function_out.children[0], function_in.children[0]);
    let body_in = &function_in.children[1];
    let body_out = &function_out.children[1];
    assert_eq!(body_out.handle, body_in.handle);
    assert_eq!(body_out.children[0].handle, 0);
    assert_eq!(body_out.children[1].handle, body_in.children[0].handle);
    let probes_out = &body_out.children[1].children[0].children[1];
    assert_eq!(probes_out.kind, Kind::Paren);
    assert_eq!(probes_out.handle, 0);
    let call_in = &body_in.children[0].children[0].children[1];
    assert_eq!(probes_out.children[0].children[1].children[1], *call_in);
    assert_eq!(body_out.children[2].handle, body_in.children[1].handle);
    assert_eq!(body_out.children[2].children[0].children[1], body_in.children[1].children[0]);
}

#[test]
fn malformed_nodes_are_left_alone() {
    // a call without a callee, a return with two children, a function
    // declaration whose second child is no block
    let odd_call = at(1, 20, n(Kind::Call, "", vec![]));
    let odd_return = n(Kind::Return, "", vec![number("1"), number("2")]);
    let input = module(vec![
        function(1, 0, "Foo", vec![odd_call, odd_return, ret(jsx(vec![]))]),
        at(2, 0, n(Kind::FnDecl, "Bar", vec![params(vec![]), jsx(vec![])])),
        at(3, 0, n(Kind::FnDecl, "Baz", vec![block(vec![ret(jsx(vec![]))])])),
    ]);
    let out = run("Foo.tsx", input);
    let body = &out.body[1].children[1];
    assert_eq!(body.children[1], at(1, 20, n(Kind::Call, "", vec![])));
    assert_eq!(body.children[2], n(Kind::Return, "", vec![number("1"), number("2")]));
    assert_eq!(out.body[2], at(2, 0, n(Kind::FnDecl, "Bar", vec![params(vec![]), jsx(vec![])])));
    assert_eq!(out.body[3], at(3, 0, n(Kind::FnDecl, "Baz", vec![block(vec![ret(jsx(vec![]))])])));
}

#[test]
fn sibling_components_get_scopes_of_their_own() {
    let input = module(vec![
        function(1, 0, "A", vec![ret(at(1, 22, jsx(vec![])))]),
        function(2, 0, "B", vec![ret(at(2, 22, jsx(vec![])))]),
    ]);
    let out = run("ab.tsx", input);
    assert_eq!(out.body.len(), 3);
    assert_eq!(out.body[1].children[1].children[0], scope_init("A", "ab.tsx", 1, 0));
    assert_eq!(out.body[2].children[1].children[0], scope_init("B", "ab.tsx", 2, 0));
}

#[test]
fn pass_tells_whether_it_instrumented_anything() {
    let mut pass: JitterTransform = jitter_pass("Foo.tsx".to_string(), Options::default());
    assert!(!pass.has_instrumented());
    let out = pass.fold_module(foo_component());
    assert!(pass.has_instrumented());
    assert_eq!(out.body.len(), 2);
    // the state belongs to one module: the next module starts afresh
    let plain = module(vec![constant("x", number("1"))]);
    let out = pass.fold_module(plain.clone());
    assert!(!pass.has_instrumented());
    assert_eq!(out, plain);
}

#[test]
fn pass_from_a_configuration_uses_its_options() {
    let options = Options {
        ignore_hooks: vec!["useBar".to_string()],
        exclude: vec![],
        include_arguments: false,
    };
    let mut pass = react_jitter(Config::WithOptions(options), "Foo.tsx".to_string());
    let out = pass.fold_module(foo_component());
    assert_eq!(count_in(&out.body[1], &|x| x.kind == Kind::Sequence), 0);
    let mut pass = react_jitter(Config::All(true), "Foo.tsx".to_string());
    let out = pass.fold_module(foo_component());
    assert_eq!(count_in(&out.body[1], &|x| x.kind == Kind::Sequence), 1);
}

#[test]
fn switched_off_pass_leaves_the_module_alone() {
    let out = process_transform(foo_component(), Config::All(false), "Foo.tsx".to_string());
    assert_eq!(out, foo_component());
}

#[test]
fn file_path_is_written_as_given() {
    let out = run("src\\components\\Foo.tsx", foo_component());
    let first = &out.body[1].children[0].children[1].children[0];
    let meta = &first.children[0].children[1].children[1];
    assert_eq!(meta.children[2], prop("file", string("src\\components\\Foo.tsx")));
    assert_eq!(meta.children[1], prop("id", string(&id("src\\components\\Foo.tsx", 1, 7))));
}

#[test]
fn every_node_of_the_host_is_in_the_result_once() {
    // two components, a hook utility, nested functions, hook calls in
    // arguments and a return that is wrapped already
    let inner = function(3, 2, "Inner", vec![ret(call(3, 20, ident("useDeep"), vec![]))]);
    let callback = arrow(4, 12, call(4, 18, ident("useA"), vec![call(4, 23, ident("useB"), vec![])]));
    let foo = function(
        2,
        0,
        "Foo",
        vec![inner, constant("f", callback), ret(render(5, 9, jsx(vec![ident("f")])))],
    );
    let utility = export(constant("useTotal", arrow(7, 24, call(7, 30, ident("useItems"), vec![]))));
    let plain = function(8, 0, "helper", vec![ret(call(8, 20, ident("useOutside"), vec![]))]);
    let mut input = module(vec![import("react", vec!["useState"]), foo, utility, plain]);
    fn number_nodes(node: &mut Node, next: &mut u32) {
        node.handle = *next;
        *next += 1;
        for child in node.children.iter_mut() {
            number_nodes(child, next);
        }
    }
    fn handles(node: &Node, out: &mut Vec<u32>) {
        if node.handle != 0 {
            out.push(node.handle);
        }
        for child in &node.children {
            handles(child, out);
        }
    }
    let mut next = 1;
    for item in input.body.iter_mut() {
        number_nodes(item, &mut next);
    }
    let out = run("a.tsx", input);
    let mut found = Vec::new();
    for item in &out.body {
        handles(item, &mut found);
    }
    found.sort();
    let expected: Vec<u32> = (1..next).collect();
    assert_eq!(found, expected);
    // and something was added
    assert!(count_in(&out.body[1], &|x| x.handle == 0) == 2);
    assert!(out.body.iter().map(|item| count_in(item, &|x| x.handle == 0)).sum::<usize>() > 40);
}
