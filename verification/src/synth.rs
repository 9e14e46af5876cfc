//! The code that the pass creates: the statement that binds a scope handle,
//! the probes around a hook call, the wrapper of a returned value and the
//! import of the runtime.
use crate::ast::{created, nodes_view, one, two, Kind, Location, Node, NodeView};
use crate::config::{runtime_module, runtime_symbol};
use crate::site_id::{compute_id, site_id};
use crate::text::{decimal, decimal_string, same_text};
use vstd::prelude::*;
use vstd::string::*;

verus! {

/// The name that the scope handle is bound to in an instrumented function.
pub open spec fn scope_handle() -> Seq<char> {
    "h"@
}

/// The method of the scope handle that wraps a returned value.
pub open spec fn render_method() -> Seq<char> {
    "re"@
}

/// The name given to a function that has none.
pub open spec fn anonymous_name() -> Seq<char> {
    "(anonymous)"@
}

/// What stands for the source text of an argument that is spread.
pub open spec fn spread_text() -> Seq<char> {
    "..."@
}

/// What stands for the source text of an argument where it is not known.
pub open spec fn unknown_text() -> Seq<char> {
    "<unsupported>"@
}

/// The identifier `name`.
pub open spec fn ident_view(name: Seq<char>) -> NodeView {
    created(Kind::Ident, name, Location::nowhere(), Seq::empty())
}

/// The string literal with the value `value`.
pub open spec fn str_lit_view(value: Seq<char>) -> NodeView {
    created(Kind::StringLit, value, Location::nowhere(), Seq::empty())
}

/// The number literal `n`.
pub open spec fn num_lit_view(n: u32) -> NodeView {
    created(Kind::NumberLit, decimal(n as nat), Location::nowhere(), Seq::empty())
}

/// The property `key: value`.
pub open spec fn key_value_view(key: Seq<char>, value: NodeView) -> NodeView {
    created(Kind::KeyValue, key, Location::nowhere(), seq![value])
}

/// `h.method`, where `h` is the scope handle.
pub open spec fn handle_method_view(method: Seq<char>) -> NodeView {
    created(Kind::Member, method, Location::nowhere(), seq![ident_view(scope_handle())])
}

/// The call of `callee` with the arguments `args`, placed at `loc`.
pub open spec fn call_view(callee: NodeView, args: Seq<NodeView>, loc: Location) -> NodeView {
    created(Kind::Call, Seq::empty(), loc, seq![callee] + args)
}

/// The metadata of an instrumentation site, as it is written into the
/// instrumented program.
pub struct SiteMetadata {
    /// The name of the declaration.
    pub name: String,
    /// The identifier of the site.
    pub id: String,
    /// The path of the file.
    pub file: String,
    /// The line of the site.
    pub line: u32,
    /// The display column of the site.
    pub column: u32,
}

/// The object literal `{ name, id, file, line, column }` of a site.
pub open spec fn site_object_view(
    name: Seq<char>,
    id: Seq<char>,
    file: Seq<char>,
    line: u32,
    column: u32,
) -> NodeView {
    created(
        Kind::Object,
        Seq::empty(),
        Location::nowhere(),
        seq![
            key_value_view("name"@, str_lit_view(name)),
            key_value_view("id"@, str_lit_view(id)),
            key_value_view("file"@, str_lit_view(file)),
            key_value_view("line"@, num_lit_view(line)),
            key_value_view("column"@, num_lit_view(column)),
        ],
    )
}

/// The metadata of the scope of the declaration `name` at `loc` in `file`.
pub open spec fn scope_metadata_view(name: Seq<char>, file: Seq<char>, loc: Location) -> NodeView {
    site_object_view(name, site_id(file, loc.line, loc.column), file, loc.line, loc.column)
}

/// The statement `const h = useJitterScope({ .. })` that binds the scope
/// handle of the declaration `name` at `loc` in `file`.
pub open spec fn scope_stmt_view(name: Seq<char>, file: Seq<char>, loc: Location) -> NodeView {
    created(
        Kind::VarDecl,
        "const"@,
        Location::nowhere(),
        seq![
            created(
                Kind::Declarator,
                Seq::empty(),
                Location::nowhere(),
                seq![
                    ident_view(scope_handle()),
                    call_view(
                        ident_view(runtime_symbol()),
                        seq![scope_metadata_view(name, file, loc)],
                        Location::nowhere(),
                    ),
                ],
            ),
        ],
    )
}

/// The name that the call `call` calls: the text of its callee.
pub open spec fn callee_name(call: NodeView) -> Seq<char> {
    if call.children.len() >= 1 {
        call.children[0].text
    } else {
        Seq::empty()
    }
}

/// The arguments of the call `call`: its children but the first.
pub open spec fn arguments_of(call: NodeView) -> Seq<NodeView> {
    if call.children.len() >= 1 {
        call.children.skip(1)
    } else {
        Seq::empty()
    }
}

/// The text recorded for the argument `arg` of a hook call.
pub open spec fn arg_text(arg: NodeView) -> Seq<char> {
    if arg.kind == Kind::Spread {
        spread_text()
    } else if arg.kind == Kind::Arg && arg.text.len() > 0 {
        arg.text
    } else {
        unknown_text()
    }
}

/// The array of the texts recorded for the arguments `args`.
pub open spec fn arg_texts_view(args: Seq<NodeView>) -> NodeView {
    created(
        Kind::Array,
        Seq::empty(),
        Location::nowhere(),
        Seq::new(args.len(), |i: int| str_lit_view(arg_text(args[i]))),
    )
}

/// The metadata of a call of `hook` at `loc` in `file`; with `args`, it
/// also records the arguments' texts.
pub open spec fn meta_obj_view(
    file: Seq<char>,
    hook: Seq<char>,
    loc: Location,
    args: Option<Seq<NodeView>>,
) -> NodeView {
    let fixed = seq![
        key_value_view("id"@, str_lit_view(site_id(file, loc.line, loc.column))),
        key_value_view("file"@, str_lit_view(file)),
        key_value_view("hook"@, str_lit_view(hook)),
        key_value_view("line"@, num_lit_view(loc.line)),
        key_value_view("column"@, num_lit_view(loc.column)),
    ];
    created(
        Kind::Object,
        Seq::empty(),
        Location::nowhere(),
        match args {
            Some(a) => fixed.push(key_value_view("arguments"@, arg_texts_view(a))),
            None => fixed,
        },
    )
}

/// The start probe `h.s(id)` of the call at `loc` in `file`.
pub open spec fn start_call_view(file: Seq<char>, loc: Location) -> NodeView {
    call_view(handle_method_view("s"@), seq![str_lit_view(site_id(file, loc.line, loc.column))], loc)
}

/// The end probe `h.e(call, meta)`.
pub open spec fn end_call_view(call: NodeView, meta: NodeView) -> NodeView {
    call_view(handle_method_view("e"@), seq![call, meta], call.loc)
}

/// What a hook call turns into: `(h.s(id), h.e(call, meta))`, whose value is
/// that of the end probe, which hands on the value of `call`.
pub open spec fn probed_view(file: Seq<char>, include_arguments: bool, call: NodeView) -> NodeView {
    let meta = meta_obj_view(
        file,
        callee_name(call),
        call.loc,
        if include_arguments {
            Some(arguments_of(call))
        } else {
            None
        },
    );
    created(
        Kind::Paren,
        Seq::empty(),
        call.loc,
        seq![
            created(
                Kind::Sequence,
                Seq::empty(),
                call.loc,
                seq![start_call_view(file, call.loc), end_call_view(call, meta)],
            ),
        ],
    )
}

/// Whether `e` is a call of the render wrapper: a call whose callee is
/// `h.re`.
pub open spec fn is_render_wrap(e: NodeView) -> bool {
    &&& e.kind == Kind::Call
    &&& e.children.len() >= 1
    &&& e.children[0].kind == Kind::Member
    &&& e.children[0].text == render_method()
    &&& e.children[0].children.len() == 1
    &&& e.children[0].children[0].kind == Kind::Ident
    &&& e.children[0].children[0].text == scope_handle()
}

/// `h.re(e)`, placed where `e` is.
pub open spec fn render_call_view(e: NodeView) -> NodeView {
    call_view(handle_method_view(render_method()), seq![e], e.loc)
}

/// The value `e` as a `return` hands it on in an instrumented function:
/// wrapped in the render wrapper, unless it is such a call already.
pub open spec fn wrapped_view(e: NodeView) -> NodeView {
    if is_render_wrap(e) {
        e
    } else {
        render_call_view(e)
    }
}

/// The import of the runtime's initializer.
pub open spec fn runtime_import_view() -> NodeView {
    created(
        Kind::Import,
        runtime_module(),
        Location::nowhere(),
        seq![created(Kind::ImportNamed, runtime_symbol(), Location::nowhere(), Seq::empty())],
    )
}

fn make(kind: Kind, text: String, loc: Location, children: Vec<Node>) -> (r: Node)
    ensures
        r@ == created(kind, text@, loc, nodes_view(children@)),
{
    Node { kind, text, loc, handle: 0, children }
}

/// Creates the identifier `name`.
pub fn ident(name: &str) -> (r: Node)
    ensures
        r@ == ident_view(name@),
{
    Node::leaf(Kind::Ident, name)
}

/// Creates the string literal with the value `value`.
pub fn str_lit(value: &str) -> (r: Node)
    ensures
        r@ == str_lit_view(value@),
{
    Node::leaf(Kind::StringLit, value)
}

/// Creates the number literal `n`.
pub fn num_lit(n: u32) -> (r: Node)
    ensures
        r@ == num_lit_view(n),
{
    let text = decimal_string(n);
    Node::leaf(Kind::NumberLit, text.as_str())
}

/// Creates the property `key: value`.
pub fn key_value(key: &str, value: Node) -> (r: Node)
    ensures
        r@ == key_value_view(key@, value@),
{
    make(Kind::KeyValue, String::from_str(key), Location::none(), one(value))
}

fn handle_method(method: &str) -> (r: Node)
    ensures
        r@ == handle_method_view(method@),
{
    make(Kind::Member, String::from_str(method), Location::none(), one(ident("h")))
}

/// Creates the call of `callee` with one argument.
fn call_one(callee: Node, arg: Node, loc: Location) -> (r: Node)
    ensures
        r@ == call_view(callee@, seq![arg@], loc),
{
    let children = two(callee, arg);
    assert(seq![callee@] + seq![arg@] =~= seq![callee@, arg@]);
    make(Kind::Call, String::new(), loc, children)
}

/// Creates the call of `callee` with two arguments.
fn call_two(callee: Node, first: Node, second: Node, loc: Location) -> (r: Node)
    ensures
        r@ == call_view(callee@, seq![first@, second@], loc),
{
    let mut children: Vec<Node> = Vec::new();
    children.push(callee);
    children.push(first);
    children.push(second);
    assert(nodes_view(children@) =~= seq![callee@] + seq![first@, second@]);
    make(Kind::Call, String::new(), loc, children)
}

impl SiteMetadata {
    /// The metadata of the declaration `name`, which stands at `loc` in
    /// `file`. The identifier is computed from the file and the place.
    pub fn new(name: &str, file: &str, loc: Location) -> (r: SiteMetadata)
        ensures
            r.name@ == name@,
            r.id@ == site_id(file@, loc.line, loc.column),
            r.file@ == file@,
            r.line == loc.line,
            r.column == loc.column,
    {
        SiteMetadata {
            name: String::from_str(name),
            id: compute_id(file, loc.line, loc.column),
            file: String::from_str(file),
            line: loc.line,
            column: loc.column,
        }
    }

    /// The object literal that holds this metadata.
    pub fn to_object(&self) -> (r: Node)
        ensures
            r@ == site_object_view(self.name@, self.id@, self.file@, self.line, self.column),
    {
        let mut props: Vec<Node> = Vec::new();
        props.push(key_value("name", str_lit(self.name.as_str())));
        props.push(key_value("id", str_lit(self.id.as_str())));
        props.push(key_value("file", str_lit(self.file.as_str())));
        props.push(key_value("line", num_lit(self.line)));
        props.push(key_value("column", num_lit(self.column)));
        assert(nodes_view(props@) =~= site_object_view(
            self.name@,
            self.id@,
            self.file@,
            self.line,
            self.column,
        ).children);
        make(Kind::Object, String::new(), Location::none(), props)
    }
}

/// Creates the statement that binds the scope handle of the declaration
/// `name`, which stands at `loc` in `file`.
pub fn scope_stmt(name: &str, file: &str, loc: Location) -> (r: Node)
    ensures
        r@ == scope_stmt_view(name@, file@, loc),
{
    let meta = SiteMetadata::new(name, file, loc).to_object();
    let init = call_one(ident("useJitterScope"), meta, Location::none());
    let declarator = make(Kind::Declarator, String::new(), Location::none(), two(ident("h"), init));
    make(Kind::VarDecl, String::from_str("const"), Location::none(), one(declarator))
}

/// Creates the array of the texts recorded for the arguments of `call`.
fn arg_texts(call: &Node) -> (r: Node)
    ensures
        r@ == arg_texts_view(arguments_of(call@)),
{
    assert(call@.children.len() == call.children.len());
    let mut elems: Vec<Node> = Vec::new();
    let mut i: usize = 1;
    while i < call.children.len()
        invariant
            1 <= i,
            i <= call.children.len() || (call.children.len() == 0 && i == 1),
            call@.children.len() == call.children.len(),
            elems.len() == i - 1,
            forall|j: int|
                0 <= j < i - 1 ==> nodes_view(elems@)[j] == str_lit_view(arg_text(call@.children[j + 1])),
        decreases call.children.len() - i,
    {
        let arg = &call.children[i];
        let ghost before = nodes_view(elems@);
        let elem = match arg.kind {
            Kind::Spread => str_lit("..."),
            Kind::Arg => {
                if !arg.text.as_str().is_empty() {
                    str_lit(arg.text.as_str())
                } else {
                    str_lit("<unsupported>")
                }
            },
            _ => str_lit("<unsupported>"),
        };
        assert(arg@ == call@.children[i as int]);
        assert(elem@ == str_lit_view(arg_text(call@.children[i as int])));
        elems.push(elem);
        assert(nodes_view(elems@) =~= before.push(elem@));
        i = i + 1;
    }
    proof {
        let args = arguments_of(call@);
        let texts = arg_texts_view(args).children;
        assert(nodes_view(elems@).len() == elems.len());
        assert(texts.len() == args.len());
        assert(args.len() == elems.len());
        assert forall|j: int| 0 <= j < elems.len() implies nodes_view(elems@)[j] == texts[j] by {
            assert(args[j] == call@.children[j + 1]);
        }
        assert(nodes_view(elems@) =~= texts);
    }
    make(Kind::Array, String::new(), Location::none(), elems)
}

/// Creates the metadata of the hook call `call`, which stands in `file`.
/// With `include_arguments` the metadata also records the arguments' texts.
pub fn meta_obj(file: &str, include_arguments: bool, call: &Node) -> (r: Node)
    ensures
        r@ == meta_obj_view(
            file@,
            callee_name(call@),
            call@.loc,
            if include_arguments {
                Some(arguments_of(call@))
            } else {
                None
            },
        ),
{
    let loc = call.loc;
    let id = compute_id(file, loc.line, loc.column);
    let hook = if call.children.len() >= 1 {
        assert(call.children[0]@ == call@.children[0]);
        str_lit(call.children[0].text.as_str())
    } else {
        make(Kind::StringLit, String::new(), Location::none(), Vec::new())
    };
    assert(hook@ == str_lit_view(callee_name(call@))) by {
        assert(hook@.children =~= Seq::empty());
    }
    let mut props: Vec<Node> = Vec::new();
    props.push(key_value("id", str_lit(id.as_str())));
    props.push(key_value("file", str_lit(file)));
    props.push(key_value("hook", hook));
    props.push(key_value("line", num_lit(loc.line)));
    props.push(key_value("column", num_lit(loc.column)));
    let ghost fixed = nodes_view(props@);
    assert(fixed =~= meta_obj_view(file@, callee_name(call@), call@.loc, None).children);
    if include_arguments {
        props.push(key_value("arguments", arg_texts(call)));
        assert(nodes_view(props@) =~= fixed.push(
            key_value_view("arguments"@, arg_texts_view(arguments_of(call@))),
        ));
    }
    make(Kind::Object, String::new(), Location::none(), props)
}

/// Creates the start probe of the call at `loc` in `file`.
pub fn start_call(file: &str, loc: Location) -> (r: Node)
    ensures
        r@ == start_call_view(file@, loc),
{
    let id = compute_id(file, loc.line, loc.column);
    call_one(handle_method("s"), str_lit(id.as_str()), loc)
}

/// Creates the end probe of `call` with the metadata `meta`.
pub fn end_call(call: Node, meta: Node) -> (r: Node)
    ensures
        r@ == end_call_view(call@, meta@),
{
    let loc = call.loc;
    call_two(handle_method("e"), call, meta, loc)
}

/// Turns the hook call `call`, which stands in `file`, into the sequence of
/// its two probes.
pub fn probed(file: &str, include_arguments: bool, call: Node) -> (r: Node)
    ensures
        r@ == probed_view(file@, include_arguments, call@),
{
    let loc = call.loc;
    let meta = meta_obj(file, include_arguments, &call);
    let start = start_call(file, loc);
    let end = end_call(call, meta);
    let sequence = make(Kind::Sequence, String::new(), loc, two(start, end));
    make(Kind::Paren, String::new(), loc, one(sequence))
}

/// Decides whether `e` is a call of the render wrapper already.
pub fn already_wrapped(e: &Node) -> (r: bool)
    ensures
        r == is_render_wrap(e@),
{
    if !(e.kind == Kind::Call) || e.children.len() < 1 {
        return false;
    }
    let callee = &e.children[0];
    assert(callee@ == e@.children[0]);
    if !(callee.kind == Kind::Member) || callee.children.len() != 1 {
        return false;
    }
    let object = &callee.children[0];
    assert(object@ == callee@.children[0]);
    object.kind == Kind::Ident && same_text(object.text.as_str(), "h") && same_text(
        callee.text.as_str(),
        "re",
    )
}

/// Wraps the returned value `e` in the render wrapper, unless it is wrapped
/// already.
pub fn wrap_in_h_re(e: Node) -> (r: Node)
    ensures
        r@ == wrapped_view(e@),
{
    if already_wrapped(&e) {
        e
    } else {
        let loc = e.loc;
        call_one(handle_method("re"), e, loc)
    }
}

/// Creates the import of the runtime's initializer.
pub fn runtime_import() -> (r: Node)
    ensures
        r@ == runtime_import_view(),
{
    let specifier = Node::leaf(Kind::ImportNamed, "useJitterScope");
    make(Kind::Import, String::from_str("react-jitter/runtime"), Location::none(), one(specifier))
}

} // verus!
