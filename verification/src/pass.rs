//! The ways into the pass for a host: one pass from options or from a
//! configuration, two passes run one after the other, and the whole run on
//! one module.
use crate::ast::{Module, ModuleView};
use crate::config::{default_excluded, default_ignored, Config, Options};
use crate::exclude::{any_matches, compilable};
use crate::rules::{transformed, Rules};
use crate::text::forward_slashes;
use crate::transform::{with_runtime_symbol, JitterTransform};
use vstd::prelude::*;
use vstd::string::*;

verus! {

/// A pass over modules.
pub trait Fold {
    /// What the pass turns the module `m` into.
    spec fn output(&self, m: ModuleView) -> ModuleView;

    /// Runs the pass on `m`. What the pass turns a module into stays the
    /// same from one run to the next.
    fn fold_module(&mut self, m: Module) -> (r: Module)
        ensures
            r@ == old(self).output(m@),
            forall|x: ModuleView| #[trigger] final(self).output(x) == old(self).output(x),
    ;
}

impl Fold for JitterTransform {
    open spec fn output(&self, m: ModuleView) -> ModuleView {
        transformed(self.rules(), self.excludes_file(), m)
    }

    fn fold_module(&mut self, m: Module) -> (r: Module) {
        JitterTransform::fold_module(self, m)
    }
}

/// Two passes that run one after the other.
pub struct Pass<A, B> {
    pub first: A,
    pub second: B,
}

impl<A, B> Pass<A, B> {
    /// The pass that runs `first` and then `second`.
    pub fn new(first: A, second: B) -> (r: Pass<A, B>)
        ensures
            r.first == first,
            r.second == second,
    {
        Pass { first, second }
    }
}

impl<A: Fold, B: Fold> Fold for Pass<A, B> {
    open spec fn output(&self, m: ModuleView) -> ModuleView {
        self.second.output(self.first.output(m))
    }

    fn fold_module(&mut self, m: Module) -> (r: Module) {
        let m = self.first.fold_module(m);
        self.second.fold_module(m)
    }
}

/// The pass that runs `first` and then `second`.
pub fn create_pass<A: Fold, B: Fold>(first: A, second: B) -> (r: Pass<A, B>)
    ensures
        r.first == first,
        r.second == second,
{
    Pass::new(first, second)
}

/// The rules of a run on the file `file` with the ignore list `ignore_hooks`.
pub open spec fn run_rules(file: Seq<char>, ignore_hooks: Seq<Seq<char>>, include_arguments: bool) -> Rules {
    Rules { file, ignored: with_runtime_symbol(ignore_hooks), include_arguments }
}

/// Whether a run with the exclude patterns `exclude` leaves out the file
/// `file`: whether one of the patterns that compile matches its path.
pub open spec fn run_excludes(file: Seq<char>, exclude: Seq<Seq<char>>) -> bool {
    any_matches(compilable(exclude), forward_slashes(file))
}

/// What a run with `options` turns the module `m` of the file `file` into.
pub open spec fn run_output(file: Seq<char>, options: Options, m: ModuleView) -> ModuleView {
    transformed(
        run_rules(file, options.ignore_hooks.deep_view(), options.include_arguments),
        run_excludes(file, options.exclude.deep_view()),
        m,
    )
}

/// What a run with the default options turns the module `m` of the file
/// `file` into.
pub open spec fn default_output(file: Seq<char>, m: ModuleView) -> ModuleView {
    transformed(
        run_rules(file, default_ignored(), false),
        run_excludes(file, default_excluded()),
        m,
    )
}

/// The pass over the module of the file `filename`, with `options`.
pub fn jitter_pass(filename: String, options: Options) -> (r: JitterTransform)
    ensures
        r.file() == filename@,
        r.ignored() == with_runtime_symbol(options.ignore_hooks.deep_view()),
        r.excluded() == compilable(options.exclude.deep_view()),
        r.records_arguments() == options.include_arguments,
        !r.instrumented_any(),
{
    JitterTransform::new(filename, options)
}

/// The pass over the module of the file `filename`, with the options that
/// `config` holds, or with the default ones where it holds none.
pub fn react_jitter(config: Config, filename: String) -> (r: JitterTransform)
    ensures
        r.file() == filename@,
        !r.instrumented_any(),
        forall|m: ModuleView| #[trigger]
            r.output(m) == match config {
                Config::WithOptions(options) => run_output(filename@, options, m),
                Config::All(_) => default_output(filename@, m),
            },
{
    let options = match config {
        Config::WithOptions(options) => options,
        Config::All(_) => Options::default(),
    };
    jitter_pass(filename, options)
}

/// Runs the pass that `config` asks for on `program`, the module of the
/// file `filename`. Where `config` switches the pass off, the module comes
/// back as it was.
pub fn process_transform(program: Module, config: Config, filename: String) -> (r: Module)
    ensures
        r@ == match config {
            Config::All(false) => program@,
            Config::All(true) => default_output(filename@, program@),
            Config::WithOptions(options) => run_output(filename@, options, program@),
        },
{
    if !config.truthy() {
        return program;
    }
    let mut pass = react_jitter(config, filename);
    let ghost expected = pass.output(program@);
    let r = pass.fold_module(program);
    assert(r@ == expected);
    r
}

} // verus!
