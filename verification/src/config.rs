//! What a host hands to the pass: whether it runs at all, and with which
//! options.
use vstd::prelude::*;
use vstd::string::*;

verus! {

/// The options of one run of the pass.
#[derive(Clone, Debug)]
pub struct Options {
    /// Names of hooks whose calls are never rewritten.
    pub ignore_hooks: Vec<String>,
    /// Glob patterns; a module whose path matches one of them is left as it is.
    pub exclude: Vec<String>,
    /// Whether the metadata of a hook call also records the source text of
    /// the call's arguments.
    pub include_arguments: bool,
}

/// The configuration of the pass: a plain switch, or a set of options.
#[derive(Clone, Debug)]
pub enum Config {
    /// Runs with the default options (`true`) or not at all (`false`).
    All(bool),
    /// Runs with the options given.
    WithOptions(Options),
}

impl Config {
    /// Whether the pass is to run.
    pub fn truthy(&self) -> (r: bool)
        ensures
            r == match *self {
                Config::All(b) => b,
                Config::WithOptions(_) => true,
            },
    {
        match self {
            Config::All(b) => *b,
            Config::WithOptions(_) => true,
        }
    }
}

/// The name under which the runtime's initializer is imported and called.
pub open spec fn runtime_symbol() -> Seq<char> {
    "useJitterScope"@
}

/// The module specifier from which the runtime's initializer is imported.
pub open spec fn runtime_module() -> Seq<char> {
    "react-jitter/runtime"@
}

/// The hooks ignored by default: the runtime's own initializer and the hooks
/// built into React.
pub open spec fn default_ignored() -> Seq<Seq<char>> {
    seq![
        "useJitterScope"@,
        "useState"@,
        "useEffect"@,
        "useCallback"@,
        "useMemo"@,
        "useRef"@,
        "useImperativeHandle"@,
        "useLayoutEffect"@,
        "useDebugValue"@,
        "useId"@,
        "useDeferredValue"@,
        "useTransition"@,
        "useCacheRefresh"@,
        "useInsertionEffect"@,
        "useSyncExternalStore"@,
    ]
}

/// The patterns excluded by default: anything below a `node_modules`
/// directory, at any depth.
pub open spec fn default_excluded() -> Seq<Seq<char>> {
    seq!["**/node_modules/**"@]
}

/// The list of hooks that are ignored when the host names none.
pub fn default_ignored_hooks() -> (hooks: Vec<String>)
    ensures
        hooks.deep_view() == default_ignored(),
{
    let mut hooks: Vec<String> = Vec::new();
    hooks.push(String::from_str("useJitterScope"));
    hooks.push(String::from_str("useState"));
    hooks.push(String::from_str("useEffect"));
    hooks.push(String::from_str("useCallback"));
    hooks.push(String::from_str("useMemo"));
    hooks.push(String::from_str("useRef"));
    hooks.push(String::from_str("useImperativeHandle"));
    hooks.push(String::from_str("useLayoutEffect"));
    hooks.push(String::from_str("useDebugValue"));
    hooks.push(String::from_str("useId"));
    hooks.push(String::from_str("useDeferredValue"));
    hooks.push(String::from_str("useTransition"));
    hooks.push(String::from_str("useCacheRefresh"));
    hooks.push(String::from_str("useInsertionEffect"));
    hooks.push(String::from_str("useSyncExternalStore"));
    assert(hooks.deep_view() =~= default_ignored());
    hooks
}

/// The list of exclude patterns that apply when the host names none.
pub fn default_exclude_patterns() -> (patterns: Vec<String>)
    ensures
        patterns.deep_view() == default_excluded(),
{
    let mut patterns: Vec<String> = Vec::new();
    patterns.push(String::from_str("**/node_modules/**"));
    assert(patterns.deep_view() =~= default_excluded());
    patterns
}

impl Default for Options {
    /// The default options: the default ignore list, the default exclude
    /// patterns, and no recording of arguments.
    fn default() -> (r: Options)
        ensures
            r.ignore_hooks.deep_view() == default_ignored(),
            r.exclude.deep_view() == default_excluded(),
            !r.include_arguments,
    {
        Options {
            ignore_hooks: default_ignored_hooks(),
            exclude: default_exclude_patterns(),
            include_arguments: false,
        }
    }
}

} // verus!
