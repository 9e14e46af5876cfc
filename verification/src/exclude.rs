//! Exclusion of whole modules by the path of their file.
//!
//! A module whose normalized path matches one of the exclude patterns is
//! left exactly as it is.
use crate::text::normalize_path;
use glob::Pattern;
use vstd::prelude::*;
use vstd::string::*;

verus! {

/// `Pattern` of the crate `glob`: a compiled glob pattern.
#[verifier::external_type_specification]
#[verifier::external_body]
pub struct ExPattern(Pattern);

/// The text that a compiled pattern was compiled from.
pub uninterp spec fn pattern_source(pattern: Pattern) -> Seq<char>;

/// Whether `source` is a well-formed glob pattern, as the crate `glob`
/// decides it on the platform that the library is built for (the platforms
/// differ in whether a backslash separates the parts of a path).
pub uninterp spec fn glob_compiles(source: Seq<char>) -> bool;

/// Whether the glob pattern written as `source` matches the whole of `path`,
/// as the crate `glob` decides it with its default match options on the
/// platform that the library is built for.
pub uninterp spec fn glob_matches(source: Seq<char>, path: Seq<char>) -> bool;

/// `Pattern::new` of the crate `glob`: compiles the pattern, or gives nothing
/// where the pattern is malformed. A compiled pattern keeps its source.
#[verifier::external_body]
fn compile_pattern(source: &str) -> (r: Option<Pattern>)
    ensures
        r is Some <==> glob_compiles(source@),
        r matches Some(p) ==> pattern_source(p) == source@,
{
    Pattern::new(source).ok()
}

/// `Pattern::matches` of the crate `glob`: whether the compiled pattern
/// matches the whole of `path`.
#[verifier::external_body]
fn pattern_matches(pattern: &Pattern, path: &str) -> (r: bool)
    ensures
        r == glob_matches(pattern_source(*pattern), path@),
{
    pattern.matches(path)
}

/// The sources of `sources` that compile, in their order.
pub open spec fn compilable(sources: Seq<Seq<char>>) -> Seq<Seq<char>>
    decreases sources.len(),
{
    if sources.len() == 0 {
        Seq::empty()
    } else if glob_compiles(sources.last()) {
        compilable(sources.drop_last()).push(sources.last())
    } else {
        compilable(sources.drop_last())
    }
}

/// The sources of the compiled patterns `patterns`, in their order.
pub open spec fn sources_of(patterns: Seq<Pattern>) -> Seq<Seq<char>> {
    Seq::new(patterns.len(), |i: int| pattern_source(patterns[i]))
}

/// Whether one of the patterns written as `sources` matches `path`.
pub open spec fn any_matches(sources: Seq<Seq<char>>, path: Seq<char>) -> bool {
    exists|i: int| 0 <= i < sources.len() && glob_matches(#[trigger] sources[i], path)
}

/// Compiles the exclude patterns. A pattern that does not compile is dropped
/// and the others still apply.
pub fn compile_patterns(sources: &Vec<String>) -> (patterns: Vec<Pattern>)
    ensures
        sources_of(patterns@) == compilable(sources.deep_view()),
{
    let mut patterns: Vec<Pattern> = Vec::new();
    let mut i: usize = 0;
    while i < sources.len()
        invariant
            i <= sources.len(),
            sources_of(patterns@) == compilable(sources.deep_view().take(i as int)),
        decreases sources.len() - i,
    {
        let ghost before = sources_of(patterns@);
        let compiled = compile_pattern(sources[i].as_str());
        proof {
            let next = sources.deep_view().take(i + 1);
            assert(next.drop_last() =~= sources.deep_view().take(i as int));
            assert(next.last() == sources[i as int]@);
        }
        match compiled {
            Some(p) => {
                patterns.push(p);
                assert(sources_of(patterns@) =~= before.push(sources[i as int]@));
            },
            None => {},
        }
        i = i + 1;
        assert(sources_of(patterns@) =~= compilable(sources.deep_view().take(i as int)));
    }
    assert(sources.deep_view().take(sources.len() as int) =~= sources.deep_view());
    patterns
}

/// Decides whether the file at `file_path` is excluded: whether its path,
/// with forward slashes, matches one of the patterns.
pub fn should_exclude(patterns: &Vec<Pattern>, file_path: &str) -> (r: bool)
    ensures
        r == any_matches(sources_of(patterns@), crate::text::forward_slashes(file_path@)),
{
    let path = normalize_path(file_path);
    let mut i: usize = 0;
    while i < patterns.len()
        invariant
            i <= patterns.len(),
            path@ == crate::text::forward_slashes(file_path@),
            forall|j: int| 0 <= j < i ==> !glob_matches(#[trigger] sources_of(patterns@)[j], path@),
        decreases patterns.len() - i,
    {
        if pattern_matches(&patterns[i], path.as_str()) {
            assert(glob_matches(sources_of(patterns@)[i as int], path@));
            return true;
        }
        i = i + 1;
    }
    false
}

} // verus!
