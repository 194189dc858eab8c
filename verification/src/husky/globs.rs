//! Glob matching through the `globset` crate.
//!
//! Globs are built with globset's default options. One of them, whether a
//! backslash escapes the next character, is fixed by the compiled target (it
//! does not where a backslash separates paths), so the names below are fixed
//! within one program and may differ between targets.
use vstd::prelude::*;

verus! {

/// A glob pattern of the `globset` crate.
#[verifier::external_type_specification]
#[verifier::external_body]
pub struct ExGlob(globset::Glob);

/// A set of globs of the `globset` crate, matched together.
#[verifier::external_type_specification]
#[verifier::external_body]
pub struct ExGlobSet(globset::GlobSet);

/// The builder of a set of globs of the `globset` crate.
#[verifier::external_type_specification]
#[verifier::external_body]
pub struct ExGlobSetBuilder(globset::GlobSetBuilder);

/// Whether `globset::Glob::new` accepts `pattern` (with the default options).
pub uninterp spec fn glob_parses(pattern: Seq<char>) -> bool;

/// The pattern that a `globset::Glob` was built from (what `Glob::glob` returns).
pub uninterp spec fn glob_pattern(glob: globset::Glob) -> Seq<char>;

/// The patterns of the globs added to a `globset::GlobSetBuilder`, in order.
pub uninterp spec fn builder_patterns(builder: globset::GlobSetBuilder) -> Seq<Seq<char>>;

/// The patterns of the globs that a `globset::GlobSet` was built from, in order.
pub uninterp spec fn glob_set_patterns(set: globset::GlobSet) -> Seq<Seq<char>>;

/// Whether `GlobSetBuilder::build` succeeds on globs built from `patterns`.
pub uninterp spec fn glob_set_builds(patterns: Seq<Seq<char>>) -> bool;

/// Whether a `globset::GlobSet` built from `patterns` matches `path`.
pub uninterp spec fn glob_set_matches(patterns: Seq<Seq<char>>, path: Seq<char>) -> bool;

/// Calls `globset::Glob::new`: it succeeds exactly on the patterns that parse,
/// and the glob it returns keeps the pattern it was built from.
/// What the error holds is left unsaid.
#[verifier::external_body]
pub(crate) fn glob_new(pattern: &str) -> (res: Result<globset::Glob, globset::Error>)
    ensures
        res is Ok <==> glob_parses(pattern@),
        res matches Ok(g) ==> glob_pattern(g) == pattern@,
{
    globset::Glob::new(pattern)
}

/// Calls `globset::GlobSetBuilder::new`, which starts with no globs.
#[verifier::external_body]
pub(crate) fn glob_set_builder_new() -> (res: globset::GlobSetBuilder)
    ensures
        builder_patterns(res) == Seq::<Seq<char>>::empty(),
{
    globset::GlobSetBuilder::new()
}

/// Calls `globset::GlobSetBuilder::add`, which pushes the glob at the end of the builder's list.
#[verifier::external_body]
pub(crate) fn glob_set_builder_add(builder: &mut globset::GlobSetBuilder, glob: globset::Glob)
    ensures
        builder_patterns(*final(builder)) == builder_patterns(*old(builder)).push(glob_pattern(glob)),
{
    builder.add(glob);
}

/// Calls `globset::GlobSetBuilder::build`. Whether it succeeds depends on the
/// patterns alone, and a builder with no globs always builds (the empty set);
/// the set keeps the builder's globs.
#[verifier::external_body]
pub(crate) fn glob_set_builder_build(builder: &globset::GlobSetBuilder) -> (res: Result<
    globset::GlobSet,
    globset::Error,
>)
    ensures
        res is Ok <==> glob_set_builds(builder_patterns(*builder)),
        builder_patterns(*builder).len() == 0 ==> res is Ok,
        res matches Ok(s) ==> glob_set_patterns(s) == builder_patterns(*builder),
{
    builder.build()
}

/// Calls `globset::GlobSet::is_match`, which, as its documentation says,
/// returns true exactly when some glob of the set matches the path.
/// How one glob matches a path is left unsaid.
#[verifier::external_body]
pub(crate) fn glob_set_is_match(set: &globset::GlobSet, path: &str) -> (res: bool)
    ensures
        res == glob_set_matches(glob_set_patterns(*set), path@),
        res == (exists|i: int|
            0 <= i < glob_set_patterns(*set).len() && glob_set_matches(
                seq![#[trigger] glob_set_patterns(*set)[i]],
                path@,
            )),
{
    set.is_match(path)
}

} // verus!
