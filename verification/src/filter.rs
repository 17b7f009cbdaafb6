//! Which discovered paths survive when no include pattern was given.
//!
//! A path that was named as a root is always kept. Any other path is kept
//! only if it matches the default pattern. When include patterns were given
//! they alone decide, during traversal, and nothing is dropped here.

use vstd::prelude::*;
use crate::options::texts;

verus! {

/// The pattern that discovered paths are held to by default: any file with
/// the expected extension, at any depth.
pub open spec fn default_pattern() -> Seq<char> {
    "**/*.lua"@
}

/// The default pattern.
pub fn default_glob() -> (pattern: &'static str)
    ensures
        pattern@ == default_pattern(),
{
    "**/*.lua"
}

/// The extension that the default pattern asks for.
pub open spec fn default_extension() -> Seq<char> {
    ".lua"@
}

/// Whether `path` ends in the default extension. What stands before the
/// extension, separators included, does not matter.
pub open spec fn has_default_extension(path: Seq<char>) -> bool {
    default_extension().is_suffix_of(path)
}

/// Whether `std::path::Path` holds the two texts to be the same path.
pub uninterp spec fn same_path(a: Seq<char>, b: Seq<char>) -> bool;

/// Compiles `pattern` with `globset::Glob::new` and `Glob::compile_matcher`
/// and asks `GlobMatcher::is_match` about `path`. Only the default pattern is
/// admitted: it parses, and its matcher compiles. In that pattern the
/// leading `**/` stands for any directories or none and `*` for any
/// characters, separators among them, so it matches exactly the paths that
/// end in the default extension.
#[verifier::external_body]
fn glob_is_match(pattern: &str, path: &str) -> (matched: bool)
    requires
        pattern@ == default_pattern(),
    ensures
        matched == has_default_extension(path@),
{
    globset::Glob::new(pattern).expect("cannot create default glob").compile_matcher().is_match(path)
}

/// Compares two texts as paths, with `==` on `std::path::Path`. The answer
/// is taken to depend on the two texts alone, and equal texts are the same
/// path.
#[verifier::external_body]
fn paths_equal(a: &str, b: &str) -> (same: bool)
    ensures
        same == same_path(a@, b@),
        a@ == b@ ==> same,
{
    std::path::Path::new(a) == std::path::Path::new(b)
}

/// Whether `path` is, as a path, one of `roots`.
pub open spec fn named_among(roots: Seq<Seq<char>>, path: Seq<char>) -> bool {
    exists|i: int| 0 <= i < roots.len() && same_path(path, #[trigger] roots[i])
}

/// The decision for a regular file: kept when include patterns were given,
/// when it was named as a root, or when it matches the default pattern.
pub open spec fn kept(default_glob_in_use: bool, named: bool, matches_default: bool) -> bool {
    !default_glob_in_use || named || matches_default
}

/// Whether the file at `path` survives, given the roots and whether the
/// default pattern is in use.
pub open spec fn survives(roots: Seq<Seq<char>>, default_glob_in_use: bool, path: Seq<char>) -> bool {
    kept(default_glob_in_use, named_among(roots, path), has_default_extension(path))
}

/// Whether `path` was named as a root.
pub fn is_named_root(roots: &Vec<String>, path: &str) -> (named: bool)
    ensures
        named == named_among(texts(roots@), path@),
        texts(roots@).contains(path@) ==> named,
{
    let mut i: usize = 0;
    while i < roots.len()
        invariant
            i <= roots.len(),
            forall|j: int| 0 <= j < i ==> !same_path(path@, #[trigger] texts(roots@)[j]),
            forall|j: int| 0 <= j < i ==> #[trigger] texts(roots@)[j] != path@,
        decreases roots.len() - i,
    {
        if paths_equal(path, roots[i].as_str()) {
            assert(same_path(path@, texts(roots@)[i as int]));
            return true;
        }
        i += 1;
    }
    false
}

/// Whether `path` matches the default pattern.
pub fn matches_default_glob(path: &str) -> (matched: bool)
    ensures
        matched == has_default_extension(path@),
{
    glob_is_match(default_glob(), path)
}

/// The decision table of the filter, on its three inputs.
pub fn keep_path(default_glob_in_use: bool, named: bool, matches_default: bool) -> (keep: bool)
    ensures
        keep == kept(default_glob_in_use, named, matches_default),
{
    !default_glob_in_use || named || matches_default
}

/// Whether the regular file at `path` is to be formatted.
pub fn survives_filter(roots: &Vec<String>, default_glob_in_use: bool, path: &str) -> (keep: bool)
    ensures
        keep == survives(texts(roots@), default_glob_in_use, path@),
        texts(roots@).contains(path@) ==> keep,
{
    let named = default_glob_in_use && is_named_root(roots, path);
    let matches_default = default_glob_in_use && !named && matches_default_glob(path);
    keep_path(default_glob_in_use, named, matches_default)
}

/// A path named as a root is kept whatever its extension, and a path that
/// was not named is kept only if include patterns were given or it matches
/// the default pattern.
pub proof fn lemma_filter_spares_named_roots(
    roots: Seq<Seq<char>>,
    default_glob_in_use: bool,
    path: Seq<char>,
)
    ensures
        named_among(roots, path) ==> survives(roots, default_glob_in_use, path),
        !named_among(roots, path) && survives(roots, default_glob_in_use, path)
            ==> !default_glob_in_use || has_default_extension(path),
        !default_glob_in_use ==> survives(roots, default_glob_in_use, path),
{
}

} // verus!
