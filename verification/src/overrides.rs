//! Turning the include patterns of a run into the matcher that traversal uses.

use vstd::prelude::*;
use ignore::overrides::{Override, OverrideBuilder};
use crate::options::{texts, RunError, RunErrorView};

verus! {

#[verifier::external_type_specification]
#[verifier::external_body]
pub struct ExOverride(ignore::overrides::Override);

#[verifier::external_type_specification]
#[verifier::external_body]
pub struct ExOverrideBuilder(ignore::overrides::OverrideBuilder);

/// What `OverrideBuilder::add` makes of `pattern`: the glob it keeps, as
/// the text it is kept under; nothing, for a comment or a blank line; or
/// the refusal, as it reads when displayed.
pub uninterp spec fn override_added(pattern: Seq<char>) -> Result<Option<Seq<char>>, Seq<char>>;

/// The directory that `OverrideBuilder::new` matches relative to when it is
/// given `root`.
pub uninterp spec fn root_kept(root: Seq<char>) -> Seq<char>;

/// Why `OverrideBuilder::build` cannot combine `globs`, as the failure
/// reads when displayed; `None` when it can.
pub uninterp spec fn combine_failure(globs: Seq<Seq<char>>) -> Option<Seq<char>>;

/// The globs a builder holds, oldest first.
pub uninterp spec fn builder_globs(builder: OverrideBuilder) -> Seq<Seq<char>>;

/// The directory a builder matches relative to.
pub uninterp spec fn builder_root(builder: OverrideBuilder) -> Seq<char>;

/// The globs a matcher holds, oldest first.
pub uninterp spec fn matcher_globs(matcher: Override) -> Seq<Seq<char>>;

/// The directory a matcher matches relative to.
pub uninterp spec fn matcher_root(matcher: Override) -> Seq<char>;

/// Starts a set of overrides with `OverrideBuilder::new`. The builder holds
/// no glob yet and matches relative to what it keeps of `root`.
#[verifier::external_body]
fn new_builder(root: &str) -> (builder: OverrideBuilder)
    ensures
        builder_globs(builder) == Seq::<Seq<char>>::empty(),
        builder_root(builder) == root_kept(root@),
{
    OverrideBuilder::new(root)
}

/// Adds one pattern with `OverrideBuilder::add`. What a builder from
/// `new_builder` makes of a pattern is taken to depend on the pattern
/// alone. A kept glob goes behind those the builder holds; a comment, a
/// blank line or a refused pattern leaves the builder as it was.
#[verifier::external_body]
fn add_pattern(builder: &mut OverrideBuilder, pattern: &str) -> (added: Result<(), String>)
    ensures
        match added {
            Ok(()) => match override_added(pattern@) {
                Ok(Some(glob)) => builder_globs(*final(builder)) == builder_globs(
                    *old(builder),
                ).push(glob),
                Ok(None) => builder_globs(*final(builder)) == builder_globs(*old(builder)),
                Err(_) => false,
            },
            Err(reason) => override_added(pattern@) == Err::<Option<Seq<char>>, Seq<char>>(
                reason@,
            ) && builder_globs(*final(builder)) == builder_globs(*old(builder)),
        },
        builder_root(*final(builder)) == builder_root(*old(builder)),
{
    match builder.add(pattern) {
        Ok(_) => Ok(()),
        Err(error) => Err(error.to_string()),
    }
}

/// Combines the globs a builder holds with `OverrideBuilder::build`.
/// Whether that succeeds is taken to depend on the globs alone. The matcher
/// holds the builder's globs and matches relative to the builder's root; a
/// failure is handed back as its displayed text.
#[verifier::external_body]
fn finish(builder: &OverrideBuilder) -> (built: Result<Override, String>)
    ensures
        match built {
            Ok(matcher) => combine_failure(builder_globs(*builder)) is None && matcher_globs(
                matcher,
            ) == builder_globs(*builder) && matcher_root(matcher) == builder_root(*builder),
            Err(reason) => combine_failure(builder_globs(*builder)) == Some(reason@),
        },
{
    match builder.build() {
        Ok(overrides) => Ok(overrides),
        Err(error) => Err(error.to_string()),
    }
}

/// Every pattern before position `end` is accepted.
pub open spec fn accepted_before(patterns: Seq<Seq<char>>, end: int) -> bool {
    forall|j: int| 0 <= j < end ==> override_added(#[trigger] patterns[j]) is Ok
}

/// The globs kept of the patterns before position `end`, in their order.
/// Comments and blank lines leave nothing behind.
pub open spec fn kept_before(patterns: Seq<Seq<char>>, end: int) -> Seq<Seq<char>>
    decreases end,
{
    if end <= 0 {
        Seq::empty()
    } else {
        let before = kept_before(patterns, end - 1);
        match override_added(patterns[end - 1]) {
            Ok(Some(glob)) => before.push(glob),
            _ => before,
        }
    }
}

/// Whether `error` is the end of a build from `patterns`: the first pattern
/// that is refused, with its refusal, or, when every pattern is accepted,
/// the reason the kept globs cannot be combined.
pub open spec fn refuses(patterns: Seq<Seq<char>>, error: RunErrorView) -> bool {
    match error {
        RunErrorView::NoFiles | RunErrorView::Setup { .. } => false,
        RunErrorView::BadGlob { pattern, reason } => exists|i: int|
            0 <= i < patterns.len() && accepted_before(patterns, i) && pattern
                == #[trigger] patterns[i] && override_added(pattern) == Err::<
                Option<Seq<char>>,
                Seq<char>,
            >(reason),
        RunErrorView::Overrides { reason } => accepted_before(patterns, patterns.len() as int)
            && combine_failure(kept_before(patterns, patterns.len() as int)) == Some(reason),
    }
}

/// Whether `matcher` is what `patterns` build relative to `root`: it holds
/// the globs kept of the patterns, in their order, and matches relative to
/// what is kept of `root`.
pub open spec fn built_from(matcher: Override, root: Seq<char>, patterns: Seq<Seq<char>>) -> bool {
    &&& matcher_globs(matcher) == kept_before(patterns, patterns.len() as int)
    &&& matcher_root(matcher) == root_kept(root)
}

/// Whether a build from `patterns` succeeds: every pattern is accepted and
/// the kept globs can be combined.
pub open spec fn buildable(patterns: Seq<Seq<char>>) -> bool {
    &&& accepted_before(patterns, patterns.len() as int)
    &&& combine_failure(kept_before(patterns, patterns.len() as int)) is None
}

/// Builds the override matcher for `patterns`, relative to `root`.
///
/// The patterns are added in order. The first one that is refused ends the
/// build with `BadGlob`, naming that pattern and the reason. When all are
/// accepted, the result is the matcher that holds the kept globs, or
/// `Overrides` with the reason they cannot be combined.
pub fn build_overrides(root: &str, patterns: &Vec<String>) -> (result: Result<Override, RunError>)
    ensures
        result is Ok <==> buildable(texts(patterns@)),
        match result {
            Ok(matcher) => built_from(matcher, root@, texts(patterns@)),
            Err(error) => refuses(texts(patterns@), error@),
        },
{
    let mut builder = new_builder(root);
    let mut i: usize = 0;
    while i < patterns.len()
        invariant
            i <= patterns.len(),
            accepted_before(texts(patterns@), i as int),
            builder_globs(builder) == kept_before(texts(patterns@), i as int),
            builder_root(builder) == root_kept(root@),
        decreases patterns.len() - i,
    {
        assert(texts(patterns@)[i as int] == patterns@[i as int]@);
        match add_pattern(&mut builder, patterns[i].as_str()) {
            Ok(()) => {},
            Err(reason) => {
                return Err(RunError::BadGlob { pattern: patterns[i].clone(), reason });
            },
        }
        i += 1;
    }
    match finish(&builder) {
        Ok(matcher) => Ok(matcher),
        Err(reason) => Err(RunError::Overrides { reason }),
    }
}

} // verus!
