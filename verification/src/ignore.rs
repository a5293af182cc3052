//! The ignore filter: a fixed, compiled set of glob patterns, and the
//! predicate that drops a notification when any of its paths matches any
//! pattern. The glob compilation and matching come from the `globset` crate
//! behind trusted items; which pattern set a filter holds, and that a match
//! consults every pattern, is verified here.

use vstd::prelude::*;

verus! {

#[verifier::external_type_specification]
#[verifier::external_body]
pub struct ExGlob(globset::Glob);

#[verifier::external_type_specification]
#[verifier::external_body]
pub struct ExGlobSet(globset::GlobSet);

#[verifier::external_type_specification]
#[verifier::external_body]
pub struct ExGlobSetBuilder(globset::GlobSetBuilder);

/// The pattern text that a compiled glob was parsed from.
pub uninterp spec fn glob_pattern(g: globset::Glob) -> Seq<char>;

/// The pattern texts that a compiled glob set was built from, in the order
/// they were added.
pub uninterp spec fn glob_set_patterns(s: globset::GlobSet) -> Seq<Seq<char>>;

/// The pattern texts added to a glob set builder so far.
pub uninterp spec fn builder_patterns(b: globset::GlobSetBuilder) -> Seq<Seq<char>>;

/// Whether the glob `pattern` matches `path`, as `globset` decides it: on
/// any one platform, a function of the two strings alone. (The engine's
/// escaping and path normalization defaults differ per platform, so the
/// relation is per platform, fixed within a build.)
pub uninterp spec fn glob_match(pattern: Seq<char>, path: Seq<char>) -> bool;

/// Whether `pattern` is valid glob syntax: whether compiling it succeeds,
/// a function of the pattern text alone on any one platform.
pub uninterp spec fn glob_ok(pattern: Seq<char>) -> bool;

/// Whether the patterns, in order, compile together into one matcher: a
/// function of the pattern texts alone on any one platform.
pub uninterp spec fn set_ok(patterns: Seq<Seq<char>>) -> bool;

/// Relies on globset::Glob::new: parses a pattern into a compiled glob,
/// failing exactly on invalid glob syntax.
#[verifier::external_body]
fn glob_new(pattern: &str) -> (r: Option<globset::Glob>)
    ensures
        r is Some <==> glob_ok(pattern@),
        r matches Some(g) ==> glob_pattern(g) == pattern@,
{
    globset::Glob::new(pattern).ok()
}

/// Relies on globset::GlobSetBuilder::new: starts with no patterns.
#[verifier::external_body]
fn glob_builder_new() -> (r: globset::GlobSetBuilder)
    ensures
        builder_patterns(r) == Seq::<Seq<char>>::empty(),
{
    globset::GlobSetBuilder::new()
}

/// Relies on globset::GlobSetBuilder::add: appends one compiled glob to the
/// patterns the builder holds.
#[verifier::external_body]
fn glob_builder_add(b: &mut globset::GlobSetBuilder, g: globset::Glob)
    ensures
        builder_patterns(*final(b)) == builder_patterns(*old(b)).push(glob_pattern(g)),
{
    b.add(g);
}

/// Relies on globset::GlobSetBuilder::build: compiles all patterns added so
/// far into one matcher; whether that succeeds depends on those patterns
/// alone.
#[verifier::external_body]
fn glob_builder_build(b: &globset::GlobSetBuilder) -> (r: Option<globset::GlobSet>)
    ensures
        r is Some <==> set_ok(builder_patterns(*b)),
        r matches Some(s) ==> glob_set_patterns(s) == builder_patterns(*b),
{
    b.build().ok()
}

/// Relies on globset::GlobSet::is_match: true exactly when some glob in the
/// set matches the path.
#[verifier::external_body]
fn glob_set_is_match(s: &globset::GlobSet, path: &str) -> (r: bool)
    ensures
        r == (exists|i: int| 0 <= i < glob_set_patterns(*s).len() && glob_match(glob_set_patterns(*s)[i], path@)),
{
    s.is_match(path)
}

/// Whether any pattern of `patterns` matches `path`.
pub open spec fn path_ignored(patterns: Seq<Seq<char>>, path: Seq<char>) -> bool {
    exists|i: int| 0 <= i < patterns.len() && glob_match(patterns[i], path)
}

/// Whether any of `paths` is matched by any pattern of `patterns`. A
/// notification with such a path is dropped whole: no partial processing of
/// a two-path notification.
pub open spec fn any_ignored(patterns: Seq<Seq<char>>, paths: Seq<Seq<char>>) -> bool {
    exists|j: int| 0 <= j < paths.len() && path_ignored(patterns, paths[j])
}

/// The default ignore set: version-control directories, dependency and
/// build directories, log files, and VCS ignore files.
pub open spec fn default_ignore_patterns() -> Seq<Seq<char>> {
    seq![
        "**/.git/**"@,
        "**/node_modules/**"@,
        "**/target/**"@,
        "**/*.log"@,
        "**/.gitignore"@,
    ]
}

/// A compiled, immutable set of ignore patterns.
pub struct IgnoreFilter {
    set: globset::GlobSet,
}

impl IgnoreFilter {
    /// The pattern texts this filter was built from.
    pub closed spec fn patterns(&self) -> Seq<Seq<char>> {
        glob_set_patterns(self.set)
    }

    /// Compile `patterns` into a filter: it succeeds exactly when every
    /// pattern is valid glob syntax and the set of them compiles into one
    /// matcher.
    pub fn new(patterns: &Vec<String>) -> (r: Option<IgnoreFilter>)
        ensures
            r is Some <==> (forall|k: int|
                0 <= k < patterns.deep_view().len() ==> glob_ok(patterns.deep_view()[k]))
                && set_ok(patterns.deep_view()),
            r matches Some(f) ==> f.patterns() == patterns.deep_view(),
    {
        let mut b = glob_builder_new();
        let mut i: usize = 0;
        while i < patterns.len()
            invariant
                i <= patterns@.len(),
                builder_patterns(b) == patterns.deep_view().take(i as int),
                forall|k: int| 0 <= k < i ==> glob_ok(patterns.deep_view()[k]),
            decreases patterns@.len() - i,
        {
            let g = match glob_new(patterns[i].as_str()) {
                Some(g) => g,
                None => {
                    proof {
                        assert(patterns.deep_view()[i as int] == patterns@[i as int]@);
                        assert(!glob_ok(patterns.deep_view()[i as int]));
                    }
                    return None;
                }
            };
            proof {
                assert(patterns.deep_view()[i as int] == patterns@[i as int]@);
            }
            glob_builder_add(&mut b, g);
            proof {
                assert(builder_patterns(b) =~= patterns.deep_view().take(i + 1));
            }
            i = i + 1;
        }
        proof {
            assert(builder_patterns(b) =~= patterns.deep_view());
        }
        match glob_builder_build(&b) {
            Some(s) => Some(IgnoreFilter { set: s }),
            None => None,
        }
    }

    /// Whether `path` matches any pattern of this filter.
    pub fn is_match(&self, path: &str) -> (r: bool)
        ensures
            r == path_ignored(self.patterns(), path@),
    {
        glob_set_is_match(&self.set, path)
    }

    /// Whether any of `paths` matches any pattern of this filter.
    pub fn matches_any(&self, paths: &Vec<String>) -> (r: bool)
        ensures
            r == any_ignored(self.patterns(), paths.deep_view()),
    {
        let mut j: usize = 0;
        while j < paths.len()
            invariant
                j <= paths@.len(),
                forall|k: int| 0 <= k < j ==> !path_ignored(self.patterns(), paths.deep_view()[k]),
            decreases paths@.len() - j,
        {
            if self.is_match(paths[j].as_str()) {
                proof {
                    assert(path_ignored(self.patterns(), paths.deep_view()[j as int]));
                }
                return true;
            }
            j = j + 1;
        }
        false
    }
}

/// Build the default ignore filter: it succeeds exactly when the glob
/// engine accepts the five default patterns, which are valid glob syntax.
pub fn build_ignore_list() -> (r: Option<IgnoreFilter>)
    ensures
        r is Some <==> (forall|k: int|
            0 <= k < default_ignore_patterns().len() ==> glob_ok(default_ignore_patterns()[k]))
            && set_ok(default_ignore_patterns()),
        r matches Some(f) ==> f.patterns() == default_ignore_patterns(),
{
    let mut patterns: Vec<String> = Vec::new();
    patterns.push("**/.git/**".to_owned());
    patterns.push("**/node_modules/**".to_owned());
    patterns.push("**/target/**".to_owned());
    patterns.push("**/*.log".to_owned());
    patterns.push("**/.gitignore".to_owned());
    proof {
        assert(patterns.deep_view() =~= default_ignore_patterns());
    }
    IgnoreFilter::new(&patterns)
}

} // verus!
