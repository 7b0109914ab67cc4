//! The selector: user-supplied inclusion and exclusion glob patterns over
//! slash-separated relative paths. A path passes when it matches some
//! inclusion pattern (or none were given) and matches no exclusion pattern.
//! Glob compilation and matching are done by the `globset` crate behind
//! trusted declarations; everything around them is verified.

use vstd::prelude::*;

verus! {

#[verifier::external_type_specification]
#[verifier::external_body]
pub struct ExGlob(globset::Glob);

#[verifier::external_type_specification]
#[verifier::external_body]
pub struct ExGlobSet(globset::GlobSet);

#[verifier::external_type_specification]
#[verifier::external_body]
pub struct ExGlobSetBuilder(globset::GlobSetBuilder);

#[verifier::external_type_specification]
#[verifier::external_body]
pub struct ExGlobError(globset::Error);

/// Whether `globset::Glob::new` accepts the pattern: a function of the
/// pattern text alone.
pub uninterp spec fn glob_ok(pattern: Seq<char>) -> bool;

/// The pattern text a compiled `globset::Glob` holds.
pub uninterp spec fn glob_pattern(g: globset::Glob) -> Seq<char>;

/// The pattern texts a `globset::GlobSetBuilder` holds, in insertion order.
pub uninterp spec fn builder_patterns(b: globset::GlobSetBuilder) -> Seq<Seq<char>>;

/// The pattern texts a built `globset::GlobSet` holds.
pub uninterp spec fn globset_patterns(s: globset::GlobSet) -> Seq<Seq<char>>;

/// Whether a single compiled glob with the given pattern matches the given
/// path bytes: a function of the two texts alone.
pub uninterp spec fn glob_match(pattern: Seq<char>, path: Seq<u8>) -> bool;

/// Whether `globset::GlobSetBuilder::build` succeeds on a builder holding
/// globs with these pattern texts, as `Glob::new` compiles them: the set
/// is assembled from those globs alone, so this is a function of the
/// texts.
pub uninterp spec fn globset_builds(pats: Seq<Seq<char>>) -> bool;

/// Relies on `globset::Glob::new`: it parses the pattern text alone,
/// returning a compiled glob that keeps that text, or a parse error.
#[verifier::external_body]
fn glob_new(pattern: &str) -> (r: Result<globset::Glob, globset::Error>)
    ensures
        r is Ok <==> glob_ok(pattern@),
        r matches Ok(g) ==> glob_pattern(g) == pattern@,
{
    globset::Glob::new(pattern)
}

/// Relies on `globset::GlobSetBuilder::new`: the fresh builder holds no
/// patterns.
#[verifier::external_body]
fn globset_builder_new() -> (r: globset::GlobSetBuilder)
    ensures
        builder_patterns(r) == Seq::<Seq<char>>::empty(),
{
    globset::GlobSetBuilder::new()
}

/// Relies on `globset::GlobSetBuilder::add`: it appends the glob to the
/// builder's patterns.
#[verifier::external_body]
fn globset_builder_add(b: &mut globset::GlobSetBuilder, g: globset::Glob)
    ensures
        builder_patterns(*final(b)) == builder_patterns(*old(b)).push(glob_pattern(g)),
{
    b.add(g);
}

/// Relies on `globset::GlobSetBuilder::build`: it assembles the set from
/// the added globs alone, so whether it succeeds is a function of their
/// pattern texts, and on success the set holds exactly those patterns.
#[verifier::external_body]
fn globset_builder_build(b: &globset::GlobSetBuilder) -> (r: Result<
    globset::GlobSet,
    globset::Error,
>)
    ensures
        r is Ok <==> globset_builds(builder_patterns(*b)),
        r matches Ok(s) ==> globset_patterns(s) == builder_patterns(*b),
{
    b.build()
}

/// Relies on `globset::GlobSet::is_match`: true exactly when some glob of
/// the set matches the path, as a function of the patterns and the path
/// text; a path that is not valid UTF-8 matches nothing.
#[verifier::external_body]
fn globset_is_match(s: &globset::GlobSet, path: &[u8]) -> (r: bool)
    ensures
        r == (exists|i: int|
            0 <= i < globset_patterns(*s).len() && glob_match(
                #[trigger] globset_patterns(*s)[i],
                path@,
            )),
{
    match core::str::from_utf8(path) {
        Ok(p) => s.is_match(p),
        Err(_) => false,
    }
}

/// Which flag a pattern came from, for error reporting.
#[derive(Clone, Copy, Debug, PartialEq, Eq, Structural)]
pub enum PatternFlag {
    Include,
    Exclude,
}

/// Why a selector could not be built: one pattern failed to compile, or
/// the whole set could not be assembled.
#[derive(Debug)]
pub enum SelectorError {
    InvalidPattern { flag: PatternFlag, pattern: String },
    BuildFailed { flag: PatternFlag },
}

/// Whether some pattern of `pats` matches `path`.
pub open spec fn any_glob_matches(pats: Seq<Seq<char>>, path: Seq<u8>) -> bool {
    exists|i: int| 0 <= i < pats.len() && glob_match(#[trigger] pats[i], path)
}

/// Whether every pattern of the list compiles.
pub open spec fn all_globs_ok(pats: Seq<Seq<char>>) -> bool {
    forall|i: int| 0 <= i < pats.len() ==> glob_ok(#[trigger] pats[i])
}

/// The position of the first pattern of the list that does not compile,
/// if any.
pub open spec fn spec_first_bad_pattern(pats: Seq<Seq<char>>) -> Option<int>
    decreases pats.len(),
{
    if pats.len() == 0 {
        None
    } else if !glob_ok(pats[0]) {
        Some(0)
    } else {
        match spec_first_bad_pattern(pats.subrange(1, pats.len() as int)) {
            Some(j) => Some(j + 1),
            None => None,
        }
    }
}

/// What the first-bad position means: everything before it compiles and
/// it does not; its absence means the whole list compiles.
pub proof fn lemma_first_bad_pattern(pats: Seq<Seq<char>>)
    ensures
        match spec_first_bad_pattern(pats) {
            Some(j) => 0 <= j < pats.len() && !glob_ok(pats[j]) && (forall|k: int|
                0 <= k < j ==> glob_ok(#[trigger] pats[k])),
            None => all_globs_ok(pats),
        },
    decreases pats.len(),
{
    if pats.len() > 0 && glob_ok(pats[0]) {
        let tail = pats.subrange(1, pats.len() as int);
        lemma_first_bad_pattern(tail);
        match spec_first_bad_pattern(tail) {
            Some(j) => {
                assert(tail[j] == pats[j + 1]);
                assert forall|k: int| 0 <= k < j + 1 implies glob_ok(#[trigger] pats[k]) by {
                    if k > 0 {
                        assert(glob_ok(tail[k - 1]));
                    }
                }
            },
            None => {
                assert forall|k: int| 0 <= k < pats.len() implies glob_ok(#[trigger] pats[k]) by {
                    if k > 0 {
                        assert(glob_ok(tail[k - 1]));
                    }
                }
            },
        }
    }
}

/// The pattern evaluator. An absent inclusion set means "match
/// everything"; an absent exclusion set means "reject nothing".
pub struct Selector {
    include_set: Option<globset::GlobSet>,
    exclude_set: Option<globset::GlobSet>,
}

impl Selector {
    /// The inclusion patterns, or `None` when every path is included.
    pub closed spec fn include_view(self) -> Option<Seq<Seq<char>>> {
        match self.include_set {
            Some(s) => Some(globset_patterns(s)),
            None => None,
        }
    }

    /// The exclusion patterns, or `None` when no path is excluded.
    pub closed spec fn exclude_view(self) -> Option<Seq<Seq<char>>> {
        match self.exclude_set {
            Some(s) => Some(globset_patterns(s)),
            None => None,
        }
    }

    /// A path is accepted iff it matches the inclusion side and does not
    /// match the exclusion side; the two are decided independently.
    pub open spec fn spec_matches(self, path: Seq<u8>) -> bool {
        let included = match self.include_view() {
            None => true,
            Some(pats) => any_glob_matches(pats, path),
        };
        let not_excluded = match self.exclude_view() {
            None => true,
            Some(pats) => !any_glob_matches(pats, path),
        };
        included && not_excluded
    }

    /// Compiles the two pattern lists, includes first. It succeeds iff
    /// every pattern compiles and each nonempty list builds; the first
    /// pattern that does not compile is reported with its flag. An empty
    /// list compiles to the absent set — "match everything" for includes,
    /// "match nothing" for excludes — never to an accidental "matches
    /// nothing".
    pub fn new(includes: &Vec<String>, excludes: &Vec<String>) -> (r: Result<
        Selector,
        SelectorError,
    >)
        ensures
            r is Ok <==> ({
                let inc = includes@.map_values(|p: String| p@);
                let exc = excludes@.map_values(|p: String| p@);
                &&& all_globs_ok(inc)
                &&& all_globs_ok(exc)
                &&& (inc.len() > 0 ==> globset_builds(inc))
                &&& (exc.len() > 0 ==> globset_builds(exc))
            }),
            ({
                let inc = includes@.map_values(|p: String| p@);
                let exc = excludes@.map_values(|p: String| p@);
                match spec_first_bad_pattern(inc) {
                    Some(j) => r matches Err(SelectorError::InvalidPattern { flag, pattern })
                        && flag == PatternFlag::Include && pattern@ == inc[j],
                    None => if inc.len() > 0 && !globset_builds(inc) {
                        r matches Err(SelectorError::BuildFailed { flag }) && flag
                            == PatternFlag::Include
                    } else {
                        match spec_first_bad_pattern(exc) {
                            Some(j) => r matches Err(
                                SelectorError::InvalidPattern { flag, pattern },
                            ) && flag == PatternFlag::Exclude && pattern@ == exc[j],
                            None => if exc.len() > 0 && !globset_builds(exc) {
                                r matches Err(SelectorError::BuildFailed { flag }) && flag
                                    == PatternFlag::Exclude
                            } else {
                                r matches Ok(sel) && ({
                                    &&& (inc.len() == 0 <==> sel.include_view() is None)
                                    &&& (inc.len() > 0 ==> sel.include_view() == Some(inc))
                                    &&& (exc.len() == 0 <==> sel.exclude_view() is None)
                                    &&& (exc.len() > 0 ==> sel.exclude_view() == Some(exc))
                                })
                            },
                        }
                    },
                }
            }),
    {
        proof {
            lemma_first_bad_pattern(includes@.map_values(|p: String| p@));
            lemma_first_bad_pattern(excludes@.map_values(|p: String| p@));
        }
        let include_set = if includes.len() == 0 {
            None
        } else {
            match build_globset(PatternFlag::Include, includes) {
                Ok(s) => Some(s),
                Err(e) => {
                    return Err(e);
                },
            }
        };
        let exclude_set = if excludes.len() == 0 {
            None
        } else {
            match build_globset(PatternFlag::Exclude, excludes) {
                Ok(s) => Some(s),
                Err(e) => {
                    return Err(e);
                },
            }
        };
        Ok(Selector { include_set, exclude_set })
    }

    /// Whether the selector accepts the slash-separated relative path.
    pub fn matches(&self, rel_path_slash: &[u8]) -> (r: bool)
        ensures
            r == self.spec_matches(rel_path_slash@),
    {
        let included = match &self.include_set {
            None => true,
            Some(s) => globset_is_match(s, rel_path_slash),
        };
        let not_excluded = match &self.exclude_set {
            None => true,
            Some(s) => !globset_is_match(s, rel_path_slash),
        };
        included && not_excluded
    }
}

/// Compiles one flag's pattern list into a glob set. The exact outcome:
/// the first pattern that does not compile is reported with this flag;
/// otherwise the set is built from all of them, or the build failure is
/// reported with this flag.
fn build_globset(flag: PatternFlag, patterns: &Vec<String>) -> (r: Result<
    globset::GlobSet,
    SelectorError,
>)
    ensures
        ({
            let pats = patterns@.map_values(|p: String| p@);
            match spec_first_bad_pattern(pats) {
                Some(j) => r matches Err(SelectorError::InvalidPattern { flag: f, pattern })
                    && f == flag && pattern@ == pats[j],
                None => if globset_builds(pats) {
                    r matches Ok(s) && globset_patterns(s) == pats
                } else {
                    r matches Err(SelectorError::BuildFailed { flag: f }) && f == flag
                },
            }
        }),
{
    let ghost pats = patterns@.map_values(|p: String| p@);
    let mut b = globset_builder_new();
    let mut i: usize = 0;
    while i < patterns.len()
        invariant
            i <= patterns@.len(),
            pats == patterns@.map_values(|p: String| p@),
            builder_patterns(b) == pats.take(i as int),
            forall|k: int| 0 <= k < i ==> glob_ok(#[trigger] pats[k]),
        decreases patterns@.len() - i,
    {
        match glob_new(patterns[i].as_str()) {
            Ok(g) => {
                globset_builder_add(&mut b, g);
                proof {
                    assert(builder_patterns(b) =~= pats.take(i + 1));
                }
            },
            Err(_) => {
                proof {
                    lemma_first_bad_pattern(pats);
                    match spec_first_bad_pattern(pats) {
                        Some(j) => {
                            if j < i as int {
                                assert(glob_ok(pats[j]));
                                assert(false);
                            }
                            if j > i as int {
                                assert(glob_ok(pats[i as int]));
                                assert(false);
                            }
                        },
                        None => {
                            assert(glob_ok(pats[i as int]));
                            assert(false);
                        },
                    }
                }
                return Err(SelectorError::InvalidPattern {
                    flag,
                    pattern: patterns[i].clone(),
                });
            },
        }
        i += 1;
    }
    proof {
        assert(pats.take(patterns@.len() as int) =~= pats);
        lemma_first_bad_pattern(pats);
        match spec_first_bad_pattern(pats) {
            Some(j) => {
                assert(glob_ok(pats[j]));
                assert(false);
            },
            None => {},
        }
    }
    match globset_builder_build(&b) {
        Ok(s) => Ok(s),
        Err(_) => Err(SelectorError::BuildFailed { flag }),
    }
}

/// An exclusion pattern always wins: a path that matches any exclusion
/// pattern is rejected, even when an inclusion pattern matches it too.
pub proof fn lemma_exclude_overrides_include(sel: Selector, path: Seq<u8>)
    requires
        sel.exclude_view() matches Some(pats) && any_glob_matches(pats, path),
    ensures
        !sel.spec_matches(path),
{
}

} // verus!
