//! Exclusion of paths by gitignore-style glob patterns, through the
//! `ignore` crate. The compiled matcher is opaque; its verdict is named,
//! as a function of the pattern lines and the queried path, and the
//! filter's answers are stated over that name.

use vstd::prelude::*;
use ignore::gitignore::{Gitignore, GitignoreBuilder};
use crate::discovery::seg_views;

verus! {

#[verifier::external_type_specification]
#[verifier::external_body]
pub struct ExGitignore(Gitignore);

#[verifier::external_type_specification]
#[verifier::external_body]
pub struct ExGitignoreBuilder(GitignoreBuilder);

#[verifier::external_type_specification]
#[verifier::external_body]
pub struct ExIgnoreError(ignore::Error);

/// What a matcher says about one path.
#[derive(Debug, Clone, Copy, PartialEq, Eq, Structural)]
pub enum MatchVerdict {
    /// No pattern matched.
    NotMatched,
    /// A pattern matched: the path is excluded.
    Ignored,
    /// A whitelist pattern (`!`) matched: the path is kept.
    Whitelisted,
}

/// The glob lines a matcher builder has taken so far.
pub uninterp spec fn builder_lines(b: GitignoreBuilder) -> Seq<Seq<char>>;

/// The glob lines a compiled matcher was built from.
pub uninterp spec fn gitignore_lines(g: Gitignore) -> Seq<Seq<char>>;

/// The verdict that gitignore glob semantics, rooted at the empty path,
/// give for `path` under the pattern `lines`, matched as a directory when
/// `is_dir` holds and as a file otherwise.
pub uninterp spec fn ignore_verdict(lines: Seq<Seq<char>>, path: Seq<char>, is_dir: bool) -> MatchVerdict;

/// Whether one glob line is taken without complaint: a function of the
/// line alone under the builder's fixed flags (case folding off, unclosed
/// character classes tolerated).
pub uninterp spec fn glob_line_ok(line: Seq<char>) -> bool;

/// Relies on ignore::gitignore::GitignoreBuilder::new, rooted at the
/// empty path: a builder with no lines yet.
#[verifier::external_body]
fn gitignore_builder_new() -> (r: GitignoreBuilder)
    ensures
        builder_lines(r) == Seq::<Seq<char>>::empty(),
{
    GitignoreBuilder::new("")
}

/// Relies on ignore::gitignore::GitignoreBuilder::add_line: takes one
/// glob line, failing exactly when the line does not parse as a glob
/// under the builder's fixed flags.
#[verifier::external_body]
fn gitignore_builder_add_line(b: &mut GitignoreBuilder, line: &str) -> (r: Result<
    (),
    ignore::Error,
>)
    ensures
        r is Ok <==> glob_line_ok(line@),
        r is Ok ==> builder_lines(*final(b)) == builder_lines(*old(b)).push(line@),
{
    b.add_line(None, line).map(|_| ())
}

/// Relies on ignore::gitignore::GitignoreBuilder::build: compiles the
/// lines taken so far into a matcher.
#[verifier::external_body]
fn gitignore_builder_build(b: &GitignoreBuilder) -> (r: Result<Gitignore, ignore::Error>)
    ensures
        r matches Ok(g) ==> gitignore_lines(g) == builder_lines(*b),
{
    b.build()
}

/// Relies on ignore::gitignore::Gitignore::matched: the verdict for
/// `path`, matched as a file. The verdict is a function of the compiled
/// lines and the path alone.
#[verifier::external_body]
fn gitignore_matched_file(g: &Gitignore, path: &str) -> (r: MatchVerdict)
    ensures
        r == ignore_verdict(gitignore_lines(*g), path@, false),
{
    match g.matched(path, false) {
        ignore::Match::None => MatchVerdict::NotMatched,
        ignore::Match::Ignore(_) => MatchVerdict::Ignored,
        ignore::Match::Whitelist(_) => MatchVerdict::Whitelisted,
    }
}

/// Decides which paths a scan leaves out, by gitignore-style patterns.
/// An empty filter excludes nothing. Paths are matched as files: a
/// directory-only pattern (one ending in `/`) excludes nothing here.
#[derive(Debug)]
pub struct ExcludeFilter {
    patterns: Vec<String>,
    gitignore: Option<Gitignore>,
}

impl ExcludeFilter {
    /// The patterns this filter was built from.
    pub closed spec fn patterns_view(&self) -> Seq<Seq<char>> {
        seg_views(self.patterns@)
    }

    /// The compiled matcher, when there is one, was built from exactly
    /// these patterns; there is none exactly when there are no patterns.
    pub closed spec fn wf(&self) -> bool {
        match self.gitignore {
            Some(g) => gitignore_lines(g) == self.patterns_view() && self.patterns@.len() > 0,
            None => self.patterns@.len() == 0,
        }
    }

    /// A filter that excludes nothing.
    pub fn new() -> (r: Self)
        ensures
            r.wf(),
            r.patterns_view() == Seq::<Seq<char>>::empty(),
    {
        let r = ExcludeFilter { patterns: Vec::new(), gitignore: None };
        proof {
            assert(r.patterns_view() =~= Seq::<Seq<char>>::empty());
        }
        r
    }

    /// A filter for the given patterns; fails when one of them is not a
    /// valid glob (and possibly when the compiled set is degenerate).
    pub fn from_patterns(patterns: &Vec<String>) -> (r: Result<Self, ignore::Error>)
        ensures
            r matches Ok(f) ==> f.wf() && f.patterns_view() == seg_views(patterns@) && (forall|
                j: int,
            | 0 <= j < patterns@.len() ==> #[trigger] glob_line_ok(patterns@[j]@)),
            (exists|j: int|
                0 <= j < patterns@.len() && !(#[trigger] glob_line_ok(patterns@[j]@))) ==> r
                is Err,
    {
        if patterns.len() == 0 {
            proof {
                assert(seg_views(patterns@) =~= Seq::<Seq<char>>::empty());
            }
            return Ok(Self::new());
        }
        let mut builder = gitignore_builder_new();
        proof {
            assert(seg_views(patterns@).take(0) =~= Seq::<Seq<char>>::empty());
        }
        let mut i: usize = 0;
        while i < patterns.len()
            invariant
                i <= patterns@.len(),
                builder_lines(builder) == seg_views(patterns@).take(i as int),
                forall|t: int| 0 <= t < i ==> #[trigger] glob_line_ok(patterns@[t]@),
            decreases patterns@.len() - i,
        {
            proof {
                assert(seg_views(patterns@).take(i + 1).drop_last() =~= seg_views(
                    patterns@,
                ).take(i as int));
                assert(seg_views(patterns@).take(i + 1).last() == patterns@[i as int]@);
            }
            match gitignore_builder_add_line(&mut builder, patterns[i].as_str()) {
                Ok(()) => {},
                Err(e) => {
                    return Err(e);
                },
            }
            proof {
                assert(builder_lines(builder) =~= seg_views(patterns@).take(i + 1));
            }
            i += 1;
        }
        proof {
            assert(seg_views(patterns@).take(patterns@.len() as int) =~= seg_views(patterns@));
        }
        let gitignore = match gitignore_builder_build(&builder) {
            Ok(g) => g,
            Err(e) => {
                return Err(e);
            },
        };
        let mut kept: Vec<String> = Vec::new();
        let mut j: usize = 0;
        while j < patterns.len()
            invariant
                j <= patterns@.len(),
                kept@.len() == j,
                forall|t: int| 0 <= t < j ==> kept@[t]@ == patterns@[t]@,
            decreases patterns@.len() - j,
        {
            kept.push(patterns[j].clone());
            j += 1;
        }
        let f = ExcludeFilter { patterns: kept, gitignore: Some(gitignore) };
        proof {
            assert(f.patterns_view() =~= seg_views(patterns@));
        }
        Ok(f)
    }

    /// Whether the filter excludes `path`, matched as a file: some
    /// pattern gives the ignore verdict for it.
    pub fn is_excluded(&self, path: &str) -> (r: bool)
        requires
            self.wf(),
        ensures
            r == (self.patterns_view().len() > 0 && ignore_verdict(
                self.patterns_view(),
                path@,
                false,
            ) is Ignored),
    {
        match &self.gitignore {
            Some(g) => {
                let v = gitignore_matched_file(g, path);
                match v {
                    MatchVerdict::Ignored => true,
                    _ => false,
                }
            },
            None => false,
        }
    }

    /// One filter for several pattern lists, in order; fails when any
    /// pattern is not a valid glob.
    pub fn merge_patterns(pattern_lists: &Vec<Vec<String>>) -> (r: Result<Self, ignore::Error>)
        ensures
            r matches Ok(f) ==> f.wf() && f.patterns_view() == merged_views(pattern_lists@) && (
            forall|j: int|
                0 <= j < merged_views(pattern_lists@).len() ==> #[trigger] glob_line_ok(
                    merged_views(pattern_lists@)[j],
                )),
    {
        let mut merged: Vec<String> = Vec::new();
        proof {
            assert(merged_views(pattern_lists@.take(0)) =~= Seq::<Seq<char>>::empty());
            assert(seg_views(merged@) =~= merged_views(pattern_lists@.take(0)));
        }
        let mut i: usize = 0;
        while i < pattern_lists.len()
            invariant
                i <= pattern_lists@.len(),
                seg_views(merged@) == merged_views(pattern_lists@.take(i as int)),
            decreases pattern_lists@.len() - i,
        {
            proof {
                assert(pattern_lists@.take(i + 1).drop_last() =~= pattern_lists@.take(i as int));
                assert(pattern_lists@.take(i + 1).last() == pattern_lists@[i as int]);
            }
            let list = &pattern_lists[i];
            let ghost at_list = seg_views(merged@);
            proof {
                assert(seg_views(list@).take(0) =~= Seq::<Seq<char>>::empty());
                assert(seg_views(merged@) =~= at_list + seg_views(list@).take(0));
            }
            let mut j: usize = 0;
            while j < list.len()
                invariant
                    j <= list@.len(),
                    seg_views(merged@) == at_list + seg_views(list@).take(j as int),
                decreases list@.len() - j,
            {
                proof {
                    assert(seg_views(list@).take(j + 1).drop_last() =~= seg_views(list@).take(
                        j as int,
                    ));
                    assert(seg_views(list@).take(j + 1).last() == list@[j as int]@);
                }
                let ghost merged_before = merged@;
                merged.push(list[j].clone());
                proof {
                    assert(seg_views(merged@) =~= seg_views(merged_before).push(list@[j as int]@));
                    assert(seg_views(merged@) =~= at_list + seg_views(list@).take(j + 1));
                }
                j += 1;
            }
            proof {
                assert(seg_views(list@).take(list@.len() as int) =~= seg_views(list@));
                assert(seg_views(merged@) =~= merged_views(pattern_lists@.take(i + 1)));
            }
            i += 1;
        }
        proof {
            assert(pattern_lists@.take(pattern_lists@.len() as int) =~= pattern_lists@);
        }
        Self::from_patterns(&merged)
    }
}

/// The pattern lists flattened into one, in order.
pub open spec fn merged_views(lists: Seq<Vec<String>>) -> Seq<Seq<char>>
    decreases lists.len(),
{
    if lists.len() == 0 {
        Seq::empty()
    } else {
        merged_views(lists.drop_last()) + seg_views(lists.last()@)
    }
}

impl Default for ExcludeFilter {
    /// A filter that excludes nothing.
    fn default() -> (r: Self)
        ensures
            r.wf(),
            r.patterns_view() == Seq::<Seq<char>>::empty(),
    {
        Self::new()
    }
}

} // verus!
