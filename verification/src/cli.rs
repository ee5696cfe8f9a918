//! The command-line surface as data, and the precedence rules that
//! combine it with the configuration: which paths a scan covers, which
//! scan and output settings win, and the changes-only filtering of the
//! final reports.
//!
//! Parsing the command line itself is the surrounding program's concern;
//! it hands in this struct.

use vstd::prelude::*;
use crate::config::PathConfigResolved;
use crate::repo::Repository;

verus! {

/// Everything the command line can say.
#[derive(Debug, Clone)]
pub struct Args {
    /// Base directories to scan for repositories.
    pub paths: Vec<String>,
    /// Add the named paths to the configured default paths instead of
    /// replacing them.
    pub add_path: bool,
    /// Show only repositories with changes.
    pub changes_only: bool,
    /// Spell out paths, remotes and changed files.
    pub verbose: bool,
    /// Depth limit for the recursive directory search.
    pub max_depth: usize,
    /// Output format: `text` or `json`.
    pub format: String,
    /// Fetch from the remote before checking the synchronization state.
    pub fetch: bool,
    /// Time limit for one fetch, in seconds.
    pub fetch_timeout: u64,
    /// Path of the configuration file to read.
    pub config: Option<String>,
    /// Ignore the configuration file.
    pub no_config: bool,
    /// Patterns of paths to leave out.
    pub exclude: Vec<String>,
    /// Ignore the exclusion patterns of the configuration file.
    pub no_exclude: bool,
}

/// The paths a scan covers: the configured defaults when the command
/// line names none; defaults and named paths together when adding; the
/// named paths alone otherwise.
pub fn resolve_scan_paths(
    args_paths: &Vec<String>,
    add_path: bool,
    default_paths: &Vec<String>,
) -> (r: Vec<String>)
    ensures
        args_paths@.len() == 0 ==> r@ == default_paths@,
        args_paths@.len() > 0 && add_path ==> r@ == default_paths@ + args_paths@,
        args_paths@.len() > 0 && !add_path ==> r@ == args_paths@,
{
    if args_paths.len() == 0 {
        let r = clone_paths(default_paths);
        r
    } else if add_path {
        let mut r = clone_paths(default_paths);
        let more = clone_paths(args_paths);
        append_paths(&mut r, more);
        r
    } else {
        clone_paths(args_paths)
    }
}

/// A copy of a path list, element for element.
fn clone_paths(paths: &Vec<String>) -> (r: Vec<String>)
    ensures
        r@ == paths@,
{
    let mut r: Vec<String> = Vec::new();
    proof {
        assert(r@ =~= paths@.take(0));
    }
    let mut i: usize = 0;
    while i < paths.len()
        invariant
            i <= paths@.len(),
            r@ == paths@.take(i as int),
        decreases paths@.len() - i,
    {
        r.push(paths[i].clone());
        proof {
            assert(r@ =~= paths@.take(i + 1));
        }
        i += 1;
    }
    proof {
        assert(paths@.take(paths@.len() as int) =~= paths@);
    }
    r
}

/// Move every element of `more` onto the end of `r`, in order.
fn append_paths(r: &mut Vec<String>, more: Vec<String>)
    ensures
        final(r)@ == old(r)@ + more@,
{
    let ghost orig = r@;
    let mut rest = more;
    let ghost given = rest@;
    let ghost mut i: int = 0;
    proof {
        assert(r@ =~= orig + given.take(0));
    }
    while rest.len() > 0
        invariant
            0 <= i,
            i + rest@.len() == given.len(),
            rest@ == given.skip(i),
            r@ == orig + given.take(i),
        decreases rest@.len(),
    {
        let x = rest.remove(0);
        proof {
            assert(given.skip(i)[0] == given[i]);
            assert(given.skip(i).remove(0) =~= given.skip(i + 1));
        }
        r.push(x);
        proof {
            assert(r@ =~= orig + given.take(i + 1));
            i = i + 1;
        }
    }
    proof {
        assert(given.take(given.len() as int) =~= given);
    }
}

/// The scan settings in force for one path: an explicit command-line
/// depth or time limit (one that differs from the built-in default)
/// overrides the configured one, and the fetch flag turns fetching on
/// over the configuration.
pub fn effective_scan_options(args: &Args, path_config: &PathConfigResolved) -> (r: (
    usize,
    bool,
    u64,
))
    ensures
        r.0 == if args.max_depth != 3 {
            args.max_depth
        } else {
            path_config.max_depth
        },
        r.1 == (args.fetch || path_config.fetch),
        r.2 == if args.fetch_timeout != 5 {
            args.fetch_timeout
        } else {
            path_config.fetch_timeout
        },
{
    let max_depth = if args.max_depth != 3 {
        args.max_depth
    } else {
        path_config.max_depth
    };
    let fetch = if args.fetch {
        true
    } else {
        path_config.fetch
    };
    let fetch_timeout = if args.fetch_timeout != 5 {
        args.fetch_timeout
    } else {
        path_config.fetch_timeout
    };
    (max_depth, fetch, fetch_timeout)
}

/// The output settings in force: the command line's verbose and
/// changes-only flags turn the modes on over the configuration, and an
/// explicit format (one that differs from the built-in default) wins.
pub fn effective_output_options(args: &Args, path_config: &PathConfigResolved) -> (r: (
    bool,
    String,
    bool,
))
    ensures
        r.0 == (args.verbose || path_config.verbose),
        r.1@ == if args.format@ != "text"@ {
            args.format@
        } else {
            path_config.format@
        },
        r.2 == (args.changes_only || path_config.changes_only),
{
    let verbose = if args.verbose {
        true
    } else {
        path_config.verbose
    };
    let format = if !crate::strutil::eq_str(args.format.as_str(), "text") {
        args.format.clone()
    } else {
        path_config.format.clone()
    };
    let changes_only = if args.changes_only {
        true
    } else {
        path_config.changes_only
    };
    (verbose, format, changes_only)
}

/// The reports that remain when only changed repositories are shown.
pub open spec fn changed_only_view(rs: Seq<Repository>) -> Seq<Repository>
    decreases rs.len(),
{
    if rs.len() == 0 {
        Seq::empty()
    } else {
        let rest = changed_only_view(rs.drop_last());
        if rs.last().has_changes {
            rest.push(rs.last())
        } else {
            rest
        }
    }
}

/// Keep every report when `changes_only` is off; keep exactly the
/// changed ones, in order, when it is on.
pub fn filter_changes_only(repos: Vec<Repository>, changes_only: bool) -> (r: Vec<Repository>)
    ensures
        changes_only ==> r@ == changed_only_view(repos@),
        !changes_only ==> r@ == repos@,
{
    if !changes_only {
        return repos;
    }
    let ghost given = repos@;
    let mut rest = repos;
    let mut rev: Vec<Repository> = Vec::new();
    proof {
        assert(rev@.reverse() =~= Seq::<Repository>::empty());
        assert(changed_only_view(given) =~= changed_only_view(rest@) + rev@.reverse());
    }
    while rest.len() > 0
        invariant
            changed_only_view(given) == changed_only_view(rest@) + rev@.reverse(),
        decreases rest@.len(),
    {
        let ghost before = rest@;
        let x = rest.pop().unwrap();
        let ghost rev_before = rev@;
        if x.has_changes {
            rev.push(x);
        }
        proof {
            assert(rev@.reverse() =~= if before.last().has_changes {
                seq![before.last()] + rev_before.reverse()
            } else {
                rev_before.reverse()
            });
            assert(changed_only_view(given) =~= changed_only_view(rest@) + rev@.reverse());
        }
    }
    proof {
        assert(changed_only_view(given) =~= rev@.reverse());
    }
    let ghost picked = rev@;
    let mut r: Vec<Repository> = Vec::new();
    proof {
        assert(picked.reverse() =~= r@ + rev@.reverse());
    }
    while rev.len() > 0
        invariant
            picked.reverse() == r@ + rev@.reverse(),
        decreases rev@.len(),
    {
        let ghost before = rev@;
        let x = rev.pop().unwrap();
        r.push(x);
        proof {
            assert(before.reverse() =~= seq![before.last()] + rev@.reverse());
            assert(picked.reverse() =~= r@ + rev@.reverse());
        }
    }
    proof {
        assert(r@ =~= changed_only_view(given));
    }
    r
}

} // verus!
