//! Configuration data and its resolution: per-path settings override the
//! defaults, field by field, taking the first configured path pattern that
//! matches the target.
//!
//! Reading a configuration file, tilde expansion and path canonicalization
//! are the surrounding program's concern; the resolution here is a pure
//! function over the paths as given.

use vstd::prelude::*;
use crate::strutil::{
    eq_str, seq_starts_with, starts_with_str, strip_trailing_slashes, strip_trailing_slashes_str,
};

verus! {

/// Settings that apply when no path-specific entry matches.
#[derive(Debug, Clone)]
pub struct DefaultConfig {
    pub max_depth: usize,
    pub fetch: bool,
    pub fetch_timeout: u64,
    pub format: String,
    pub verbose: bool,
    pub changes_only: bool,
    pub paths: Vec<String>,
}

/// Settings for one configured path pattern; an absent field defers to
/// the defaults.
#[derive(Debug, Clone)]
pub struct PathConfig {
    pub path: String,
    pub max_depth: Option<usize>,
    pub fetch: Option<bool>,
    pub fetch_timeout: Option<u64>,
    pub format: Option<String>,
    pub verbose: Option<bool>,
    pub changes_only: Option<bool>,
}

/// The whole configuration: defaults plus path-specific entries.
#[derive(Debug, Clone)]
pub struct Config {
    pub defaults: DefaultConfig,
    pub path_configs: Vec<PathConfig>,
}

/// Fully resolved settings for one target path.
#[derive(Debug, Clone)]
pub struct PathConfigResolved {
    pub max_depth: usize,
    pub fetch: bool,
    pub fetch_timeout: u64,
    pub format: String,
    pub verbose: bool,
    pub changes_only: bool,
}

/// The depth limit used when none is configured.
pub fn default_max_depth() -> (r: usize)
    ensures
        r == 3,
{
    3
}

/// The fetch time limit in seconds used when none is configured.
pub fn default_fetch_timeout() -> (r: u64)
    ensures
        r == 5,
{
    5
}

/// The output format used when none is configured.
pub fn default_format() -> (r: String)
    ensures
        r@ == "text"@,
{
    "text".to_owned()
}

impl Default for DefaultConfig {
    /// The built-in defaults: depth 3, no fetch, a five-second fetch
    /// limit, text output, and the current directory as the only path.
    fn default() -> (r: Self)
        ensures
            r.max_depth == 3,
            !r.fetch,
            r.fetch_timeout == 5,
            r.format@ == "text"@,
            !r.verbose,
            !r.changes_only,
            r.paths@.len() == 1,
            r.paths@[0]@ == "."@,
    {
        DefaultConfig {
            max_depth: default_max_depth(),
            fetch: false,
            fetch_timeout: default_fetch_timeout(),
            format: default_format(),
            verbose: false,
            changes_only: false,
            paths: vec![".".to_owned()],
        }
    }
}

impl Default for Config {
    /// The built-in defaults with no path-specific entries.
    fn default() -> (r: Self)
        ensures
            r.defaults.max_depth == 3,
            !r.defaults.fetch,
            r.defaults.fetch_timeout == 5,
            r.defaults.format@ == "text"@,
            !r.defaults.verbose,
            !r.defaults.changes_only,
            r.defaults.paths@.len() == 1,
            r.defaults.paths@[0]@ == "."@,
            r.path_configs@.len() == 0,
    {
        Config { defaults: DefaultConfig::default(), path_configs: Vec::new() }
    }
}

/// A configured path pattern matches a target path when the target equals
/// the pattern or lies below it (the pattern followed by `/`). Trailing
/// slashes on the pattern do not count.
pub open spec fn path_matches_view(config: Seq<char>, target: Seq<char>) -> bool {
    let c = strip_trailing_slashes(config);
    target == c || (seq_starts_with(target, c) && target.len() > c.len() && target[c.len() as int]
        == '/')
}

/// The first configured entry whose path pattern matches the target.
pub open spec fn first_match(cfgs: Seq<PathConfig>, target: Seq<char>) -> Option<PathConfig>
    decreases cfgs.len(),
{
    if cfgs.len() == 0 {
        None
    } else if path_matches_view(cfgs[0].path@, target) {
        Some(cfgs[0])
    } else {
        first_match(cfgs.drop_first(), target)
    }
}

/// The configured value when present, the default otherwise.
pub open spec fn opt_or<T>(o: Option<T>, d: T) -> T {
    match o {
        Some(x) => x,
        None => d,
    }
}

impl Config {
    /// Whether a configured path pattern matches a target path.
    pub fn path_matches(config_path: &str, target_path: &str) -> (r: bool)
        ensures
            r == path_matches_view(config_path@, target_path@),
    {
        let c = strip_trailing_slashes_str(config_path);
        if eq_str(target_path, c) {
            return true;
        }
        let clen = c.unicode_len();
        let tlen = target_path.unicode_len();
        starts_with_str(target_path, c) && tlen > clen && target_path.get_char(clen) == '/'
    }

    /// Resolve the settings for `target_path`: each field comes from the
    /// first matching path entry when it sets one, from the defaults
    /// otherwise.
    pub fn get_path_config(&self, target_path: &str) -> (r: PathConfigResolved)
        ensures
            ({
                let m = first_match(self.path_configs@, target_path@);
                &&& r.max_depth == match m {
                    Some(pc) => opt_or(pc.max_depth, self.defaults.max_depth),
                    None => self.defaults.max_depth,
                }
                &&& r.fetch == match m {
                    Some(pc) => opt_or(pc.fetch, self.defaults.fetch),
                    None => self.defaults.fetch,
                }
                &&& r.fetch_timeout == match m {
                    Some(pc) => opt_or(pc.fetch_timeout, self.defaults.fetch_timeout),
                    None => self.defaults.fetch_timeout,
                }
                &&& r.format@ == match m {
                    Some(pc) => match pc.format {
                        Some(f) => f@,
                        None => self.defaults.format@,
                    },
                    None => self.defaults.format@,
                }
                &&& r.verbose == match m {
                    Some(pc) => opt_or(pc.verbose, self.defaults.verbose),
                    None => self.defaults.verbose,
                }
                &&& r.changes_only == match m {
                    Some(pc) => opt_or(pc.changes_only, self.defaults.changes_only),
                    None => self.defaults.changes_only,
                }
            }),
    {
        let mut i: usize = 0;
        proof {
            assert(self.path_configs@.skip(0) =~= self.path_configs@);
        }
        while i < self.path_configs.len()
            invariant
                i <= self.path_configs@.len(),
                first_match(self.path_configs@, target_path@) == first_match(
                    self.path_configs@.skip(i as int),
                    target_path@,
                ),
            decreases self.path_configs@.len() - i,
        {
            let pc = &self.path_configs[i];
            proof {
                assert(self.path_configs@.skip(i as int)[0] == self.path_configs@[i as int]);
            }
            if Self::path_matches(pc.path.as_str(), target_path) {
                return PathConfigResolved {
                    max_depth: match pc.max_depth {
                        Some(d) => d,
                        None => self.defaults.max_depth,
                    },
                    fetch: match pc.fetch {
                        Some(f) => f,
                        None => self.defaults.fetch,
                    },
                    fetch_timeout: match pc.fetch_timeout {
                        Some(t) => t,
                        None => self.defaults.fetch_timeout,
                    },
                    format: match &pc.format {
                        Some(f) => f.clone(),
                        None => self.defaults.format.clone(),
                    },
                    verbose: match pc.verbose {
                        Some(v) => v,
                        None => self.defaults.verbose,
                    },
                    changes_only: match pc.changes_only {
                        Some(c) => c,
                        None => self.defaults.changes_only,
                    },
                };
            }
            proof {
                assert(self.path_configs@.skip(i as int).drop_first() =~= self.path_configs@.skip(
                    i + 1,
                ));
            }
            i += 1;
        }
        PathConfigResolved {
            max_depth: self.defaults.max_depth,
            fetch: self.defaults.fetch,
            fetch_timeout: self.defaults.fetch_timeout,
            format: self.defaults.format.clone(),
            verbose: self.defaults.verbose,
            changes_only: self.defaults.changes_only,
        }
    }

    /// The paths scanned when the caller names none.
    pub fn get_default_paths(&self) -> (r: &Vec<String>)
        ensures
            r@ == self.defaults.paths@,
    {
        &self.defaults.paths
    }
}

} // verus!
