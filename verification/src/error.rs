//! The error taxonomy of the library, with a verified rendering of each
//! error as text and a verified classifier for fetch failures.

use vstd::prelude::*;
use crate::strutil::{
    contains_sub, contains_str, dec_rep, last_segment, last_segment_view, trim_view, trim_ws,
    u64_to_string,
};

verus! {

/// Everything that can go wrong while scanning repositories.
#[derive(Debug, Clone)]
pub enum PendectorError {
    /// No repository was found at the given path.
    GitRepositoryNotFound(String),
    /// A repository operation failed; `source` holds the underlying message.
    GitOperationFailed { repo_path: String, operation: String, source: String },
    /// A file system operation failed.
    FileSystemError { path: String, message: String },
    /// The given path is invalid.
    InvalidPath(String),
    /// Scanning a directory failed; `source` holds the underlying message.
    ScanError { path: String, source: String },
    /// Formatting output failed.
    FormatError(String),
    /// The configuration could not be read or parsed.
    ConfigError { path: String, message: String },
    /// A network operation (fetch) failed.
    NetworkError { repo_path: String, message: String },
    /// A fetch exceeded its time limit.
    TimeoutError { repo_path: String, timeout_secs: u64 },
    /// The remote denied access.
    AuthenticationError { repo_path: String, message: String },
}

/// The result type of the library.
pub type PendectorResult<T> = Result<T, PendectorError>;

impl PendectorError {
    /// The human-readable rendering of the error.
    pub open spec fn message_view(&self) -> Seq<char> {
        match self {
            PendectorError::GitRepositoryNotFound(path) => "Git repository not found at '"@
                + path@ + "'"@,
            PendectorError::GitOperationFailed { repo_path, operation, source } => {
                "Git operation '"@ + operation@ + "' failed in '"@ + repo_path@ + "': "@ + source@
            },
            PendectorError::FileSystemError { path, message } => "File system error for '"@ + path@
                + "': "@ + message@,
            PendectorError::InvalidPath(path) => "Invalid path: '"@ + path@ + "'"@,
            PendectorError::ScanError { path, source } => "Failed to scan directory '"@ + path@
                + "': "@ + source@,
            PendectorError::FormatError(msg) => "Format error: "@ + msg@,
            PendectorError::ConfigError { path, message } => "Configuration error in '"@ + path@
                + "': "@ + message@,
            PendectorError::NetworkError { repo_path, message } => "Network error for '"@
                + repo_path@ + "': "@ + message@,
            PendectorError::TimeoutError { repo_path, timeout_secs } => {
                "Operation timed out after "@ + dec_rep(*timeout_secs as nat) + "s for '"@
                    + repo_path@ + "'"@
            },
            PendectorError::AuthenticationError { repo_path, message } => {
                "Authentication error for '"@ + repo_path@ + "': "@ + message@
            },
        }
    }

    /// Render the error as text, exactly as `message_view` states.
    pub fn message(&self) -> (r: String)
        ensures
            r@ == self.message_view(),
    {
        let mut s = String::new();
        match self {
            PendectorError::GitRepositoryNotFound(path) => {
                s.append("Git repository not found at '");
                s.append(path.as_str());
                s.append("'");
            },
            PendectorError::GitOperationFailed { repo_path, operation, source } => {
                s.append("Git operation '");
                s.append(operation.as_str());
                s.append("' failed in '");
                s.append(repo_path.as_str());
                s.append("': ");
                s.append(source.as_str());
            },
            PendectorError::FileSystemError { path, message } => {
                s.append("File system error for '");
                s.append(path.as_str());
                s.append("': ");
                s.append(message.as_str());
            },
            PendectorError::InvalidPath(path) => {
                s.append("Invalid path: '");
                s.append(path.as_str());
                s.append("'");
            },
            PendectorError::ScanError { path, source } => {
                s.append("Failed to scan directory '");
                s.append(path.as_str());
                s.append("': ");
                s.append(source.as_str());
            },
            PendectorError::FormatError(msg) => {
                s.append("Format error: ");
                s.append(msg.as_str());
            },
            PendectorError::ConfigError { path, message } => {
                s.append("Configuration error in '");
                s.append(path.as_str());
                s.append("': ");
                s.append(message.as_str());
            },
            PendectorError::NetworkError { repo_path, message } => {
                s.append("Network error for '");
                s.append(repo_path.as_str());
                s.append("': ");
                s.append(message.as_str());
            },
            PendectorError::TimeoutError { repo_path, timeout_secs } => {
                s.append("Operation timed out after ");
                let secs = u64_to_string(*timeout_secs);
                s.append(secs.as_str());
                s.append("s for '");
                s.append(repo_path.as_str());
                s.append("'");
            },
            PendectorError::AuthenticationError { repo_path, message } => {
                s.append("Authentication error for '");
                s.append(repo_path.as_str());
                s.append("': ");
                s.append(message.as_str());
            },
        }
        proof {
            assert(s@ =~= self.message_view());
        }
        s
    }

    /// Wrap a file system failure.
    pub fn from_io_error(path: String, message: String) -> (r: Self)
        ensures
            r == (PendectorError::FileSystemError { path, message }),
    {
        PendectorError::FileSystemError { path, message }
    }

    /// Wrap a failed repository operation, keeping the underlying
    /// failure text as the source.
    pub fn from_git2_error(repo_path: String, operation: String, error: git2::Error) -> (r: Self)
        ensures
            r matches PendectorError::GitOperationFailed { repo_path: rp, operation: op, .. }
                && rp == repo_path && op == operation,
    {
        let source = crate::gitio::error_message(&error);
        PendectorError::GitOperationFailed { repo_path, operation, source }
    }
}

/// The display name a fetch error reports for a repository: the final
/// path segment, or `unknown` when the path has none.
pub open spec fn fetch_repo_name_view(path: Seq<char>) -> Seq<char> {
    match last_segment_view(path) {
        Some(seg) => seg,
        None => "unknown"@,
    }
}

/// What `from_fetch_error` must return: the classification of a failed
/// fetch from its stderr text and exit code, as a predicate on the result.
pub open spec fn is_fetch_error_classification(
    r: PendectorError,
    name: Seq<char>,
    stderr: Seq<char>,
    exit_code: Option<i32>,
    timeout_secs: u64,
) -> bool {
    if exit_code == Some(124i32) {
        r matches PendectorError::TimeoutError { repo_path: rp, timeout_secs: t } && rp@ == name
            && t == timeout_secs
    } else if contains_sub(stderr, "Repository not found"@) {
        r matches PendectorError::NetworkError { repo_path: rp, message: m } && rp@ == name && m@
            == "Remote repository not found"@
    } else if contains_sub(stderr, "Could not read from remote"@) || contains_sub(
        stderr,
        "Authentication failed"@,
    ) {
        r matches PendectorError::AuthenticationError { repo_path: rp, message: m } && rp@ == name
            && m@ == "Authentication or access denied"@
    } else if contains_sub(stderr, "Network is unreachable"@) || contains_sub(
        stderr,
        "Temporary failure"@,
    ) {
        r matches PendectorError::NetworkError { repo_path: rp, message: m } && rp@ == name && m@
            == "Network error"@
    } else if trim_view(stderr).len() > 0 {
        r matches PendectorError::NetworkError { repo_path: rp, message: m } && rp@ == name && m@
            == trim_view(stderr)
    } else {
        r matches PendectorError::NetworkError { repo_path: rp, message: m } && rp@ == name && m@
            == "Failed to fetch from remote"@
    }
}

impl PendectorError {
    /// Classify a failed fetch from its stderr text and exit code, by
    /// matching known substrings of the failure output. Exit code 124
    /// means the operation was cut off; the caller passes the time limit
    /// it enforced through `timeout_secs`, so that a timeout is reported
    /// with that limit.
    pub fn from_fetch_error_with_timeout(
        repo_path: String,
        stderr: &str,
        exit_code: Option<i32>,
        timeout_secs: u64,
    ) -> (r: Self)
        ensures
            is_fetch_error_classification(
                r,
                fetch_repo_name_view(repo_path@),
                stderr@,
                exit_code,
                timeout_secs,
            ),
    {
        let repo_name: String = match last_segment(repo_path.as_str()) {
            Some(n) => n,
            None => "unknown".to_owned(),
        };
        let timed_out = match exit_code {
            Some(c) => c == 124,
            None => false,
        };
        if timed_out {
            return PendectorError::TimeoutError { repo_path: repo_name, timeout_secs };
        }
        if contains_str(stderr, "Repository not found") {
            PendectorError::NetworkError {
                repo_path: repo_name,
                message: "Remote repository not found".to_owned(),
            }
        } else if contains_str(stderr, "Could not read from remote") || contains_str(
            stderr,
            "Authentication failed",
        ) {
            PendectorError::AuthenticationError {
                repo_path: repo_name,
                message: "Authentication or access denied".to_owned(),
            }
        } else if contains_str(stderr, "Network is unreachable") || contains_str(
            stderr,
            "Temporary failure",
        ) {
            PendectorError::NetworkError {
                repo_path: repo_name,
                message: "Network error".to_owned(),
            }
        } else {
            let trimmed = trim_ws(stderr);
            if trimmed.unicode_len() > 0 {
                PendectorError::NetworkError {
                    repo_path: repo_name,
                    message: trimmed.to_owned(),
                }
            } else {
                PendectorError::NetworkError {
                    repo_path: repo_name,
                    message: "Failed to fetch from remote".to_owned(),
                }
            }
        }
    }

    /// Classify a failed fetch. A time-limit failure reports no limit
    /// value here; use `from_fetch_error_with_timeout` where the enforced
    /// limit is known.
    pub fn from_fetch_error(repo_path: String, stderr: &str, exit_code: Option<i32>) -> (r: Self)
        ensures
            is_fetch_error_classification(
                r,
                fetch_repo_name_view(repo_path@),
                stderr@,
                exit_code,
                0,
            ),
    {
        Self::from_fetch_error_with_timeout(repo_path, stderr, exit_code, 0)
    }
}

} // verus!
