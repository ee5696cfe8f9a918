//! Rendering of repository reports as human-readable text or as JSON.
//! Both renderings are stated character for character; terminal coloring
//! is left to the surrounding program's presentation layer.

use vstd::prelude::*;
use crate::jsonfmt::{
    append_json_bool, append_json_opt_string, append_json_string, append_json_string_array,
    json_bool_view, json_opt_string_view, json_string_array_view, json_string_view,
};
use crate::repo::Repository;
use crate::strutil::{dec_rep, eq_str, usize_to_string};

verus! {

/// The JSON object written for one repository.
pub open spec fn json_repository_view(r: Repository) -> Seq<char> {
    "{\"path\":"@ + json_string_view(r.path@) + ",\"name\":"@ + json_string_view(r.name@)
        + ",\"has_changes\":"@ + json_bool_view(r.has_changes) + ",\"current_branch\":"@
        + json_opt_string_view(r.current_branch) + ",\"changed_files\":"@ + json_string_array_view(
        r.changed_files@.map_values(|s: String| s@),
    ) + ",\"needs_pull\":"@ + json_bool_view(r.needs_pull) + ",\"needs_push\":"@ + json_bool_view(
        r.needs_push,
    ) + ",\"remote_branch\":"@ + json_opt_string_view(r.remote_branch) + seq!['}']
}

/// The comma-separated JSON objects for a sequence of repositories.
pub open spec fn json_repo_items(rs: Seq<Repository>) -> Seq<char>
    decreases rs.len(),
{
    if rs.len() == 0 {
        Seq::empty()
    } else if rs.len() == 1 {
        json_repository_view(rs[0])
    } else {
        json_repo_items(rs.drop_last()) + seq![','] + json_repository_view(rs.last())
    }
}

/// The JSON document for a sequence of repositories: an array of objects.
pub open spec fn json_repositories_view(rs: Seq<Repository>) -> Seq<char> {
    seq!['['] + json_repo_items(rs) + seq![']']
}

/// The marker appended after the branch: pull and push arrows as the
/// synchronization state demands, nothing when the branch is in sync or
/// has no remote.
pub open spec fn sync_marker_view(needs_pull: bool, needs_push: bool) -> Seq<char> {
    if needs_pull && needs_push {
        " [↑↓]"@
    } else if needs_pull {
        " [↓]"@
    } else if needs_push {
        " [↑]"@
    } else {
        Seq::empty()
    }
}

/// The branch name shown for a repository, `unknown` when it has none.
pub open spec fn branch_display_view(b: Option<String>) -> Seq<char> {
    match b {
        Some(s) => s@,
        None => "unknown"@,
    }
}

/// The `Sync status` line shown in verbose mode, empty when in sync.
pub open spec fn sync_status_view(needs_pull: bool, needs_push: bool) -> Seq<char> {
    if needs_pull && needs_push {
        "\n  Sync status: needs pull and push"@
    } else if needs_pull {
        "\n  Sync status: needs pull"@
    } else if needs_push {
        "\n  Sync status: needs push"@
    } else {
        Seq::empty()
    }
}

/// One indented line per changed file.
pub open spec fn file_lines_view(files: Seq<Seq<char>>) -> Seq<char>
    decreases files.len(),
{
    if files.len() == 0 {
        Seq::empty()
    } else {
        file_lines_view(files.drop_last()) + "\n    "@ + files.last()
    }
}

/// The `Changed files` block shown in verbose mode, empty when nothing
/// changed.
pub open spec fn changed_files_block_view(files: Seq<Seq<char>>) -> Seq<char> {
    if files.len() == 0 {
        Seq::empty()
    } else {
        "\n  Changed files:"@ + file_lines_view(files)
    }
}

/// The first line shown for a repository: name, branch, synchronization
/// marker and the changed-file count.
pub open spec fn repo_head_view(r: Repository) -> Seq<char> {
    r.name@ + " ["@ + branch_display_view(r.current_branch) + "]"@ + sync_marker_view(
        r.needs_pull,
        r.needs_push,
    ) + " ("@ + dec_rep(r.changed_files@.len()) + " changed files)"@
}

/// The full text shown for one repository. The default mode is one line;
/// verbose mode adds the path, the remote tracking branch, the
/// synchronization state and the changed files on their own lines.
pub open spec fn repo_text_view(verbose: bool, r: Repository) -> Seq<char> {
    if verbose {
        repo_head_view(r) + "\n  Path: "@ + r.path@ + (match r.remote_branch {
            Some(rb) => "\n  Remote: "@ + rb@,
            None => Seq::empty(),
        }) + sync_status_view(r.needs_pull, r.needs_push) + changed_files_block_view(
            r.changed_files@.map_values(|s: String| s@),
        )
    } else {
        repo_head_view(r) + " - "@ + r.path@
    }
}

/// How many of the repositories report changes.
pub open spec fn count_changed(rs: Seq<Repository>) -> nat
    decreases rs.len(),
{
    if rs.len() == 0 {
        0
    } else {
        count_changed(rs.drop_last()) + if rs.last().has_changes {
            1nat
        } else {
            0nat
        }
    }
}

/// The per-repository paragraphs of the text rendering, each followed by
/// a blank separator line.
pub open spec fn repo_paragraphs_view(verbose: bool, rs: Seq<Repository>) -> Seq<char>
    decreases rs.len(),
{
    if rs.len() == 0 {
        Seq::empty()
    } else {
        repo_paragraphs_view(verbose, rs.drop_last()) + repo_text_view(verbose, rs.last())
            + seq!['\n']
    }
}

/// The text rendering of a scan: a summary header, then one paragraph per
/// repository; a fixed sentence when nothing was found.
pub open spec fn text_report_view(verbose: bool, rs: Seq<Repository>) -> Seq<char> {
    if rs.len() == 0 {
        "No repositories found."@
    } else {
        "Found "@ + dec_rep(rs.len()) + " repositories"@ + (if count_changed(rs) > 0 {
            " ("@ + dec_rep(count_changed(rs)) + " with changes)"@
        } else {
            Seq::empty()
        }) + ":\n\n"@ + repo_paragraphs_view(verbose, rs)
    }
}

/// The rendering a formatter produces: JSON when its format says so, text
/// otherwise.
pub open spec fn report_view(verbose: bool, format: Seq<char>, rs: Seq<Repository>) -> Seq<char> {
    if format == "json"@ {
        json_repositories_view(rs)
    } else {
        text_report_view(verbose, rs)
    }
}

/// Renders repository reports for the user, as text or JSON.
pub struct OutputFormatter {
    /// Whether the text rendering spells out paths, remotes and files.
    pub verbose: bool,
    /// The output format: `json`, or anything else for text.
    pub format: String,
}

impl OutputFormatter {
    /// A formatter with the given mode and format.
    pub fn new(verbose: bool, format: String) -> (r: Self)
        ensures
            r.verbose == verbose,
            r.format == format,
    {
        OutputFormatter { verbose, format }
    }

    /// Render one repository as text, exactly as `repo_text_view` states.
    pub fn format_repository(&self, repo: &Repository) -> (r: String)
        ensures
            r@ == repo_text_view(self.verbose, *repo),
    {
        let mut s = repo.name.clone();
        s.append(" [");
        match &repo.current_branch {
            Some(b) => s.append(b.as_str()),
            None => s.append("unknown"),
        }
        s.append("]");
        if repo.needs_pull && repo.needs_push {
            s.append(" [↑↓]");
        } else if repo.needs_pull {
            s.append(" [↓]");
        } else if repo.needs_push {
            s.append(" [↑]");
        }
        s.append(" (");
        let count = usize_to_string(repo.changed_files.len());
        s.append(count.as_str());
        s.append(" changed files)");
        proof {
            assert(s@ =~= repo_head_view(*repo));
        }
        if self.verbose {
            s.append("\n  Path: ");
            s.append(repo.path.as_str());
            match &repo.remote_branch {
                Some(rb) => {
                    s.append("\n  Remote: ");
                    s.append(rb.as_str());
                },
                None => {},
            }
            if repo.needs_pull && repo.needs_push {
                s.append("\n  Sync status: needs pull and push");
            } else if repo.needs_pull {
                s.append("\n  Sync status: needs pull");
            } else if repo.needs_push {
                s.append("\n  Sync status: needs push");
            }
            let ghost before_files = s@;
            proof {
                assert(before_files =~= repo_head_view(*repo) + "\n  Path: "@ + repo.path@ + (
                match repo.remote_branch {
                    Some(rb) => "\n  Remote: "@ + rb@,
                    None => Seq::<char>::empty(),
                }) + sync_status_view(repo.needs_pull, repo.needs_push));
            }
            if repo.changed_files.len() > 0 {
                s.append("\n  Changed files:");
                let ghost files = repo.changed_files@.map_values(|f: String| f@);
                proof {
                    assert(files.take(0) =~= Seq::<Seq<char>>::empty());
                }
                let ghost at_block = s@;
                let mut i: usize = 0;
                while i < repo.changed_files.len()
                    invariant
                        i <= repo.changed_files@.len(),
                        files == repo.changed_files@.map_values(|f: String| f@),
                        s@ == at_block + file_lines_view(files.take(i as int)),
                    decreases repo.changed_files@.len() - i,
                {
                    proof {
                        assert(files.take(i + 1).drop_last() =~= files.take(i as int));
                        assert(files.take(i + 1).last() == repo.changed_files@[i as int]@);
                    }
                    s.append("\n    ");
                    s.append(repo.changed_files[i].as_str());
                    proof {
                        assert(s@ =~= at_block + file_lines_view(files.take(i + 1)));
                    }
                    i += 1;
                }
                proof {
                    assert(files.take(files.len() as int) =~= files);
                    assert(s@ =~= repo_text_view(self.verbose, *repo));
                }
            } else {
                proof {
                    assert(repo.changed_files@.map_values(|f: String| f@).len() == 0);
                    assert(s@ =~= repo_text_view(self.verbose, *repo));
                }
            }
            s
        } else {
            s.append(" - ");
            s.append(repo.path.as_str());
            proof {
                assert(s@ =~= repo_text_view(self.verbose, *repo));
            }
            s
        }
    }

    /// Append the JSON object for one repository.
    #[verifier::rlimit(60)]
    fn append_json_repository(out: &mut String, repo: &Repository)
        ensures
            final(out)@ == old(out)@ + json_repository_view(*repo),
    {
        out.append("{\"path\":");
        append_json_string(out, repo.path.as_str());
        out.append(",\"name\":");
        append_json_string(out, repo.name.as_str());
        out.append(",\"has_changes\":");
        append_json_bool(out, repo.has_changes);
        out.append(",\"current_branch\":");
        append_json_opt_string(out, &repo.current_branch);
        out.append(",\"changed_files\":");
        append_json_string_array(out, &repo.changed_files);
        out.append(",\"needs_pull\":");
        append_json_bool(out, repo.needs_pull);
        out.append(",\"needs_push\":");
        append_json_bool(out, repo.needs_push);
        out.append(",\"remote_branch\":");
        append_json_opt_string(out, &repo.remote_branch);
        out.append("}");
        proof {
            reveal_strlit("}");
            assert(out@ =~= old(out)@ + json_repository_view(*repo));
        }
    }

    /// Render the reports as a JSON array of objects, exactly as
    /// `json_repositories_view` states.
    fn format_repositories_json(&self, repositories: &Vec<Repository>) -> (r: String)
        ensures
            r@ == json_repositories_view(repositories@),
    {
        let mut s = String::new();
        s.append("[");
        proof {
            reveal_strlit("[");
            assert(repositories@.take(0) =~= Seq::<Repository>::empty());
            assert(s@ =~= seq!['['] + json_repo_items(repositories@.take(0)));
        }
        let mut i: usize = 0;
        while i < repositories.len()
            invariant
                i <= repositories@.len(),
                s@ == seq!['['] + json_repo_items(repositories@.take(i as int)),
            decreases repositories@.len() - i,
        {
            proof {
                assert(repositories@.take(i + 1).drop_last() =~= repositories@.take(i as int));
                assert(repositories@.take(i + 1).last() == repositories@[i as int]);
            }
            if i > 0 {
                s.append(",");
                proof {
                    reveal_strlit(",");
                }
            }
            Self::append_json_repository(&mut s, &repositories[i]);
            proof {
                assert(s@ =~= seq!['['] + json_repo_items(repositories@.take(i + 1)));
            }
            i += 1;
        }
        s.append("]");
        proof {
            reveal_strlit("]");
            assert(repositories@.take(repositories@.len() as int) =~= repositories@);
            assert(s@ =~= json_repositories_view(repositories@));
        }
        s
    }

    /// Render the reports as text, exactly as `text_report_view` states.
    fn format_repositories_text(&self, repositories: &Vec<Repository>) -> (r: String)
        ensures
            r@ == text_report_view(self.verbose, repositories@),
    {
        if repositories.len() == 0 {
            return "No repositories found.".to_owned();
        }
        let changed = Self::count_with_changes(repositories);
        let mut s = "Found ".to_owned();
        let total = usize_to_string(repositories.len());
        s.append(total.as_str());
        s.append(" repositories");
        if changed > 0 {
            s.append(" (");
            let c = usize_to_string(changed);
            s.append(c.as_str());
            s.append(" with changes)");
        }
        s.append(":\n\n");
        let ghost header = s@;
        proof {
            assert(header =~= "Found "@ + dec_rep(repositories@.len()) + " repositories"@ + (
            if count_changed(repositories@) > 0 {
                " ("@ + dec_rep(count_changed(repositories@)) + " with changes)"@
            } else {
                Seq::<char>::empty()
            }) + ":\n\n"@);
            assert(repositories@.take(0) =~= Seq::<Repository>::empty());
        }
        let mut i: usize = 0;
        while i < repositories.len()
            invariant
                i <= repositories@.len(),
                s@ == header + repo_paragraphs_view(self.verbose, repositories@.take(i as int)),
            decreases repositories@.len() - i,
        {
            proof {
                assert(repositories@.take(i + 1).drop_last() =~= repositories@.take(i as int));
                assert(repositories@.take(i + 1).last() == repositories@[i as int]);
            }
            let line = self.format_repository(&repositories[i]);
            s.append(line.as_str());
            s.append("\n");
            proof {
                reveal_strlit("\n");
                assert("\n"@ =~= seq!['\n']);
                assert(s@ =~= header + repo_paragraphs_view(
                    self.verbose,
                    repositories@.take(i + 1),
                ));
            }
            i += 1;
        }
        proof {
            assert(repositories@.take(repositories@.len() as int) =~= repositories@);
            assert(s@ =~= text_report_view(self.verbose, repositories@));
        }
        s
    }

    /// How many of the reports have changes.
    fn count_with_changes(repositories: &Vec<Repository>) -> (r: usize)
        ensures
            r == count_changed(repositories@),
    {
        let mut count: usize = 0;
        proof {
            assert(repositories@.take(0) =~= Seq::<Repository>::empty());
        }
        let mut i: usize = 0;
        while i < repositories.len()
            invariant
                i <= repositories@.len(),
                count == count_changed(repositories@.take(i as int)),
                count <= i,
            decreases repositories@.len() - i,
        {
            proof {
                assert(repositories@.take(i + 1).drop_last() =~= repositories@.take(i as int));
                assert(repositories@.take(i + 1).last() == repositories@[i as int]);
            }
            if repositories[i].has_changes {
                count += 1;
            }
            i += 1;
        }
        proof {
            assert(repositories@.take(repositories@.len() as int) =~= repositories@);
        }
        count
    }

    /// Render the reports in this formatter's format: JSON when it is
    /// `json`, text otherwise.
    pub fn format_repositories(&self, repositories: &Vec<Repository>) -> (r: String)
        ensures
            r@ == report_view(self.verbose, self.format@, repositories@),
    {
        if eq_str(self.format.as_str(), "json") {
            self.format_repositories_json(repositories)
        } else {
            self.format_repositories_text(repositories)
        }
    }
}

} // verus!
