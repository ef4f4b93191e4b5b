//! The version-control side of a run: the exact argument lists for the two
//! history queries, and what their raw results mean. Executing the queries
//! is the caller's business; every decision about them is made here.

use vstd::prelude::*;

verus! {

/// Arguments for the history query: `log -1 <format> -- <files..>`. Only the
/// newest commit is asked for, printed as a bare commit identifier, or as
/// the short committer date when `date` is set.
pub fn git_log_args(files: &Vec<String>, date: bool) -> (r: Vec<String>)
    ensures
        r@.len() == 4 + files@.len(),
        r@[0]@ == "log"@,
        r@[1]@ == "-1"@,
        date ==> r@[2]@ == "--pretty=format:%cs"@,
        !date ==> r@[2]@ == "--pretty=format:%H"@,
        r@[3]@ == "--"@,
        forall|i: int| 4 <= i < r@.len() ==> r@[i] == files@[i - 4],
{
    let mut r: Vec<String> = Vec::new();
    r.push("log".to_owned());
    r.push("-1".to_owned());
    if date {
        r.push("--pretty=format:%cs".to_owned());
    } else {
        r.push("--pretty=format:%H".to_owned());
    }
    r.push("--".to_owned());
    let mut i: usize = 0;
    while i < files.len()
        invariant
            i <= files@.len(),
            r@.len() == 4 + i,
            r@[0]@ == "log"@,
            r@[1]@ == "-1"@,
            date ==> r@[2]@ == "--pretty=format:%cs"@,
            !date ==> r@[2]@ == "--pretty=format:%H"@,
            r@[3]@ == "--"@,
            forall|j: int| 4 <= j < r@.len() ==> r@[j] == files@[j - 4],
        decreases files@.len() - i,
    {
        r.push(files[i].clone());
        i += 1;
    }
    r
}

/// Arguments for the working-tree query: `status --porcelain=v2 <files..>`,
/// the stable scripting form of the status command.
pub fn git_status_args(files: &Vec<String>) -> (r: Vec<String>)
    ensures
        r@.len() == 2 + files@.len(),
        r@[0]@ == "status"@,
        r@[1]@ == "--porcelain=v2"@,
        forall|i: int| 2 <= i < r@.len() ==> r@[i] == files@[i - 2],
{
    let mut r: Vec<String> = Vec::new();
    r.push("status".to_owned());
    r.push("--porcelain=v2".to_owned());
    let mut i: usize = 0;
    while i < files.len()
        invariant
            i <= files@.len(),
            r@.len() == 2 + i,
            r@[0]@ == "status"@,
            r@[1]@ == "--porcelain=v2"@,
            forall|j: int| 2 <= j < r@.len() ==> r@[j] == files@[j - 2],
        decreases files@.len() - i,
    {
        r.push(files[i].clone());
        i += 1;
    }
    r
}

/// Interprets the outcome of the history query: what it printed is the
/// answer; a failed query, or one that printed nothing, found no commit
/// affecting the files.
pub fn latest_commit_from_output(success: bool, printed: String) -> (r: Option<String>)
    ensures
        success && printed@.len() > 0 ==> r == Some(printed),
        !(success && printed@.len() > 0) ==> r is None,
{
    if success && !printed.as_str().is_empty() {
        Some(printed)
    } else {
        None
    }
}

/// Interprets the outcome of the repository probe: a successful probe means
/// a repository is present; a failed one carries the diagnostic to print.
pub fn repo_check(success: bool) -> (r: Result<(), String>)
    ensures
        success ==> r is Ok,
        !success ==> (r matches Err(m) && m@
            == "Not a git repository (or any of the parent directories): .git"@),
{
    if success {
        Ok(())
    } else {
        Err("Not a git repository (or any of the parent directories): .git".to_owned())
    }
}

/// True when the output of the working-tree status query is empty, which is
/// exactly when the working tree has no uncommitted changes to the queried
/// files.
pub fn working_tree_clean(status_output: &Vec<u8>) -> (r: bool)
    ensures
        r == (status_output@.len() == 0),
{
    status_output.len() == 0
}

} // verus!
