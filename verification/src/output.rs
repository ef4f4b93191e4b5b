//! The single line the tool prints on success.

use vstd::prelude::*;
use vstd::string::StringExecFns;

verus! {

/// The line printed for a found commit: the commit text, with the dirty
/// marker appended when the tool is in hash mode and the working tree is
/// not clean.
pub open spec fn printed_line(commit: Seq<char>, date: bool, clean: bool) -> Seq<char> {
    if !date && !clean {
        commit + " DIRTY"@
    } else {
        commit
    }
}

/// In hash mode the printed line carries the dirty marker exactly when the
/// working tree is not clean.
pub proof fn lemma_marker_iff_dirty(commit: Seq<char>, clean: bool)
    ensures
        (printed_line(commit, false, clean) == commit + " DIRTY"@) <==> !clean,
{
    reveal_strlit(" DIRTY");
    if clean {
        assert(" DIRTY"@.len() == 6);
        assert(printed_line(commit, false, clean).len() == commit.len());
        assert((commit + " DIRTY"@).len() == commit.len() + 6);
    }
}

/// Date mode never carries the marker: the line is the date text as found.
pub proof fn lemma_date_mode_bare(commit: Seq<char>, clean: bool)
    ensures
        printed_line(commit, true, clean) == commit,
{
}

/// Renders the printed line for a found commit.
pub fn render_output(commit: String, date: bool, clean: bool) -> (r: String)
    ensures
        r@ == printed_line(commit@, date, clean),
{
    let mut line = commit;
    if !date && !clean {
        line.append(" DIRTY");
    }
    line
}

} // verus!
