//! Which files a history query covers: the target file together with its
//! declared dependencies, or, when none are declared, the whole directory
//! that contains the target.

use vstd::prelude::*;

verus! {

/// The list of paths the history queries are made over. With declared
/// dependencies it is the target file followed by each of them, in order;
/// without, it is the base directory alone, so the query covers the whole
/// directory and its subdirectories.
pub fn monitored_files(filename: &str, dependencies: Option<Vec<String>>, base_directory: &str) -> (r:
    Vec<String>)
    ensures
        dependencies matches Some(deps) ==> r@.len() == 1 + deps@.len() && r@[0]@ == filename@
            && (forall|i: int| 1 <= i < r@.len() ==> r@[i] == deps@[i - 1]),
        dependencies is None ==> r@.len() == 1 && r@[0]@ == base_directory@,
{
    match dependencies {
        Some(deps) => {
            let mut r: Vec<String> = Vec::new();
            r.push(filename.to_owned());
            let mut i: usize = 0;
            while i < deps.len()
                invariant
                    i <= deps@.len(),
                    r@.len() == 1 + i,
                    r@[0]@ == filename@,
                    forall|j: int| 1 <= j < r@.len() ==> r@[j] == deps@[j - 1],
                decreases deps@.len() - i,
            {
                r.push(deps[i].clone());
                i += 1;
            }
            r
        },
        None => {
            let mut r: Vec<String> = Vec::new();
            r.push(base_directory.to_owned());
            r
        },
    }
}

} // verus!
