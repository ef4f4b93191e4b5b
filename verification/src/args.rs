//! Interpretation of the command line: `<filename> [--date]`, with `-v` or
//! `--version` in place of the file name to report the tool's version.

use vstd::prelude::*;

verus! {

/// What a command line asks for.
pub enum CliRequest {
    /// Wrong number of arguments: print the usage line and fail.
    Usage,
    /// Print the version and succeed.
    Version,
    /// Report the latest change of `target`, as a date when `date` is set.
    Query { target: String, date: bool },
}

/// Character-for-character equality of two string slices.
fn str_eq(a: &str, b: &str) -> (r: bool)
    ensures
        r == (a@ == b@),
{
    let left: String = a.to_owned();
    let right: String = b.to_owned();
    left == right
}

/// Reads the argument list, the program name first. Anything but two or
/// three arguments is a usage error; a version flag wins over a query; a
/// query is in date mode exactly when the third argument is `--date`.
pub fn parse_args(args: &Vec<String>) -> (r: CliRequest)
    ensures
        (args@.len() < 2 || args@.len() > 3) ==> r is Usage,
        2 <= args@.len() <= 3 && (args@[1]@ == "-v"@ || args@[1]@ == "--version"@) ==> r is Version,
        2 <= args@.len() <= 3 && args@[1]@ != "-v"@ && args@[1]@ != "--version"@ ==> (r matches
            CliRequest::Query { target, date } && target@ == args@[1]@ && date == (args@.len() == 3
            && args@[2]@ == "--date"@)),
{
    if args.len() < 2 || args.len() > 3 {
        return CliRequest::Usage;
    }
    if str_eq(args[1].as_str(), "-v") || str_eq(args[1].as_str(), "--version") {
        return CliRequest::Version;
    }
    let date: bool = if args.len() == 3 {
        str_eq(args[2].as_str(), "--date")
    } else {
        false
    };
    CliRequest::Query { target: args[1].clone(), date }
}

} // verus!
