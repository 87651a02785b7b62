//! The command surface: parsed invocations and the validation rules the
//! command-line layer applies before running a transaction.

use vstd::prelude::*;
use vstd::string::StrSliceExecFns;

use crate::manifest::ModID;

verus! {

/// How a removal target is specified on the command line.
#[derive(Debug)]
pub enum RemoveArg {
    Guided,
    ModID(ModID),
    Unknown,
}

/// A parsed command-line invocation.
#[derive(Debug)]
pub enum Subcommand {
    Get(String, Option<usize>),
    Remove(RemoveArg),
    List { full: bool },
    Unknown,
}

/// Whether a search query is acceptable: at least 3 characters long.
pub fn query_long_enough(query: &str) -> (r: bool)
    ensures
        r == (query@.len() >= 3),
{
    query.unicode_len() >= 3
}

/// The result-count limit handed to the catalog: one more than the requested
/// limit, or one more than the default of 10.
pub fn search_limit(limit: Option<usize>) -> (r: usize)
    requires
        limit matches Some(l) ==> l < usize::MAX,
    ensures
        r == (match limit {
            Some(l) => l + 1,
            None => 11,
        }),
{
    match limit {
        Some(l) => l + 1,
        None => 11,
    }
}

} // verus!
