//! How the environment of the bundled USD runtime is put together.

use vstd::prelude::*;
use crate::text::concat3;

verus! {

/// A list of directories for a search path variable with `dir` put first:
/// `dir`, a colon and what the variable held, or `dir` alone where it held
/// nothing.
pub open spec fn search_path_text(dir: Seq<char>, current: Option<Seq<char>>) -> Seq<char> {
    match current {
        Some(rest) => dir + ":"@ + rest,
        None => dir,
    }
}

/// Puts `dir` first in a search path.
pub fn search_path(dir: &str, current: Option<&str>) -> (list: String)
    ensures
        list@ == search_path_text(
            dir@,
            match current {
                Some(rest) => Some(rest@),
                None => None,
            },
        ),
{
    match current {
        Some(rest) => concat3(dir, ":", rest),
        None => dir.to_owned(),
    }
}

} // verus!
