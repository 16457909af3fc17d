//! What the build knows of itself.

use crate::text::{pieces, split_on};
use vstd::prelude::*;
use vstd::string::StringExecFns;

verus! {

/// The build profile that an output directory of the build belongs to: the
/// fourth name from the end of its path, read along the separator `/`, and
/// `unknown` for a path that is too short to have one.
pub open spec fn profile_of(out_dir: Seq<char>) -> Seq<char> {
    let names = pieces(out_dir, '/');
    if names.len() >= 4 {
        names[names.len() - 4]
    } else {
        "unknown"@
    }
}

/// Names the build profile, given the output directory of the build.
pub fn profile(out_dir: &str) -> (name: String)
    ensures
        name@ == profile_of(out_dir@),
{
    let mut names = split_on(out_dir, '/');
    if names.len() >= 4 {
        let place = names.len() - 4;
        names.swap_remove(place)
    } else {
        String::from_str("unknown")
    }
}

} // verus!
