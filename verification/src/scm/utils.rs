//! Short names of refs.

use vstd::prelude::*;
use crate::text::{strip_prefix, without_prefix};

verus! {

/// The short name of a ref: `name` without a leading `refs/heads/`, and after
/// that without a leading `refs/tags/`.
pub open spec fn spec_trim_ref(name: Seq<char>) -> Seq<char> {
    strip_prefix(strip_prefix(name, "refs/heads/"@), "refs/tags/"@)
}

/// The short name of a ref.
pub fn trim_ref(name: &str) -> (short: String)
    ensures
        short@ == spec_trim_ref(name@),
{
    let branch = without_prefix(name, "refs/heads/");
    without_prefix(branch.as_str(), "refs/tags/")
}

} // verus!
