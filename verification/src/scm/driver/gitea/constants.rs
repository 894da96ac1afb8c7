//! What is fixed about Gitea's REST interface.

use vstd::prelude::*;

verus! {

/// The address of the hosted Gitea service.
pub const GITEA_ENDPOINT: &'static str = "https://try.gitea.io";

/// The most entries that Gitea puts into one tree response.
pub const TREE_PAGE_CAP: usize = 1000;

} // verus!
