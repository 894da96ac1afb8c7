//! The Gitea driver: one client, and the services that use it.

use vstd::prelude::*;
use crate::http::Client;
use crate::scm::driver::gitea::git::GiteaGitService;

verus! {

/// Everything that can be asked of one Gitea instance.
#[derive(Debug, PartialEq, Eq)]
pub struct GiteaDriver {
    pub client: Client,
}

impl GiteaDriver {
    /// The git service of this instance.
    pub fn git(&self) -> (service: GiteaGitService)
        ensures
            service.client@ == self.client@,
    {
        GiteaGitService { client: self.client.clone() }
    }
}

} // verus!
