//! The adapters, one per hosting service, and the choice among them.

pub mod gitea;

use vstd::prelude::*;
use crate::http::{with_trailing_slash, ClientView, Reply, Request, RequestView};
use crate::json::JsonView;
use crate::scm::client::{PageOptions, PageOptionsView};
use crate::scm::driver::gitea::constants::GITEA_ENDPOINT;
use crate::scm::driver::gitea::driver::GiteaDriver;
use crate::scm::driver::gitea::git::RefKind;
use crate::scm::errors::{ConfigError, ScmError};
use crate::scm::git::{
    Commit, CommitView, GitService, Reference, ReferenceView, TreeResponse, TreeView,
};
use crate::text::{opt_text, same_text};

verus! {

/// A handle on one hosting service. Which adapter stands behind it is decided
/// once, when the handle is built; callers use it through [`GitService`].
#[derive(Debug, PartialEq, Eq)]
pub enum Driver {
    Gitea(GiteaDriver),
}

/// The address that stands in where a caller names none.
pub open spec fn spec_endpoint(url: Option<&str>) -> Seq<char> {
    match url {
        Some(u) => u@,
        None => GITEA_ENDPOINT@,
    }
}

impl Driver {
    /// The address and token that the handle was built with.
    pub open spec fn client_view(&self) -> ClientView {
        match self {
            Driver::Gitea(driver) => driver.client@,
        }
    }

    /// Builds the driver for the provider `kind`, which is `gitea`. Without a
    /// `url` the provider's hosted service is addressed. Any other kind is
    /// refused here, before a handle exists.
    pub fn for_provider(kind: &str, url: Option<&str>, token: Option<String>) -> (r: Result<Driver, ConfigError>)
        ensures
            kind@ == "gitea"@ ==> (r matches Ok(driver) && driver is Gitea && driver.client_view() == (ClientView {
                base_url: with_trailing_slash(spec_endpoint(url)),
                token: opt_text(token),
            })),
            kind@ != "gitea"@ ==> (r matches Err(ConfigError::UnknownProvider { kind: refused }) && refused@
                == kind@),
    {
        if same_text(kind, "gitea") {
            match url {
                Some(u) => Ok(gitea::new(u, token)),
                None => Ok(gitea::new(GITEA_ENDPOINT, token)),
            }
        } else {
            Err(ConfigError::UnknownProvider { kind: kind.to_owned() })
        }
    }
}

impl GitService for Driver {
    open spec fn spec_branches_request(&self, repo: Seq<char>, opts: PageOptionsView) -> RequestView {
        match self {
            Driver::Gitea(driver) => gitea::git::spec_refs_request(driver.client@, RefKind::Branch, repo, opts),
        }
    }

    open spec fn spec_tags_request(&self, repo: Seq<char>, opts: PageOptionsView) -> RequestView {
        match self {
            Driver::Gitea(driver) => gitea::git::spec_refs_request(driver.client@, RefKind::Tag, repo, opts),
        }
    }

    open spec fn spec_commit_request(&self, repo: Seq<char>, reference: Seq<char>) -> RequestView {
        match self {
            Driver::Gitea(driver) => gitea::git::spec_commit_request(driver.client@, repo, reference),
        }
    }

    open spec fn spec_tree_request(&self, repo: Seq<char>, tree_sha: Seq<char>, recursive: Option<bool>) -> RequestView {
        match self {
            Driver::Gitea(driver) => gitea::git::spec_tree_request(driver.client@, repo, tree_sha, recursive),
        }
    }

    open spec fn branches_in(&self, document: JsonView) -> Option<Seq<ReferenceView>> {
        match self {
            Driver::Gitea(_) => gitea::git::spec_listing(RefKind::Branch, document),
        }
    }

    open spec fn tags_in(&self, document: JsonView) -> Option<Seq<ReferenceView>> {
        match self {
            Driver::Gitea(_) => gitea::git::spec_listing(RefKind::Tag, document),
        }
    }

    open spec fn commit_in(&self, document: JsonView) -> Option<CommitView> {
        match self {
            Driver::Gitea(_) => gitea::git::spec_commit(document),
        }
    }

    open spec fn tree_in(&self, document: JsonView) -> Option<TreeView> {
        match self {
            Driver::Gitea(_) => gitea::git::spec_tree(document),
        }
    }

    proof fn listings_are_well_formed(&self, document: JsonView) {
        gitea::git::lemma_listing_well_formed(RefKind::Branch, document);
        gitea::git::lemma_listing_well_formed(RefKind::Tag, document);
    }

    proof fn entities_are_well_formed(&self, document: JsonView) {
        gitea::git::lemma_entities_well_formed(document);
    }

    fn branches_request(&self, repo: &str, opts: &PageOptions) -> (request: Request) {
        match self {
            Driver::Gitea(driver) => gitea::git::refs_request(&driver.client, RefKind::Branch, repo, opts),
        }
    }

    fn list_branches(&self, repo: &str, reply: &Reply) -> (r: Result<Vec<Reference>, ScmError>) {
        match self {
            Driver::Gitea(_) => gitea::git::list_refs(RefKind::Branch, repo, reply),
        }
    }

    fn tags_request(&self, repo: &str, opts: &PageOptions) -> (request: Request) {
        match self {
            Driver::Gitea(driver) => gitea::git::refs_request(&driver.client, RefKind::Tag, repo, opts),
        }
    }

    fn list_tags(&self, repo: &str, reply: &Reply) -> (r: Result<Vec<Reference>, ScmError>) {
        match self {
            Driver::Gitea(_) => gitea::git::list_refs(RefKind::Tag, repo, reply),
        }
    }

    fn commit_request(&self, repo: &str, reference: &str) -> (request: Request) {
        match self {
            Driver::Gitea(driver) => gitea::git::commit_request(&driver.client, repo, reference),
        }
    }

    fn find_commit(&self, repo: &str, reply: &Reply) -> (r: Result<Option<Commit>, ScmError>) {
        match self {
            Driver::Gitea(_) => gitea::git::find_commit(repo, reply),
        }
    }

    fn tree_request(&self, repo: &str, tree_sha: &str, recursive: Option<bool>) -> (request: Request) {
        match self {
            Driver::Gitea(driver) => gitea::git::tree_request(&driver.client, repo, tree_sha, recursive),
        }
    }

    fn get_tree(&self, repo: &str, reply: &Reply) -> (r: Result<Option<TreeResponse>, ScmError>) {
        match self {
            Driver::Gitea(_) => gitea::git::get_tree(repo, reply),
        }
    }
}

} // verus!
