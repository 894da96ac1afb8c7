//! The normalized model of what a git hosting service knows, and the contract
//! that every backend adapter meets.

use vstd::prelude::*;
use crate::http::{Reply, ReplyView, Request, RequestView};
use crate::json::JsonView;
use crate::scm::client::{PageOptions, PageOptionsView};
use crate::scm::errors::{is_success, spec_settle, Operation, ScmError, ScmErrorView};
use crate::scm::timestamps::spec_is_rfc3339;
use crate::text::opt_text;

verus! {

/// A branch or a tag: a name that points at a commit.
#[derive(Debug, PartialEq, Eq)]
pub struct Reference {
    /// The short name, such as `main`.
    pub name: String,
    /// The full path: `refs/heads/` and the name for a branch, `refs/tags/`
    /// and the name for a tag.
    pub path: String,
    /// The id of the commit pointed at; never empty.
    pub sha: String,
}

pub struct ReferenceView {
    pub name: Seq<char>,
    pub path: Seq<char>,
    pub sha: Seq<char>,
}

impl View for Reference {
    type V = ReferenceView;

    open spec fn view(&self) -> ReferenceView {
        ReferenceView { name: self.name@, path: self.path@, sha: self.sha@ }
    }
}

impl Clone for Reference {
    fn clone(&self) -> (copy: Reference)
        ensures
            copy@ == self@,
    {
        Reference { name: self.name.clone(), path: self.path.clone(), sha: self.sha.clone() }
    }
}

/// Who wrote or committed a commit, and when.
#[derive(Debug, PartialEq, Eq)]
pub struct Signature {
    pub name: String,
    pub email: String,
    /// When it happened, as RFC 3339 writes it.
    pub date: String,
    /// The account name, where the backend knows an account for this identity.
    pub login: Option<String>,
    /// The address of the account's picture, where there is one.
    pub avatar: Option<String>,
}

pub struct SignatureView {
    pub name: Seq<char>,
    pub email: Seq<char>,
    pub date: Seq<char>,
    pub login: Option<Seq<char>>,
    pub avatar: Option<Seq<char>>,
}

impl View for Signature {
    type V = SignatureView;

    open spec fn view(&self) -> SignatureView {
        SignatureView {
            name: self.name@,
            email: self.email@,
            date: self.date@,
            login: opt_text(self.login),
            avatar: opt_text(self.avatar),
        }
    }
}

/// A commit of a repository.
#[derive(Debug, PartialEq, Eq)]
pub struct Commit {
    /// The id of the commit; never empty.
    pub sha: String,
    pub message: String,
    pub author: Signature,
    pub committer: Signature,
    /// The page that shows the commit to a person.
    pub link: String,
}

pub struct CommitView {
    pub sha: Seq<char>,
    pub message: Seq<char>,
    pub author: SignatureView,
    pub committer: SignatureView,
    pub link: Seq<char>,
}

impl View for Commit {
    type V = CommitView;

    open spec fn view(&self) -> CommitView {
        CommitView {
            sha: self.sha@,
            message: self.message@,
            author: self.author@,
            committer: self.committer@,
            link: self.link@,
        }
    }
}

/// One file or directory of a tree.
#[derive(Debug, PartialEq, Eq)]
pub struct TreeEntry {
    pub path: String,
    pub mode: String,
    /// The kind of object: `blob`, `tree` or `commit`.
    pub entry_type: String,
    /// The size in bytes; directories have none.
    pub size: Option<u64>,
    /// The id of the object; never empty.
    pub sha: String,
    pub url: String,
}

pub struct TreeEntryView {
    pub path: Seq<char>,
    pub mode: Seq<char>,
    pub entry_type: Seq<char>,
    pub size: Option<u64>,
    pub sha: Seq<char>,
    pub url: Seq<char>,
}

impl View for TreeEntry {
    type V = TreeEntryView;

    open spec fn view(&self) -> TreeEntryView {
        TreeEntryView {
            path: self.path@,
            mode: self.mode@,
            entry_type: self.entry_type@,
            size: self.size,
            sha: self.sha@,
            url: self.url@,
        }
    }
}

/// The listing of a tree at one revision.
#[derive(Debug, PartialEq, Eq)]
pub struct TreeResponse {
    /// The id of the tree; never empty.
    pub sha: String,
    pub url: String,
    /// The entries in the order the backend gave them.
    pub entries: Vec<TreeEntry>,
    /// Whether the backend left entries out. A caller that needs them all asks
    /// again, without recursion or page by page.
    pub truncated: bool,
}

pub struct TreeView {
    pub sha: Seq<char>,
    pub url: Seq<char>,
    pub entries: Seq<TreeEntryView>,
    pub truncated: bool,
}

/// The views of a run of entries, in order.
pub open spec fn entries_view(entries: Seq<TreeEntry>) -> Seq<TreeEntryView> {
    Seq::new(entries.len(), |i: int| entries[i]@)
}

impl View for TreeResponse {
    type V = TreeView;

    open spec fn view(&self) -> TreeView {
        TreeView {
            sha: self.sha@,
            url: self.url@,
            entries: entries_view(self.entries@),
            truncated: self.truncated,
        }
    }
}

/// The views of a run of references, in order.
pub open spec fn refs_view(refs: Seq<Reference>) -> Seq<ReferenceView> {
    Seq::new(refs.len(), |i: int| refs[i]@)
}

/// No two references of the run have the same name.
pub open spec fn names_distinct(refs: Seq<ReferenceView>) -> bool {
    forall|i: int, j: int| 0 <= i < j < refs.len() ==> refs[i].name != refs[j].name
}

/// The path of each reference is its name behind `prefix`.
pub open spec fn paths_are_below(refs: Seq<ReferenceView>, prefix: Seq<char>) -> bool {
    forall|i: int| 0 <= i < refs.len() ==> (#[trigger] refs[i]).path == prefix + refs[i].name
}

/// What holds of every listing an adapter returns: each reference points at a
/// commit, and no name occurs twice.
pub open spec fn listing_well_formed(refs: Seq<ReferenceView>) -> bool {
    &&& names_distinct(refs)
    &&& forall|i: int| 0 <= i < refs.len() ==> (#[trigger] refs[i]).sha.len() > 0
}

impl CommitView {
    /// The commit has an id, and its dates are written as RFC 3339 writes them.
    pub open spec fn well_formed(self) -> bool {
        &&& self.sha.len() > 0
        &&& spec_is_rfc3339(self.author.date)
        &&& spec_is_rfc3339(self.committer.date)
    }
}

impl TreeView {
    /// The tree and each of its entries have an id.
    pub open spec fn well_formed(self) -> bool {
        &&& self.sha.len() > 0
        &&& forall|i: int| 0 <= i < self.entries.len() ==> (#[trigger] self.entries[i]).sha.len() > 0
    }
}

/// The view of what a listing operation returns.
pub open spec fn listing_view(r: Result<Vec<Reference>, ScmError>) -> Result<Seq<ReferenceView>, ScmErrorView> {
    match r {
        Ok(refs) => Ok(refs_view(refs@)),
        Err(e) => Err(e@),
    }
}

/// The view of what a commit lookup returns.
pub open spec fn commit_lookup_view(r: Result<Option<Commit>, ScmError>) -> Result<Option<CommitView>, ScmErrorView> {
    match r {
        Ok(Some(c)) => Ok(Some(c@)),
        Ok(None) => Ok(None),
        Err(e) => Err(e@),
    }
}

/// The view of what a tree lookup returns.
pub open spec fn tree_lookup_view(r: Result<Option<TreeResponse>, ScmError>) -> Result<Option<TreeView>, ScmErrorView> {
    match r {
        Ok(Some(t)) => Ok(Some(t@)),
        Ok(None) => Ok(None),
        Err(e) => Err(e@),
    }
}

/// The result of a listing, given what the adapter reads in the reply's
/// document (`read`; `None` where the document is not a listing). A repository
/// that is not there has no refs; a document that cannot be read is an error,
/// never an empty listing.
pub open spec fn listing_outcome(
    reply: ReplyView,
    operation: Operation,
    repo: Seq<char>,
    read: Option<Seq<ReferenceView>>,
) -> Result<Seq<ReferenceView>, ScmErrorView> {
    match spec_settle(reply, operation, repo) {
        Err(e) => Err(e),
        Ok(None) => Ok(Seq::empty()),
        Ok(Some(_)) => match read {
            Some(refs) => Ok(refs),
            None => Err(ScmErrorView::Decode { operation, repo }),
        },
    }
}

/// The result of looking up one entity, given what the adapter reads in the
/// reply's document. An entity that is not there is absent, not an error.
pub open spec fn lookup_outcome<T>(reply: ReplyView, operation: Operation, repo: Seq<char>, read: Option<T>) -> Result<
    Option<T>,
    ScmErrorView,
> {
    match spec_settle(reply, operation, repo) {
        Err(e) => Err(e),
        Ok(None) => Ok(None),
        Ok(Some(_)) => match read {
            Some(entity) => Ok(Some(entity)),
            None => Err(ScmErrorView::Decode { operation, repo }),
        },
    }
}

/// Read access to the git data of a hosting service.
///
/// Each operation comes in two steps, so that the adapter itself never touches
/// the network: `*_request` says which GET to make, and the operation proper
/// turns the reply into the normalized result. What an adapter reads in a
/// document is its own affair (`branches_in`, `tags_in`, `commit_in`,
/// `tree_in`); how statuses are sorted is the same for all of them.
pub trait GitService {
    /// The GET that lists the branches of `repo`.
    spec fn spec_branches_request(&self, repo: Seq<char>, opts: PageOptionsView) -> RequestView;

    /// The GET that lists the tags of `repo`.
    spec fn spec_tags_request(&self, repo: Seq<char>, opts: PageOptionsView) -> RequestView;

    /// The GET that fetches the commit that `reference` names.
    spec fn spec_commit_request(&self, repo: Seq<char>, reference: Seq<char>) -> RequestView;

    /// The GET that fetches the tree `tree_sha`.
    spec fn spec_tree_request(&self, repo: Seq<char>, tree_sha: Seq<char>, recursive: Option<bool>) -> RequestView;

    /// The branches that a document lists.
    spec fn branches_in(&self, document: JsonView) -> Option<Seq<ReferenceView>>;

    /// The tags that a document lists.
    spec fn tags_in(&self, document: JsonView) -> Option<Seq<ReferenceView>>;

    /// The commit that a document describes.
    spec fn commit_in(&self, document: JsonView) -> Option<CommitView>;

    /// The tree that a document describes.
    spec fn tree_in(&self, document: JsonView) -> Option<TreeView>;

    /// Whatever an adapter reads as a listing is well formed, and the paths
    /// are the names below `refs/heads/` for branches and below `refs/tags/`
    /// for tags.
    proof fn listings_are_well_formed(&self, document: JsonView)
        ensures
            self.branches_in(document) matches Some(refs) ==> listing_well_formed(refs) && paths_are_below(
                refs,
                "refs/heads/"@,
            ),
            self.tags_in(document) matches Some(refs) ==> listing_well_formed(refs) && paths_are_below(
                refs,
                "refs/tags/"@,
            ),
    ;

    /// Whatever an adapter reads as a commit or a tree is well formed.
    proof fn entities_are_well_formed(&self, document: JsonView)
        ensures
            self.commit_in(document) matches Some(commit) ==> commit.well_formed(),
            self.tree_in(document) matches Some(tree) ==> tree.well_formed(),
    ;

    /// Says which GET lists the branches of `repo`.
    fn branches_request(&self, repo: &str, opts: &PageOptions) -> (request: Request)
        ensures
            request@ == self.spec_branches_request(repo@, opts@),
    ;

    /// Returns the branches of `repo` that `reply` lists.
    fn list_branches(&self, repo: &str, reply: &Reply) -> (r: Result<Vec<Reference>, ScmError>)
        ensures
            listing_view(r) == listing_outcome(
                reply@,
                Operation::ListBranches,
                repo@,
                match reply@.document() {
                    Some(d) => self.branches_in(d),
                    None => None,
                },
            ),
    ;

    /// Says which GET lists the tags of `repo`.
    fn tags_request(&self, repo: &str, opts: &PageOptions) -> (request: Request)
        ensures
            request@ == self.spec_tags_request(repo@, opts@),
    ;

    /// Returns the tags of `repo` that `reply` lists.
    fn list_tags(&self, repo: &str, reply: &Reply) -> (r: Result<Vec<Reference>, ScmError>)
        ensures
            listing_view(r) == listing_outcome(
                reply@,
                Operation::ListTags,
                repo@,
                match reply@.document() {
                    Some(d) => self.tags_in(d),
                    None => None,
                },
            ),
    ;

    /// Says which GET fetches the commit that `reference` names.
    fn commit_request(&self, repo: &str, reference: &str) -> (request: Request)
        ensures
            request@ == self.spec_commit_request(repo@, reference@),
    ;

    /// Returns the commit that `reply` describes, or nothing where the backend has none.
    fn find_commit(&self, repo: &str, reply: &Reply) -> (r: Result<Option<Commit>, ScmError>)
        ensures
            commit_lookup_view(r) == lookup_outcome(
                reply@,
                Operation::FindCommit,
                repo@,
                match reply@.document() {
                    Some(d) => self.commit_in(d),
                    None => None,
                },
            ),
    ;

    /// Says which GET fetches the tree `tree_sha`.
    fn tree_request(&self, repo: &str, tree_sha: &str, recursive: Option<bool>) -> (request: Request)
        ensures
            request@ == self.spec_tree_request(repo@, tree_sha@, recursive),
    ;

    /// Returns the tree that `reply` describes, or nothing where the backend has none.
    fn get_tree(&self, repo: &str, reply: &Reply) -> (r: Result<Option<TreeResponse>, ScmError>)
        ensures
            tree_lookup_view(r) == lookup_outcome(
                reply@,
                Operation::GetTree,
                repo@,
                match reply@.document() {
                    Some(d) => self.tree_in(d),
                    None => None,
                },
            ),
    ;
}

/// What `service` reads in the document of `reply` as a listing of branches:
/// the last argument of `listing_outcome` in the contract of `list_branches`.
pub open spec fn branches_read<S: GitService>(service: &S, reply: ReplyView) -> Option<Seq<ReferenceView>> {
    match reply.document() {
        Some(d) => service.branches_in(d),
        None => None,
    }
}

/// What `service` reads in the document of `reply` as a listing of tags.
pub open spec fn tags_read<S: GitService>(service: &S, reply: ReplyView) -> Option<Seq<ReferenceView>> {
    match reply.document() {
        Some(d) => service.tags_in(d),
        None => None,
    }
}

/// What `service` reads in the document of `reply` as a commit.
pub open spec fn commit_read<S: GitService>(service: &S, reply: ReplyView) -> Option<CommitView> {
    match reply.document() {
        Some(d) => service.commit_in(d),
        None => None,
    }
}

/// What `service` reads in the document of `reply` as a tree.
pub open spec fn tree_read<S: GitService>(service: &S, reply: ReplyView) -> Option<TreeView> {
    match reply.document() {
        Some(d) => service.tree_in(d),
        None => None,
    }
}

/// With every adapter, a successful answer whose body is no JSON document, or
/// not the listing asked for, makes `list_branches` and `list_tags` fail with
/// a decode error that names the operation and the repository. It is never
/// taken for a repository without refs.
pub proof fn malformed_listing_is_decode_error<S: GitService>(service: &S, repo: Seq<char>, reply: ReplyView)
    requires
        reply is Answered,
        is_success(reply->status),
    ensures
        branches_read(service, reply) is None ==> listing_outcome(
            reply,
            Operation::ListBranches,
            repo,
            branches_read(service, reply),
        ) == Err::<Seq<ReferenceView>, ScmErrorView>(
            ScmErrorView::Decode { operation: Operation::ListBranches, repo },
        ),
        tags_read(service, reply) is None ==> listing_outcome(
            reply,
            Operation::ListTags,
            repo,
            tags_read(service, reply),
        ) == Err::<Seq<ReferenceView>, ScmErrorView>(ScmErrorView::Decode { operation: Operation::ListTags, repo }),
{
}

/// With every adapter, a listing that succeeds is well formed: no name occurs
/// twice in it, every reference points at a commit, and the path of every
/// reference is `refs/heads/` and its name for a branch, `refs/tags/` and its
/// name for a tag.
pub proof fn listings_succeed_well_formed<S: GitService>(service: &S, repo: Seq<char>, reply: ReplyView)
    ensures
        listing_outcome(reply, Operation::ListBranches, repo, branches_read(service, reply)) matches Ok(refs)
            ==> listing_well_formed(refs) && paths_are_below(refs, "refs/heads/"@),
        listing_outcome(reply, Operation::ListTags, repo, tags_read(service, reply)) matches Ok(refs)
            ==> listing_well_formed(refs) && paths_are_below(refs, "refs/tags/"@),
{
    if let Some(d) = reply.document() {
        service.listings_are_well_formed(d);
    }
}

/// With every adapter, a commit or a tree that is found is well formed: it has
/// an id, the entries of a tree have one each, and the dates of a commit are
/// written as RFC 3339 writes them.
pub proof fn lookups_succeed_well_formed<S: GitService>(service: &S, repo: Seq<char>, reply: ReplyView)
    ensures
        lookup_outcome(reply, Operation::FindCommit, repo, commit_read(service, reply)) matches Ok(Some(commit))
            ==> commit.well_formed(),
        lookup_outcome(reply, Operation::GetTree, repo, tree_read(service, reply)) matches Ok(Some(tree))
            ==> tree.well_formed(),
{
    if let Some(d) = reply.document() {
        service.entities_are_well_formed(d);
    }
}

/// With every adapter, `find_commit` and `get_tree` answer a 404 with the
/// absent value and no error, and the listings answer it with no refs.
pub proof fn missing_is_absent<S: GitService>(service: &S, repo: Seq<char>, reply: ReplyView)
    requires
        reply matches ReplyView::Answered { status, .. } && status == 404,
    ensures
        lookup_outcome(reply, Operation::FindCommit, repo, commit_read(service, reply)) == Ok::<
            Option<CommitView>,
            ScmErrorView,
        >(None),
        lookup_outcome(reply, Operation::GetTree, repo, tree_read(service, reply)) == Ok::<
            Option<TreeView>,
            ScmErrorView,
        >(None),
        listing_outcome(reply, Operation::ListBranches, repo, branches_read(service, reply)) == Ok::<
            Seq<ReferenceView>,
            ScmErrorView,
        >(Seq::empty()),
        listing_outcome(reply, Operation::ListTags, repo, tags_read(service, reply)) == Ok::<
            Seq<ReferenceView>,
            ScmErrorView,
        >(Seq::empty()),
{
}

/// Asking for a tree twice with the same arguments makes the same request,
/// and replies that hold the same status, header, body and document give the
/// same result: nothing but the arguments and the reply enters into it.
pub proof fn get_tree_is_idempotent<S: GitService>(
    service: &S,
    repo: &str,
    again_repo: &str,
    tree_sha: &str,
    again_tree_sha: &str,
    recursive: Option<bool>,
    reply: Reply,
    again_reply: Reply,
)
    requires
        repo@ == again_repo@,
        tree_sha@ == again_tree_sha@,
        reply@ == again_reply@,
    ensures
        service.spec_tree_request(repo@, tree_sha@, recursive) == service.spec_tree_request(
            again_repo@,
            again_tree_sha@,
            recursive,
        ),
        lookup_outcome(reply@, Operation::GetTree, repo@, tree_read(service, reply@)) == lookup_outcome(
            again_reply@,
            Operation::GetTree,
            again_repo@,
            tree_read(service, again_reply@),
        ),
{
}

} // verus!
