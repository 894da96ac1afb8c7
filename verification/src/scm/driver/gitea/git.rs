//! Branches, tags, commits and trees as Gitea serves them.

use vstd::prelude::*;
use vstd::string::StringExecFns;
use crate::http::{
    AuthScheme, Client, ClientView, QueryParam, QueryParamView, QueryValue, QueryValueView,
    Reply, Request, RequestView, query_view,
};
use crate::json::{opt_json, Json, JsonView};
use crate::scm::client::{PageOptions, PageOptionsView};
use crate::scm::driver::gitea::constants::TREE_PAGE_CAP;
use crate::scm::errors::{settle, Operation, ScmError};
use crate::scm::git::{
    commit_lookup_view, entries_view, listing_outcome, listing_view, listing_well_formed,
    lookup_outcome, names_distinct, paths_are_below, refs_view, tree_lookup_view, Commit, CommitView, GitService,
    Reference, ReferenceView, Signature, SignatureView, TreeEntry, TreeEntryView, TreeResponse,
    TreeView,
};
use crate::scm::utils::{spec_trim_ref, trim_ref};
use crate::scm::pages::contains_name;
use crate::scm::timestamps::{is_rfc3339, spec_is_rfc3339};
use crate::text::{joined, opt_text, strip_prefix, without_prefix};

verus! {

/// The two kinds of ref that Gitea lists.
#[derive(Clone, Copy, Debug, PartialEq, Eq, Structural)]
pub enum RefKind {
    Branch,
    Tag,
}

impl RefKind {
    /// Where refs of this kind live.
    pub open spec fn spec_prefix(self) -> Seq<char> {
        match self {
            RefKind::Branch => "refs/heads/"@,
            RefKind::Tag => "refs/tags/"@,
        }
    }

    /// The member of the `commit` object that holds the commit's id.
    pub open spec fn spec_sha_key(self) -> Seq<char> {
        match self {
            RefKind::Branch => "id"@,
            RefKind::Tag => "sha"@,
        }
    }

    /// The end of the path that lists refs of this kind.
    pub open spec fn spec_tail(self) -> Seq<char> {
        match self {
            RefKind::Branch => "/branches"@,
            RefKind::Tag => "/tags"@,
        }
    }

    /// The operation that lists refs of this kind.
    pub open spec fn spec_operation(self) -> Operation {
        match self {
            RefKind::Branch => Operation::ListBranches,
            RefKind::Tag => Operation::ListTags,
        }
    }

    pub fn prefix(&self) -> (p: &'static str)
        ensures
            p@ == self.spec_prefix(),
    {
        match self {
            RefKind::Branch => "refs/heads/",
            RefKind::Tag => "refs/tags/",
        }
    }

    pub fn sha_key(&self) -> (k: &'static str)
        ensures
            k@ == self.spec_sha_key(),
    {
        match self {
            RefKind::Branch => "id",
            RefKind::Tag => "sha",
        }
    }

    pub fn tail(&self) -> (t: &'static str)
        ensures
            t@ == self.spec_tail(),
    {
        match self {
            RefKind::Branch => "/branches",
            RefKind::Tag => "/tags",
        }
    }

    pub fn operation(&self) -> (op: Operation)
        ensures
            op == self.spec_operation(),
    {
        match self {
            RefKind::Branch => Operation::ListBranches,
            RefKind::Tag => Operation::ListTags,
        }
    }
}

/// The path of a resource of `repo`, below the base address.
pub open spec fn repo_path(repo: Seq<char>, tail: Seq<char>) -> Seq<char> {
    "api/v1/repos/"@ + repo + tail
}

/// The query parameters that select a page: `page` and `limit`, each only
/// where the caller set it. Gitea counts pages and hands out no cursor, so a
/// cursor is not sent.
pub open spec fn page_query(opts: PageOptionsView) -> Seq<QueryParamView> {
    let page = match opts.page {
        Some(n) => seq![QueryParamView { name: "page"@, value: QueryValueView::Number(n) }],
        None => Seq::<QueryParamView>::empty(),
    };
    let limit = match opts.size {
        Some(n) => seq![QueryParamView { name: "limit"@, value: QueryValueView::Number(n) }],
        None => Seq::<QueryParamView>::empty(),
    };
    page + limit
}

/// The query parameters of a tree request: `recursive=true` where recursion is asked for.
pub open spec fn tree_query(recursive: Option<bool>) -> Seq<QueryParamView> {
    if recursive == Some(true) {
        seq![QueryParamView { name: "recursive"@, value: QueryValueView::Flag(true) }]
    } else {
        Seq::<QueryParamView>::empty()
    }
}

/// The GET that lists the refs of one kind.
pub open spec fn spec_refs_request(client: ClientView, kind: RefKind, repo: Seq<char>, opts: PageOptionsView) -> RequestView {
    client.get(repo_path(repo, kind.spec_tail()), page_query(opts), AuthScheme::Bearer)
}

/// The GET that fetches one commit. A full ref path is cut down to its short name.
pub open spec fn spec_commit_request(client: ClientView, repo: Seq<char>, reference: Seq<char>) -> RequestView {
    client.get(
        repo_path(repo, "/git/commits/"@) + spec_trim_ref(reference),
        Seq::<QueryParamView>::empty(),
        AuthScheme::Bearer,
    )
}

/// The GET that fetches one tree.
pub open spec fn spec_tree_request(client: ClientView, repo: Seq<char>, tree_sha: Seq<char>, recursive: Option<bool>) -> RequestView {
    client.get(repo_path(repo, "/git/trees/"@) + tree_sha, tree_query(recursive), AuthScheme::Bearer)
}

/// The path of a resource of `repo`.
pub fn path_of(repo: &str, tail: &str) -> (path: String)
    ensures
        path@ == repo_path(repo@, tail@),
{
    let mut path = String::from_str("api/v1/repos/");
    path.append(repo);
    path.append(tail);
    path
}

/// Says which GET lists the refs of `kind`.
pub fn refs_request(client: &Client, kind: RefKind, repo: &str, opts: &PageOptions) -> (request: Request)
    ensures
        request@ == spec_refs_request(client@, kind, repo@, opts@),
{
    let mut query: Vec<QueryParam> = Vec::new();
    if let Some(n) = opts.page {
        query.push(QueryParam { name: String::from_str("page"), value: QueryValue::Number(n) });
    }
    if let Some(n) = opts.size {
        query.push(QueryParam { name: String::from_str("limit"), value: QueryValue::Number(n) });
    }
    assert(query_view(query@) =~= page_query(opts@));
    let path = path_of(repo, kind.tail());
    client.get(path.as_str(), query, AuthScheme::Bearer)
}

/// Says which GET fetches the commit that `reference` names.
pub fn commit_request(client: &Client, repo: &str, reference: &str) -> (request: Request)
    ensures
        request@ == spec_commit_request(client@, repo@, reference@),
{
    let mut path = path_of(repo, "/git/commits/");
    let short = trim_ref(reference);
    path.append(short.as_str());
    let query: Vec<QueryParam> = Vec::new();
    assert(query_view(query@) =~= Seq::<QueryParamView>::empty());
    client.get(path.as_str(), query, AuthScheme::Bearer)
}

/// Says which GET fetches the tree `tree_sha`.
pub fn tree_request(client: &Client, repo: &str, tree_sha: &str, recursive: Option<bool>) -> (request: Request)
    ensures
        request@ == spec_tree_request(client@, repo@, tree_sha@, recursive),
{
    let mut path = path_of(repo, "/git/trees/");
    path.append(tree_sha);
    let mut query: Vec<QueryParam> = Vec::new();
    if let Some(true) = recursive {
        query.push(QueryParam { name: String::from_str("recursive"), value: QueryValue::Flag(true) });
    }
    assert(query_view(query@) =~= tree_query(recursive));
    client.get(path.as_str(), query, AuthScheme::Bearer)
}

/// The short name that an item's `name` gives: the name without the prefix
/// of its own kind, where it has it. Nothing else is cut: a branch that is
/// called `refs/tags/v1` keeps that name.
pub open spec fn spec_short_name(kind: RefKind, name: Seq<char>) -> Seq<char> {
    strip_prefix(name, kind.spec_prefix())
}

/// The reference that one item of a listing describes: the short name that
/// its `name` gives, the path of that name below the prefix of the kind, and
/// the id under `commit`, which must not be empty.
pub open spec fn spec_reference(kind: RefKind, item: JsonView) -> Option<ReferenceView> {
    match (item.text_member("name"@), item.member("commit"@)) {
        (Some(name), Some(commit)) => match commit.text_member(kind.spec_sha_key()) {
            Some(sha) => if sha.len() > 0 {
                Some(
                    ReferenceView {
                        name: spec_short_name(kind, name),
                        path: kind.spec_prefix() + spec_short_name(kind, name),
                        sha,
                    },
                )
            } else {
                None
            },
            None => None,
        },
        _ => None,
    }
}

/// The references that the items describe, in order; nothing where an item
/// describes none, or where two of them have the same name.
pub open spec fn spec_references(kind: RefKind, items: Seq<JsonView>) -> Option<Seq<ReferenceView>> {
    let refs = Seq::new(items.len(), |i: int| spec_reference(kind, items[i]).unwrap());
    if (forall|i: int| 0 <= i < items.len() ==> (#[trigger] spec_reference(kind, items[i])) is Some)
        && names_distinct(refs) {
        Some(refs)
    } else {
        None
    }
}

/// The listing that a document holds: an array of items that each describe a reference.
pub open spec fn spec_listing(kind: RefKind, document: JsonView) -> Option<Seq<ReferenceView>> {
    match document.items() {
        Some(items) => spec_references(kind, items),
        None => None,
    }
}

/// The view of an optional reference.
pub open spec fn opt_reference(r: Option<Reference>) -> Option<ReferenceView> {
    match r {
        Some(reference) => Some(reference@),
        None => None,
    }
}

/// Reads one item of a listing.
pub fn read_reference(kind: RefKind, item: &Json) -> (r: Option<Reference>)
    ensures
        opt_reference(r) == spec_reference(kind, item@),
{
    let name = match item.text_member("name") {
        Some(name) => name,
        None => {
            return None;
        },
    };
    let commit = match item.member("commit") {
        Some(commit) => commit,
        None => {
            return None;
        },
    };
    let sha = match commit.text_member(kind.sha_key()) {
        Some(sha) => sha,
        None => {
            return None;
        },
    };
    if sha.as_str().is_empty() {
        return None;
    }
    let short = without_prefix(name.as_str(), kind.prefix());
    let path = joined(kind.prefix(), short.as_str());
    Some(Reference { name: short, path, sha })
}

/// The view of an optional listing.
pub open spec fn opt_refs(r: Option<Vec<Reference>>) -> Option<Seq<ReferenceView>> {
    match r {
        Some(refs) => Some(refs_view(refs@)),
        None => None,
    }
}

/// Reads the items of a listing.
pub fn read_references(kind: RefKind, items: &Vec<Json>) -> (r: Option<Vec<Reference>>)
    ensures
        opt_refs(r) == spec_references(kind, Seq::new(items@.len(), |i: int| items@[i]@)),
{
    let ghost views = Seq::new(items@.len(), |i: int| items@[i]@);
    let ghost all = Seq::new(views.len(), |i: int| spec_reference(kind, views[i]).unwrap());
    let mut refs: Vec<Reference> = Vec::new();
    let mut i: usize = 0;
    while i < items.len()
        invariant
            i <= items.len(),
            views == Seq::new(items@.len(), |i: int| items@[i]@),
            all == Seq::new(views.len(), |i: int| spec_reference(kind, views[i]).unwrap()),
            refs@.len() == i,
            forall|k: int| 0 <= k < i ==> (#[trigger] spec_reference(kind, views[k])) is Some,
            forall|k: int| 0 <= k < i ==> (#[trigger] refs@[k])@ == all[k],
            forall|a: int, b: int| 0 <= a < b < i ==> all[a].name != all[b].name,
        decreases items.len() - i,
    {
        match read_reference(kind, &items[i]) {
            None => {
                assert(spec_reference(kind, views[i as int]) is None);
                return None;
            },
            Some(reference) => {
                if contains_name(&refs, reference.name.as_str()) {
                    proof {
                        let k = choose|k: int|
                            0 <= k < refs@.len() && (#[trigger] refs_view(refs@)[k]).name == reference.name@;
                        assert(refs@[k]@ == all[k]);
                        assert(all[k].name == all[i as int].name);
                    }
                    return None;
                }
                assert forall|a: int, b: int| 0 <= a < b < i + 1 implies all[a].name != all[b].name by {
                    if b == i {
                        assert(refs_view(refs@)[a] == all[a]);
                    }
                }
                refs.push(reference);
            },
        }
        i = i + 1;
    }
    assert(refs_view(refs@) =~= all);
    Some(refs)
}

/// Reads the listing that a document holds.
pub fn read_listing(kind: RefKind, document: &Json) -> (r: Option<Vec<Reference>>)
    ensures
        opt_refs(r) == spec_listing(kind, document@),
{
    match document.as_array() {
        Some(items) => {
            assert(document@.items().unwrap() =~= Seq::new(items@.len(), |i: int| items@[i]@));
            read_references(kind, items)
        },
        None => None,
    }
}

/// Returns the refs of `kind` that `reply` lists.
pub fn list_refs(kind: RefKind, repo: &str, reply: &Reply) -> (r: Result<Vec<Reference>, ScmError>)
    ensures
        listing_view(r) == listing_outcome(
            reply@,
            kind.spec_operation(),
            repo@,
            match reply@.document() {
                Some(d) => spec_listing(kind, d),
                None => None,
            },
        ),
{
    match settle(reply, kind.operation(), repo) {
        Err(e) => Err(e),
        Ok(None) => {
            let refs: Vec<Reference> = Vec::new();
            assert(refs_view(refs@) =~= Seq::<ReferenceView>::empty());
            Ok(refs)
        },
        Ok(Some(document)) => match read_listing(kind, document) {
            Some(refs) => Ok(refs),
            None => Err(ScmError::Decode { operation: kind.operation(), repo: repo.to_owned() }),
        },
    }
}

/// A listing that Gitea's documents yield has distinct names and no empty
/// id, and the path of each reference is its name below the prefix of the kind.
pub proof fn lemma_listing_well_formed(kind: RefKind, document: JsonView)
    ensures
        spec_listing(kind, document) matches Some(refs) ==> listing_well_formed(refs) && paths_are_below(
            refs,
            kind.spec_prefix(),
        ),
{
    if let Some(refs) = spec_listing(kind, document) {
        let items = document.items().unwrap();
        assert forall|i: int| 0 <= i < refs.len() implies (#[trigger] refs[i]).sha.len() > 0 && refs[i].path
            == kind.spec_prefix() + refs[i].name by {
            assert(spec_reference(kind, items[i]) is Some);
        }
    }
}

/// The text of the member `key` of an account, where the account is there and
/// the text is not empty. An identity without an account has no such text.
pub open spec fn spec_account_text(account: Option<JsonView>, key: Seq<char>) -> Option<Seq<char>> {
    match account {
        Some(a) => match a.text_member(key) {
            Some(t) => if t.len() > 0 {
                Some(t)
            } else {
                None
            },
            None => None,
        },
        None => None,
    }
}

/// The signature that `identity` (name, email and date of the git commit) and
/// `account` (the registered user, where Gitea found one) describe. The date
/// is taken only as RFC 3339 writes it, which is how Gitea writes dates.
pub open spec fn spec_signature(identity: JsonView, account: Option<JsonView>) -> Option<SignatureView> {
    match (identity.text_member("name"@), identity.text_member("email"@), identity.text_member("date"@)) {
        (Some(name), Some(email), Some(date)) => if spec_is_rfc3339(date) {
            Some(
                SignatureView {
                    name,
                    email,
                    date,
                    login: spec_account_text(account, "login"@),
                    avatar: spec_account_text(account, "avatar_url"@),
                },
            )
        } else {
            None
        },
        _ => None,
    }
}

/// The commit that a document describes: `sha` (not empty), `html_url`, and
/// under `commit` the `message`, the `author` and the `committer`; the
/// accounts, where there are any, stand beside `commit` under `author` and
/// `committer`.
pub open spec fn spec_commit(document: JsonView) -> Option<CommitView> {
    match (document.text_member("sha"@), document.text_member("html_url"@), document.member("commit"@)) {
        (Some(sha), Some(link), Some(details)) => match (
            details.text_member("message"@),
            details.member("author"@),
            details.member("committer"@),
        ) {
            (Some(message), Some(author), Some(committer)) => match (
                spec_signature(author, document.present("author"@)),
                spec_signature(committer, document.present("committer"@)),
            ) {
                (Some(author), Some(committer)) => if sha.len() > 0 {
                    Some(CommitView { sha, message, author, committer, link })
                } else {
                    None
                },
                _ => None,
            },
            _ => None,
        },
        _ => None,
    }
}

/// Reads one text of an account.
pub fn read_account_text(account: Option<&Json>, key: &str) -> (text: Option<String>)
    ensures
        opt_text(text) == spec_account_text(opt_json(account), key@),
{
    match account {
        Some(a) => match a.text_member(key) {
            Some(t) => if t.as_str().is_empty() {
                None
            } else {
                Some(t)
            },
            None => None,
        },
        None => None,
    }
}

/// The view of an optional signature.
pub open spec fn opt_signature(s: Option<Signature>) -> Option<SignatureView> {
    match s {
        Some(signature) => Some(signature@),
        None => None,
    }
}

/// Reads a signature.
pub fn read_signature(identity: &Json, account: Option<&Json>) -> (r: Option<Signature>)
    ensures
        opt_signature(r) == spec_signature(identity@, opt_json(account)),
{
    let name = match identity.text_member("name") {
        Some(t) => t,
        None => {
            return None;
        },
    };
    let email = match identity.text_member("email") {
        Some(t) => t,
        None => {
            return None;
        },
    };
    let date = match identity.text_member("date") {
        Some(t) => t,
        None => {
            return None;
        },
    };
    if !is_rfc3339(date.as_str()) {
        return None;
    }
    let login = read_account_text(account, "login");
    let avatar = read_account_text(account, "avatar_url");
    Some(Signature { name, email, date, login, avatar })
}

/// The view of an optional commit.
pub open spec fn opt_commit(c: Option<Commit>) -> Option<CommitView> {
    match c {
        Some(commit) => Some(commit@),
        None => None,
    }
}

/// Reads the commit that a document describes.
pub fn read_commit(document: &Json) -> (r: Option<Commit>)
    ensures
        opt_commit(r) == spec_commit(document@),
{
    let sha = match document.text_member("sha") {
        Some(t) => t,
        None => {
            return None;
        },
    };
    let link = match document.text_member("html_url") {
        Some(t) => t,
        None => {
            return None;
        },
    };
    let details = match document.member("commit") {
        Some(d) => d,
        None => {
            return None;
        },
    };
    let message = match details.text_member("message") {
        Some(t) => t,
        None => {
            return None;
        },
    };
    let author_identity = match details.member("author") {
        Some(j) => j,
        None => {
            return None;
        },
    };
    let committer_identity = match details.member("committer") {
        Some(j) => j,
        None => {
            return None;
        },
    };
    let author = match read_signature(author_identity, document.present("author")) {
        Some(s) => s,
        None => {
            return None;
        },
    };
    let committer = match read_signature(committer_identity, document.present("committer")) {
        Some(s) => s,
        None => {
            return None;
        },
    };
    if sha.as_str().is_empty() {
        return None;
    }
    Some(Commit { sha, message, author, committer, link })
}

/// Returns the commit that `reply` describes, or nothing where Gitea has none.
pub fn find_commit(repo: &str, reply: &Reply) -> (r: Result<Option<Commit>, ScmError>)
    ensures
        commit_lookup_view(r) == lookup_outcome(
            reply@,
            Operation::FindCommit,
            repo@,
            match reply@.document() {
                Some(d) => spec_commit(d),
                None => None,
            },
        ),
{
    match settle(reply, Operation::FindCommit, repo) {
        Err(e) => Err(e),
        Ok(None) => Ok(None),
        Ok(Some(document)) => match read_commit(document) {
            Some(commit) => Ok(Some(commit)),
            None => Err(ScmError::Decode { operation: Operation::FindCommit, repo: repo.to_owned() }),
        },
    }
}

/// The size that an entry states: none where `size` is missing or `null`, the
/// number where it is a non-negative integer. Anything else is malformed
/// (the outer `None`).
pub open spec fn spec_size(entry: JsonView) -> Option<Option<u64>> {
    match entry.present("size"@) {
        None => Some(None),
        Some(JsonView::Unsigned(n)) => Some(Some(n)),
        Some(_) => None,
    }
}

/// The entry that one item of a tree describes.
pub open spec fn spec_entry(item: JsonView) -> Option<TreeEntryView> {
    match (
        item.text_member("path"@),
        item.text_member("mode"@),
        item.text_member("type"@),
        item.text_member("sha"@),
        item.text_member("url"@),
        spec_size(item),
    ) {
        (Some(path), Some(mode), Some(entry_type), Some(sha), Some(url), Some(size)) => if sha.len() > 0 {
            Some(TreeEntryView { path, mode, entry_type, size, sha, url })
        } else {
            None
        },
        _ => None,
    }
}

/// The entries that the items describe, in order; nothing where an item describes none.
pub open spec fn spec_entries(items: Seq<JsonView>) -> Option<Seq<TreeEntryView>> {
    if forall|i: int| 0 <= i < items.len() ==> (#[trigger] spec_entry(items[i])) is Some {
        Some(Seq::new(items.len(), |i: int| spec_entry(items[i]).unwrap()))
    } else {
        None
    }
}

/// Whether a tree of `count` entries was cut short. Gitea's own word counts
/// where it gives one. Where it gives none, the tree counts as complete only
/// if it holds fewer entries than Gitea puts into one response.
pub open spec fn spec_truncated(document: JsonView, count: nat) -> Option<bool> {
    match document.present("truncated"@) {
        None => Some(count >= TREE_PAGE_CAP),
        Some(JsonView::Bool(b)) => Some(b),
        Some(_) => None,
    }
}

/// The tree that a document describes: `sha` (not empty), `url`, the entries
/// under `tree`, and whether it was cut short.
pub open spec fn spec_tree(document: JsonView) -> Option<TreeView> {
    match (document.text_member("sha"@), document.text_member("url"@), document.member("tree"@)) {
        (Some(sha), Some(url), Some(JsonView::Array(items))) => match spec_entries(items) {
            Some(entries) => match spec_truncated(document, entries.len()) {
                Some(truncated) => if sha.len() > 0 {
                    Some(TreeView { sha, url, entries, truncated })
                } else {
                    None
                },
                None => None,
            },
            None => None,
        },
        _ => None,
    }
}

/// Reads the size of an entry.
pub fn read_size(entry: &Json) -> (size: Option<Option<u64>>)
    ensures
        size == spec_size(entry@),
{
    match entry.present("size") {
        None => Some(None),
        Some(Json::Unsigned(n)) => Some(Some(*n)),
        Some(_) => None,
    }
}

/// The view of an optional entry.
pub open spec fn opt_entry(e: Option<TreeEntry>) -> Option<TreeEntryView> {
    match e {
        Some(entry) => Some(entry@),
        None => None,
    }
}

/// Reads one item of a tree.
pub fn read_entry(item: &Json) -> (r: Option<TreeEntry>)
    ensures
        opt_entry(r) == spec_entry(item@),
{
    let path = match item.text_member("path") {
        Some(t) => t,
        None => {
            return None;
        },
    };
    let mode = match item.text_member("mode") {
        Some(t) => t,
        None => {
            return None;
        },
    };
    let entry_type = match item.text_member("type") {
        Some(t) => t,
        None => {
            return None;
        },
    };
    let sha = match item.text_member("sha") {
        Some(t) => t,
        None => {
            return None;
        },
    };
    let url = match item.text_member("url") {
        Some(t) => t,
        None => {
            return None;
        },
    };
    let size = match read_size(item) {
        Some(size) => size,
        None => {
            return None;
        },
    };
    if sha.as_str().is_empty() {
        return None;
    }
    Some(TreeEntry { path, mode, entry_type, size, sha, url })
}

/// The view of an optional run of entries.
pub open spec fn opt_entries(r: Option<Vec<TreeEntry>>) -> Option<Seq<TreeEntryView>> {
    match r {
        Some(entries) => Some(entries_view(entries@)),
        None => None,
    }
}

/// Reads the items of a tree.
pub fn read_entries(items: &Vec<Json>) -> (r: Option<Vec<TreeEntry>>)
    ensures
        opt_entries(r) == spec_entries(Seq::new(items@.len(), |i: int| items@[i]@)),
{
    let ghost views = Seq::new(items@.len(), |i: int| items@[i]@);
    let mut entries: Vec<TreeEntry> = Vec::new();
    let mut i: usize = 0;
    while i < items.len()
        invariant
            i <= items.len(),
            views == Seq::new(items@.len(), |i: int| items@[i]@),
            entries@.len() == i,
            forall|k: int| 0 <= k < i ==> (#[trigger] spec_entry(views[k])) is Some,
            forall|k: int| 0 <= k < i ==> (#[trigger] entries@[k])@ == spec_entry(views[k]).unwrap(),
        decreases items.len() - i,
    {
        match read_entry(&items[i]) {
            None => {
                assert(spec_entry(views[i as int]) is None);
                return None;
            },
            Some(entry) => {
                entries.push(entry);
            },
        }
        i = i + 1;
    }
    assert(entries_view(entries@) =~= Seq::new(views.len(), |i: int| spec_entry(views[i]).unwrap()));
    Some(entries)
}

/// Decides whether a tree of `count` entries was cut short.
pub fn read_truncated(document: &Json, count: usize) -> (r: Option<bool>)
    ensures
        r == spec_truncated(document@, count as nat),
{
    match document.present("truncated") {
        None => Some(count >= TREE_PAGE_CAP),
        Some(Json::Bool(b)) => Some(*b),
        Some(_) => None,
    }
}

/// The view of an optional tree.
pub open spec fn opt_tree(t: Option<TreeResponse>) -> Option<TreeView> {
    match t {
        Some(tree) => Some(tree@),
        None => None,
    }
}

/// Reads the tree that a document describes.
pub fn read_tree(document: &Json) -> (r: Option<TreeResponse>)
    ensures
        opt_tree(r) == spec_tree(document@),
{
    let sha = match document.text_member("sha") {
        Some(t) => t,
        None => {
            return None;
        },
    };
    let url = match document.text_member("url") {
        Some(t) => t,
        None => {
            return None;
        },
    };
    let listed = match document.member("tree") {
        Some(j) => j,
        None => {
            return None;
        },
    };
    let items = match listed.as_array() {
        Some(items) => items,
        None => {
            return None;
        },
    };
    assert(listed@.items().unwrap() =~= Seq::new(items@.len(), |i: int| items@[i]@));
    let entries = match read_entries(items) {
        Some(entries) => entries,
        None => {
            return None;
        },
    };
    let truncated = match read_truncated(document, entries.len()) {
        Some(b) => b,
        None => {
            return None;
        },
    };
    if sha.as_str().is_empty() {
        return None;
    }
    Some(TreeResponse { sha, url, entries, truncated })
}

/// Returns the tree that `reply` describes, or nothing where Gitea has none.
pub fn get_tree(repo: &str, reply: &Reply) -> (r: Result<Option<TreeResponse>, ScmError>)
    ensures
        tree_lookup_view(r) == lookup_outcome(
            reply@,
            Operation::GetTree,
            repo@,
            match reply@.document() {
                Some(d) => spec_tree(d),
                None => None,
            },
        ),
{
    match settle(reply, Operation::GetTree, repo) {
        Err(e) => Err(e),
        Ok(None) => Ok(None),
        Ok(Some(document)) => match read_tree(document) {
            Some(tree) => Ok(Some(tree)),
            None => Err(ScmError::Decode { operation: Operation::GetTree, repo: repo.to_owned() }),
        },
    }
}

/// The git service of one Gitea instance.
pub struct GiteaGitService {
    pub client: Client,
}

impl GitService for GiteaGitService {
    open spec fn spec_branches_request(&self, repo: Seq<char>, opts: PageOptionsView) -> RequestView {
        spec_refs_request(self.client@, RefKind::Branch, repo, opts)
    }

    open spec fn spec_tags_request(&self, repo: Seq<char>, opts: PageOptionsView) -> RequestView {
        spec_refs_request(self.client@, RefKind::Tag, repo, opts)
    }

    open spec fn spec_commit_request(&self, repo: Seq<char>, reference: Seq<char>) -> RequestView {
        spec_commit_request(self.client@, repo, reference)
    }

    open spec fn spec_tree_request(&self, repo: Seq<char>, tree_sha: Seq<char>, recursive: Option<bool>) -> RequestView {
        spec_tree_request(self.client@, repo, tree_sha, recursive)
    }

    open spec fn branches_in(&self, document: JsonView) -> Option<Seq<ReferenceView>> {
        spec_listing(RefKind::Branch, document)
    }

    open spec fn tags_in(&self, document: JsonView) -> Option<Seq<ReferenceView>> {
        spec_listing(RefKind::Tag, document)
    }

    open spec fn commit_in(&self, document: JsonView) -> Option<CommitView> {
        spec_commit(document)
    }

    open spec fn tree_in(&self, document: JsonView) -> Option<TreeView> {
        spec_tree(document)
    }

    proof fn listings_are_well_formed(&self, document: JsonView) {
        lemma_listing_well_formed(RefKind::Branch, document);
        lemma_listing_well_formed(RefKind::Tag, document);
    }

    proof fn entities_are_well_formed(&self, document: JsonView) {
        lemma_entities_well_formed(document);
    }

    fn branches_request(&self, repo: &str, opts: &PageOptions) -> (request: Request) {
        refs_request(&self.client, RefKind::Branch, repo, opts)
    }

    fn list_branches(&self, repo: &str, reply: &Reply) -> (r: Result<Vec<Reference>, ScmError>) {
        list_refs(RefKind::Branch, repo, reply)
    }

    fn tags_request(&self, repo: &str, opts: &PageOptions) -> (request: Request) {
        refs_request(&self.client, RefKind::Tag, repo, opts)
    }

    fn list_tags(&self, repo: &str, reply: &Reply) -> (r: Result<Vec<Reference>, ScmError>) {
        list_refs(RefKind::Tag, repo, reply)
    }

    fn commit_request(&self, repo: &str, reference: &str) -> (request: Request) {
        commit_request(&self.client, repo, reference)
    }

    fn find_commit(&self, repo: &str, reply: &Reply) -> (r: Result<Option<Commit>, ScmError>) {
        find_commit(repo, reply)
    }

    fn tree_request(&self, repo: &str, tree_sha: &str, recursive: Option<bool>) -> (request: Request) {
        tree_request(&self.client, repo, tree_sha, recursive)
    }

    fn get_tree(&self, repo: &str, reply: &Reply) -> (r: Result<Option<TreeResponse>, ScmError>) {
        get_tree(repo, reply)
    }
}

/// A commit or a tree that Gitea's documents yield has no empty id.
pub proof fn lemma_entities_well_formed(document: JsonView)
    ensures
        spec_commit(document) matches Some(commit) ==> commit.well_formed(),
        spec_tree(document) matches Some(tree) ==> tree.well_formed(),
{
    if let Some(tree) = spec_tree(document) {
        let items = document.member("tree"@).unwrap()->Array_0;
        assert forall|i: int| 0 <= i < tree.entries.len() implies (#[trigger] tree.entries[i]).sha.len() > 0 by {
            assert(spec_entry(items[i]) is Some);
        }
    }
}

} // verus!
