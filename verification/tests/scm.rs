use amp_common::http::{AuthScheme, Client, QueryParam, QueryValue, Reply, Request};
use amp_common::json::{Json, Member};
use amp_common::scm::client::PageOptions;
use amp_common::scm::driver::gitea;
use amp_common::scm::driver::gitea::constants::{GITEA_ENDPOINT, TREE_PAGE_CAP};
use amp_common::scm::driver::gitea::git::GiteaGitService;
use amp_common::scm::driver::Driver;
use amp_common::scm::errors::{settle, ConfigError, Operation, ScmError, EXCERPT_LIMIT};
use amp_common::scm::git::{Commit, GitService, Reference, Signature, TreeEntry, TreeResponse};
use amp_common::scm::pages::{append_page, contains_name, gather};
use amp_common::scm::timestamps::is_rfc3339;
use amp_common::scm::utils::trim_ref;

fn text(s: &str) -> Json {
    Json::Text(s.to_string())
}

fn object(members: Vec<(&str, Json)>) -> Json {
    Json::Object(members.into_iter().map(|(key, value)| Member { key: key.to_string(), value }).collect())
}

fn answered(status: u16, document: Option<Json>) -> Reply {
    Reply::Answered { status, retry_after: None, body: String::from("body"), document }
}

fn branch(name: &str, id: &str) -> Json {
    object(vec![("name", text(name)), ("commit", object(vec![("id", text(id)), ("message", text("m"))]))])
}

fn tag(name: &str, sha: &str) -> Json {
    object(vec![
        ("name", text(name)),
        ("id", text("tag-object")),
        ("commit", object(vec![("sha", text(sha)), ("url", text("https://git.example/c"))])),
    ])
}

fn reference(name: &str, path: &str, sha: &str) -> Reference {
    Reference { name: name.to_string(), path: path.to_string(), sha: sha.to_string() }
}

fn identity(name: &str, email: &str, date: &str) -> Json {
    object(vec![("name", text(name)), ("email", text(email)), ("date", text(date))])
}

fn commit_document(author_account: Json, committer_account: Json) -> Json {
    object(vec![
        ("sha", text("f00d")),
        ("html_url", text("https://git.example/o/r/commit/f00d")),
        (
            "commit",
            object(vec![
                ("message", text("fix the build")),
                ("author", identity("Ann", "ann@example.org", "2023-05-01T10:00:00Z")),
                ("committer", identity("Bob", "bob@example.org", "2023-05-02T11:30:00Z")),
            ]),
        ),
        ("author", author_account),
        ("committer", committer_account),
    ])
}

fn entry(path: &str, kind: &str, size: Option<u64>, sha: &str) -> Json {
    let mut members = vec![("path", text(path)), ("mode", text("100644")), ("type", text(kind))];
    if let Some(n) = size {
        members.push(("size", Json::Unsigned(n)));
    }
    members.push(("sha", text(sha)));
    members.push(("url", text("https://git.example/blob")));
    object(members)
}

fn tree_document(entries: Vec<Json>, truncated: Option<Json>) -> Json {
    let mut members = vec![("sha", text("7ree")), ("url", text("https://git.example/tree")), ("tree", Json::Array(entries))];
    if let Some(flag) = truncated {
        members.push(("truncated", flag));
    }
    object(members)
}

fn service() -> GiteaGitService {
    GiteaGitService { client: Client::new("https://git.example", Some(String::from("s3cr3t"))) }
}

fn decode(operation: Operation) -> ScmError {
    ScmError::Decode { operation, repo: String::from("o/r") }
}

#[test]
fn list_branches_normalizes_each_item() {
    let reply = answered(200, Some(Json::Array(vec![branch("main", "abc"), branch("refs/heads/dev", "def")])));
    let refs = service().list_branches("o/r", &reply);
    assert_eq!(
        refs,
        Ok(vec![reference("main", "refs/heads/main", "abc"), reference("dev", "refs/heads/dev", "def")])
    );
}

#[test]
fn list_tags_normalizes_each_item() {
    let reply = answered(200, Some(Json::Array(vec![tag("v1.0", "abc"), tag("v1.1", "def")])));
    let refs = service().list_tags("o/r", &reply);
    assert_eq!(refs, Ok(vec![reference("v1.0", "refs/tags/v1.0", "abc"), reference("v1.1", "refs/tags/v1.1", "def")]));
}

#[test]
fn list_branches_of_empty_array_is_empty() {
    let reply = answered(200, Some(Json::Array(vec![])));
    assert_eq!(service().list_branches("o/r", &reply), Ok(vec![]));
}

#[test]
fn malformed_body_is_a_decode_error_for_listings() {
    let reply = answered(200, None);
    assert_eq!(service().list_branches("o/r", &reply), Err(decode(Operation::ListBranches)));
    assert_eq!(service().list_tags("o/r", &reply), Err(decode(Operation::ListTags)));
}

#[test]
fn document_of_another_shape_is_a_decode_error_for_listings() {
    let not_an_array = answered(200, Some(object(vec![("message", text("hello"))])));
    assert_eq!(service().list_branches("o/r", &not_an_array), Err(decode(Operation::ListBranches)));
    let item_without_commit = answered(200, Some(Json::Array(vec![object(vec![("name", text("main"))])])));
    assert_eq!(service().list_branches("o/r", &item_without_commit), Err(decode(Operation::ListBranches)));
    let tag_read_as_branch = answered(200, Some(Json::Array(vec![tag("v1", "abc")])));
    assert_eq!(service().list_branches("o/r", &tag_read_as_branch), Err(decode(Operation::ListBranches)));
    let name_is_a_number = answered(
        200,
        Some(Json::Array(vec![object(vec![("name", Json::Unsigned(7)), ("commit", object(vec![("sha", text("a"))]))])])),
    );
    assert_eq!(service().list_tags("o/r", &name_is_a_number), Err(decode(Operation::ListTags)));
}

#[test]
fn empty_commit_id_is_a_decode_error() {
    let reply = answered(200, Some(Json::Array(vec![branch("main", "")])));
    assert_eq!(service().list_branches("o/r", &reply), Err(decode(Operation::ListBranches)));
}

#[test]
fn repeated_name_in_one_listing_is_a_decode_error() {
    let reply = answered(200, Some(Json::Array(vec![branch("main", "abc"), branch("dev", "def"), branch("main", "123")])));
    assert_eq!(service().list_branches("o/r", &reply), Err(decode(Operation::ListBranches)));
    let same_short_name = answered(200, Some(Json::Array(vec![branch("main", "abc"), branch("refs/heads/main", "abc")])));
    assert_eq!(service().list_branches("o/r", &same_short_name), Err(decode(Operation::ListBranches)));
}

#[test]
fn missing_repository_lists_nothing() {
    let reply = answered(404, None);
    assert_eq!(service().list_branches("o/r", &reply), Ok(vec![]));
    assert_eq!(service().list_tags("o/r", &reply), Ok(vec![]));
}

#[test]
fn find_commit_that_does_not_exist_is_absent() {
    let reply = answered(404, Some(object(vec![("message", text("not found"))])));
    assert_eq!(service().find_commit("o/r", &reply), Ok(None));
    let driver = gitea::default();
    assert_eq!(driver.find_commit("o/r", &reply), Ok(None));
    assert_eq!(driver.get_tree("o/r", &reply), Ok(None));
}

#[test]
fn find_commit_reads_identities_and_accounts() {
    let account = object(vec![("login", text("ann")), ("avatar_url", text("https://git.example/ann.png"))]);
    let reply = answered(200, Some(commit_document(account, Json::Null)));
    let expected = Commit {
        sha: String::from("f00d"),
        message: String::from("fix the build"),
        author: Signature {
            name: String::from("Ann"),
            email: String::from("ann@example.org"),
            date: String::from("2023-05-01T10:00:00Z"),
            login: Some(String::from("ann")),
            avatar: Some(String::from("https://git.example/ann.png")),
        },
        committer: Signature {
            name: String::from("Bob"),
            email: String::from("bob@example.org"),
            date: String::from("2023-05-02T11:30:00Z"),
            login: None,
            avatar: None,
        },
        link: String::from("https://git.example/o/r/commit/f00d"),
    };
    assert_eq!(service().find_commit("o/r", &reply), Ok(Some(expected)));
}

#[test]
fn empty_account_text_is_absent_not_empty() {
    let account = object(vec![("login", text("ann")), ("avatar_url", text(""))]);
    let reply = answered(200, Some(commit_document(account, object(vec![]))));
    let commit = service().find_commit("o/r", &reply).unwrap().unwrap();
    assert_eq!(commit.author.login, Some(String::from("ann")));
    assert_eq!(commit.author.avatar, None);
    assert_eq!(commit.committer.login, None);
    assert_eq!(commit.committer.avatar, None);
}

#[test]
fn commit_without_required_member_is_a_decode_error() {
    let no_link = object(vec![
        ("sha", text("f00d")),
        (
            "commit",
            object(vec![
                ("message", text("m")),
                ("author", identity("Ann", "a@x", "2023-05-01T10:00:00Z")),
                ("committer", identity("Bob", "b@x", "2023-05-01T10:00:00Z")),
            ]),
        ),
    ]);
    assert_eq!(service().find_commit("o/r", &answered(200, Some(no_link))), Err(decode(Operation::FindCommit)));
    let empty_sha = object(vec![
        ("sha", text("")),
        ("html_url", text("l")),
        (
            "commit",
            object(vec![
                ("message", text("m")),
                ("author", identity("Ann", "a@x", "2023-05-01T10:00:00Z")),
                ("committer", identity("Bob", "b@x", "2023-05-01T10:00:00Z")),
            ]),
        ),
    ]);
    assert_eq!(service().find_commit("o/r", &answered(200, Some(empty_sha))), Err(decode(Operation::FindCommit)));
    assert_eq!(service().find_commit("o/r", &answered(200, None)), Err(decode(Operation::FindCommit)));
}

#[test]
fn get_tree_reads_entries_and_truncation() {
    let document = tree_document(
        vec![entry("README.md", "blob", Some(12), "aaa"), entry("src", "tree", None, "bbb")],
        Some(Json::Bool(true)),
    );
    let expected = TreeResponse {
        sha: String::from("7ree"),
        url: String::from("https://git.example/tree"),
        entries: vec![
            TreeEntry {
                path: String::from("README.md"),
                mode: String::from("100644"),
                entry_type: String::from("blob"),
                size: Some(12),
                sha: String::from("aaa"),
                url: String::from("https://git.example/blob"),
            },
            TreeEntry {
                path: String::from("src"),
                mode: String::from("100644"),
                entry_type: String::from("tree"),
                size: None,
                sha: String::from("bbb"),
                url: String::from("https://git.example/blob"),
            },
        ],
        truncated: true,
    };
    assert_eq!(service().get_tree("o/r", &answered(200, Some(document))), Ok(Some(expected)));
}

#[test]
fn get_tree_twice_gives_equal_results() {
    let reply = answered(200, Some(tree_document(vec![entry("a", "blob", Some(1), "aaa")], Some(Json::Bool(false)))));
    let first = service().get_tree("o/r", &reply);
    let second = service().get_tree("o/r", &reply);
    assert!(first.is_ok());
    assert_eq!(first, second);
    assert_eq!(service().tree_request("o/r", "7ree", Some(true)), service().tree_request("o/r", "7ree", Some(true)));
}

#[test]
fn truncation_without_a_signal_goes_by_the_page_cap() {
    let few = tree_document(vec![entry("a", "blob", Some(1), "aaa")], None);
    let tree = service().get_tree("o/r", &answered(200, Some(few))).unwrap().unwrap();
    assert!(!tree.truncated);
    let mut entries = Vec::new();
    for i in 0..TREE_PAGE_CAP {
        entries.push(entry(&format!("f{}", i), "blob", Some(1), "aaa"));
    }
    let full = tree_document(entries, Some(Json::Null));
    let tree = service().get_tree("o/r", &answered(200, Some(full))).unwrap().unwrap();
    assert_eq!(tree.entries.len(), 1000);
    assert!(tree.truncated);
}

#[test]
fn tree_of_another_shape_is_a_decode_error() {
    let flag_is_text = tree_document(vec![], Some(text("yes")));
    assert_eq!(service().get_tree("o/r", &answered(200, Some(flag_is_text))), Err(decode(Operation::GetTree)));
    let size_is_text = tree_document(
        vec![object(vec![
            ("path", text("a")),
            ("mode", text("100644")),
            ("type", text("blob")),
            ("size", text("12")),
            ("sha", text("aaa")),
            ("url", text("u")),
        ])],
        None,
    );
    assert_eq!(service().get_tree("o/r", &answered(200, Some(size_is_text))), Err(decode(Operation::GetTree)));
    let entry_without_sha = tree_document(vec![entry("a", "blob", None, "")], None);
    assert_eq!(service().get_tree("o/r", &answered(200, Some(entry_without_sha))), Err(decode(Operation::GetTree)));
    let entries_not_listed = object(vec![("sha", text("7ree")), ("url", text("u"))]);
    assert_eq!(service().get_tree("o/r", &answered(200, Some(entries_not_listed))), Err(decode(Operation::GetTree)));
}

#[test]
fn rate_limit_carries_the_retry_hint() {
    let reply = Reply::Answered { status: 429, retry_after: Some(30), body: String::from("slow down"), document: None };
    assert_eq!(service().list_branches("o/r", &reply), Err(ScmError::RateLimited { retry_after: Some(30) }));
    assert_eq!(service().find_commit("o/r", &reply), Err(ScmError::RateLimited { retry_after: Some(30) }));
    assert_eq!(gitea::default().get_tree("o/r", &reply), Err(ScmError::RateLimited { retry_after: Some(30) }));
    let no_hint = Reply::Answered { status: 429, retry_after: None, body: String::new(), document: None };
    assert_eq!(service().list_tags("o/r", &no_hint), Err(ScmError::RateLimited { retry_after: None }));
}

#[test]
fn denied_statuses_are_auth_errors() {
    assert_eq!(service().list_branches("o/r", &answered(401, None)), Err(ScmError::Auth));
    assert_eq!(service().get_tree("o/r", &answered(403, Some(Json::Null))), Err(ScmError::Auth));
}

#[test]
fn other_statuses_are_transport_errors_with_an_excerpt() {
    let long_body: String = std::iter::repeat('x').take(300).collect();
    let reply = Reply::Answered { status: 500, retry_after: None, body: long_body, document: None };
    let expected: String = std::iter::repeat('x').take(256).collect();
    assert_eq!(EXCERPT_LIMIT, 256);
    assert_eq!(
        service().find_commit("o/r", &reply),
        Err(ScmError::Transport { status: Some(500), excerpt: expected })
    );
    let moved = Reply::Answered { status: 302, retry_after: None, body: String::from("moved"), document: None };
    assert_eq!(
        service().list_tags("o/r", &moved),
        Err(ScmError::Transport { status: Some(302), excerpt: String::from("moved") })
    );
}

#[test]
fn unreachable_backend_is_a_transport_error_without_status() {
    let reply = Reply::Unreachable { detail: String::from("connection refused") };
    assert_eq!(
        service().list_branches("o/r", &reply),
        Err(ScmError::Transport { status: None, excerpt: String::from("connection refused") })
    );
}

#[test]
fn settle_hands_out_the_document_of_a_success() {
    let reply = answered(204, Some(Json::Bool(true)));
    assert_eq!(settle(&reply, Operation::GetTree, "o/r"), Ok(Some(&Json::Bool(true))));
    assert_eq!(settle(&answered(299, None), Operation::GetTree, "o/r"), Err(decode(Operation::GetTree)));
    assert_eq!(
        settle(&answered(199, None), Operation::GetTree, "o/r"),
        Err(ScmError::Transport { status: Some(199), excerpt: String::from("body") })
    );
    assert_eq!(
        settle(&answered(300, None), Operation::GetTree, "o/r"),
        Err(ScmError::Transport { status: Some(300), excerpt: String::from("body") })
    );
}

#[test]
fn unknown_provider_is_refused_at_construction() {
    assert_eq!(
        Driver::for_provider("subversion", None, None),
        Err(ConfigError::UnknownProvider { kind: String::from("subversion") })
    );
    assert_eq!(
        Driver::for_provider("Gitea", Some("https://git.example"), None),
        Err(ConfigError::UnknownProvider { kind: String::from("Gitea") })
    );
    assert_eq!(Driver::for_provider("", None, None), Err(ConfigError::UnknownProvider { kind: String::new() }));
}

#[test]
fn known_provider_gets_its_adapter() {
    let driver = Driver::for_provider("gitea", Some("https://git.example/"), Some(String::from("t"))).unwrap();
    match &driver {
        Driver::Gitea(gitea_driver) => {
            assert_eq!(gitea_driver.client.base_url, "https://git.example/");
            assert_eq!(gitea_driver.client.token, Some(String::from("t")));
            assert_eq!(gitea_driver.git().client, gitea_driver.client);
        },
    }
    assert_eq!(driver, gitea::new("https://git.example", Some(String::from("t"))));
}

#[test]
fn provider_without_address_gets_the_hosted_service() {
    assert_eq!(GITEA_ENDPOINT, "https://try.gitea.io");
    let driver = Driver::for_provider("gitea", None, None).unwrap();
    assert_eq!(driver, gitea::default());
    assert_eq!(driver, gitea::from(Client { base_url: String::from("https://try.gitea.io/"), token: None }));
}

#[test]
fn branches_request_names_page_and_limit() {
    let opts = PageOptions { page: Some(2), size: Some(30), cursor: Some(String::from("ignored")) };
    let request = service().branches_request("o/r", &opts);
    assert_eq!(
        request,
        Request {
            url: String::from("https://git.example/api/v1/repos/o/r/branches"),
            query: vec![
                QueryParam { name: String::from("page"), value: QueryValue::Number(2) },
                QueryParam { name: String::from("limit"), value: QueryValue::Number(30) },
            ],
            authorization: Some(String::from("Bearer s3cr3t")),
        }
    );
}

#[test]
fn tags_request_without_options_has_no_query() {
    let opts = PageOptions { page: None, size: None, cursor: None };
    let request = gitea::default().tags_request("o/r", &opts);
    assert_eq!(
        request,
        Request { url: String::from("https://try.gitea.io/api/v1/repos/o/r/tags"), query: vec![], authorization: None }
    );
}

#[test]
fn commit_request_uses_the_short_ref_name() {
    let request = service().commit_request("o/r", "refs/heads/main");
    assert_eq!(request.url, "https://git.example/api/v1/repos/o/r/git/commits/main");
    assert!(request.query.is_empty());
    let by_sha = service().commit_request("o/r", "f00d");
    assert_eq!(by_sha.url, "https://git.example/api/v1/repos/o/r/git/commits/f00d");
}

#[test]
fn tree_request_asks_for_recursion_only_when_told() {
    let recursive = service().tree_request("o/r", "7ree", Some(true));
    assert_eq!(recursive.url, "https://git.example/api/v1/repos/o/r/git/trees/7ree");
    assert_eq!(recursive.query, vec![QueryParam { name: String::from("recursive"), value: QueryValue::Flag(true) }]);
    assert!(service().tree_request("o/r", "7ree", Some(false)).query.is_empty());
    assert!(service().tree_request("o/r", "7ree", None).query.is_empty());
}

#[test]
fn client_presents_the_token_under_the_scheme() {
    let client = Client::new("https://git.example/base/", Some(String::from("abc")));
    assert_eq!(client.base_url, "https://git.example/base/");
    let request = client.get("x", vec![], AuthScheme::Basic);
    assert_eq!(request.url, "https://git.example/base/x");
    assert_eq!(request.authorization, Some(String::from("Basic abc")));
    assert_eq!(Client::new("", None).base_url, "/");
    assert_eq!(client.clone(), client);
}

#[test]
fn ref_names_are_trimmed() {
    assert_eq!(trim_ref("refs/heads/main"), "main");
    assert_eq!(trim_ref("refs/tags/v1"), "v1");
    assert_eq!(trim_ref("main"), "main");
    assert_eq!(trim_ref("refs/heads/refs/tags/x"), "x");
    assert_eq!(trim_ref("refs/pull/1"), "refs/pull/1");
}

#[test]
fn successive_page_options_count_up() {
    let first = PageOptions::first(50);
    assert_eq!((first.page, first.size, first.cursor.clone()), (Some(1), Some(50), None));
    let second = first.next().unwrap();
    assert_eq!((second.page, second.size), (Some(2), Some(50)));
    let unnumbered = PageOptions { page: None, size: None, cursor: Some(String::from("c")) };
    let after = unnumbered.next().unwrap();
    assert_eq!((after.page, after.size, after.cursor), (Some(2), None, Some(String::from("c"))));
    let last = PageOptions { page: Some(u64::MAX), size: None, cursor: None };
    assert!(last.next().is_none());
}

#[test]
fn gathered_pages_have_no_duplicate_names() {
    let pages = vec![
        vec![reference("main", "refs/heads/main", "a"), reference("dev", "refs/heads/dev", "b")],
        vec![reference("dev", "refs/heads/dev", "b2"), reference("feature", "refs/heads/feature", "c")],
        vec![],
        vec![reference("main", "refs/heads/main", "a3")],
    ];
    let all = gather(&pages);
    assert_eq!(
        all,
        vec![
            reference("main", "refs/heads/main", "a"),
            reference("dev", "refs/heads/dev", "b"),
            reference("feature", "refs/heads/feature", "c"),
        ]
    );
    for (i, one) in all.iter().enumerate() {
        for other in all.iter().skip(i + 1) {
            assert_ne!(one.name, other.name);
        }
    }
}

#[test]
fn pages_listed_through_the_adapter_concatenate_without_duplicates() {
    let opts = PageOptions::first(2);
    let first_request = service().branches_request("o/r", &opts);
    let second_request = service().branches_request("o/r", &opts.next().unwrap());
    assert_ne!(first_request, second_request);
    let first = service()
        .list_branches("o/r", &answered(200, Some(Json::Array(vec![branch("a", "1"), branch("b", "2")]))))
        .unwrap();
    let second = service().list_branches("o/r", &answered(200, Some(Json::Array(vec![branch("c", "3")])))).unwrap();
    let all = gather(&vec![first, second]);
    let names: Vec<&str> = all.iter().map(|r| r.name.as_str()).collect();
    assert_eq!(names, vec!["a", "b", "c"]);
}

#[test]
fn append_page_keeps_the_first_sighting() {
    let mut seen = vec![reference("main", "refs/heads/main", "a")];
    append_page(&mut seen, &vec![reference("main", "refs/heads/main", "z"), reference("dev", "refs/heads/dev", "b")]);
    assert_eq!(seen, vec![reference("main", "refs/heads/main", "a"), reference("dev", "refs/heads/dev", "b")]);
    assert!(contains_name(&seen, "dev"));
    assert!(!contains_name(&seen, "de"));
}

fn commit_dated(date: &str) -> Json {
    object(vec![
        ("sha", text("f00d")),
        ("html_url", text("https://git.example/o/r/commit/f00d")),
        (
            "commit",
            object(vec![
                ("message", text("m")),
                ("author", identity("Ann", "ann@example.org", date)),
                ("committer", identity("Bob", "bob@example.org", "2023-05-02T11:30:00Z")),
            ]),
        ),
    ])
}

#[test]
fn commit_dates_are_taken_only_as_rfc3339() {
    let with_offset = service().find_commit("o/r", &answered(200, Some(commit_dated("2023-05-01T12:00:00+02:00"))));
    assert_eq!(with_offset.unwrap().unwrap().author.date, "2023-05-01T12:00:00+02:00");
    let unix_seconds = service().find_commit("o/r", &answered(200, Some(commit_dated("1682935200"))));
    assert_eq!(unix_seconds, Err(decode(Operation::FindCommit)));
    let human = service().find_commit("o/r", &answered(200, Some(commit_dated("Mon, 01 May 2023 10:00:00 GMT"))));
    assert_eq!(human, Err(decode(Operation::FindCommit)));
    let empty = service().find_commit("o/r", &answered(200, Some(commit_dated(""))));
    assert_eq!(empty, Err(decode(Operation::FindCommit)));
}

#[test]
fn rfc3339_is_recognized() {
    assert!(is_rfc3339("2023-05-01T10:00:00Z"));
    assert!(is_rfc3339("2023-05-01t10:00:00z"));
    assert!(is_rfc3339("2023-05-01T10:00:00.5Z"));
    assert!(is_rfc3339("2023-05-01T10:00:00.123456789-07:30"));
    assert!(is_rfc3339("2016-12-31T23:59:60+00:00"));
    assert!(is_rfc3339("0001-01-01T00:00:00Z"));
    assert!(!is_rfc3339(""));
    assert!(!is_rfc3339("2023-05-01"));
    assert!(!is_rfc3339("2023-05-01T10:00:00"));
    assert!(!is_rfc3339("2023-05-01 10:00:00Z"));
    assert!(!is_rfc3339("2023-05-01T10:00:00.Z"));
    assert!(!is_rfc3339("2023-05-01T10:00:00Zx"));
    assert!(!is_rfc3339("2023-05-01T10:00:00+0200"));
    assert!(!is_rfc3339("2023-05-01T10:00:00+24:00"));
    assert!(!is_rfc3339("2023-05-01T10:00:00+02:60"));
    assert!(!is_rfc3339("2023-13-01T10:00:00Z"));
    assert!(!is_rfc3339("2023-00-01T10:00:00Z"));
    assert!(!is_rfc3339("2023-05-32T10:00:00Z"));
    assert!(!is_rfc3339("2023-05-00T10:00:00Z"));
    assert!(!is_rfc3339("2023-05-01T24:00:00Z"));
    assert!(!is_rfc3339("2023-05-01T10:60:00Z"));
    assert!(!is_rfc3339("2023-05-01T10:00:61Z"));
    assert!(!is_rfc3339("2O23-05-01T10:00:00Z"));
    assert!(!is_rfc3339("2023-05-01T10:00:00.12a4Z"));
}

#[test]
fn paths_are_the_names_below_the_prefix_of_the_kind() {
    let branches = answered(
        200,
        Some(Json::Array(vec![
            branch("main", "1"),
            branch("refs/heads/dev", "2"),
            branch("refs/tags/v1", "3"),
            branch("refs/pull/1", "4"),
            branch("feature/x", "5"),
        ])),
    );
    let refs = service().list_branches("o/r", &branches).unwrap();
    assert_eq!(
        refs,
        vec![
            reference("main", "refs/heads/main", "1"),
            reference("dev", "refs/heads/dev", "2"),
            reference("refs/tags/v1", "refs/heads/refs/tags/v1", "3"),
            reference("refs/pull/1", "refs/heads/refs/pull/1", "4"),
            reference("feature/x", "refs/heads/feature/x", "5"),
        ]
    );
    for one in refs.iter() {
        assert_eq!(one.path, format!("refs/heads/{}", one.name));
    }
    let tags = answered(200, Some(Json::Array(vec![tag("refs/tags/v1", "1"), tag("refs/heads/x", "2"), tag("v2", "3")])));
    let refs = gitea::default().list_tags("o/r", &tags).unwrap();
    assert_eq!(
        refs,
        vec![
            reference("v1", "refs/tags/v1", "1"),
            reference("refs/heads/x", "refs/tags/refs/heads/x", "2"),
            reference("v2", "refs/tags/v2", "3"),
        ]
    );
    for one in refs.iter() {
        assert_eq!(one.path, format!("refs/tags/{}", one.name));
    }
}

#[test]
fn branch_and_tag_of_one_name_do_not_collide() {
    let reply = answered(200, Some(Json::Array(vec![branch("v1", "1"), branch("refs/tags/v1", "2")])));
    let refs = service().list_branches("o/r", &reply).unwrap();
    assert_eq!(refs.len(), 2);
    assert_ne!(refs[0].name, refs[1].name);
    assert_ne!(refs[0].path, refs[1].path);
}

fn served_page(all: &[Json], opts: &PageOptions) -> Reply {
    let size = opts.size.unwrap() as usize;
    let from = ((opts.page.unwrap() as usize - 1) * size).min(all.len());
    let to = (from + size).min(all.len());
    let items: Vec<Json> = all[from..to]
        .iter()
        .map(|item| match item.member("name").and_then(|n| n.as_text()) {
            Some(name) => branch(name, "abc"),
            None => Json::Null,
        })
        .collect();
    answered(200, Some(Json::Array(items)))
}

#[test]
fn pages_of_an_unchanged_backend_concatenate_without_duplicates() {
    let all: Vec<Json> = ["a", "b", "c", "d", "e", "f", "g"].iter().map(|name| branch(name, "abc")).collect();
    let mut concatenated: Vec<Reference> = Vec::new();
    let mut pages: Vec<Vec<Reference>> = Vec::new();
    let mut following = Some(PageOptions::first(3));
    let mut asked = Vec::new();
    while let Some(opts) = following {
        asked.push(opts.page.unwrap());
        let page = service().list_branches("o/r", &served_page(&all, &opts)).unwrap();
        following = opts.next();
        if page.is_empty() {
            break;
        }
        concatenated.extend(page.iter().cloned());
        pages.push(page);
    }
    assert_eq!(asked, vec![1, 2, 3, 4]);
    let names: Vec<&str> = concatenated.iter().map(|r| r.name.as_str()).collect();
    assert_eq!(names, vec!["a", "b", "c", "d", "e", "f", "g"]);
    for (i, one) in concatenated.iter().enumerate() {
        for other in concatenated.iter().skip(i + 1) {
            assert_ne!(one.name, other.name);
        }
    }
    assert_eq!(gather(&pages), concatenated);
}
