//! The two halves of one GET: the request that an adapter wants made, and
//! what came back. Making the request is left to the embedding program, which
//! decodes the body and hands the reply in.

use vstd::prelude::*;
use vstd::string::StrSliceExecFns;
use vstd::string::StringExecFns;
use crate::json::{Json, JsonView};
use crate::text::{copy_opt, joined, opt_text};

verus! {

/// How a token is presented in the `Authorization` header.
#[derive(Clone, Copy, Debug, PartialEq, Eq, Structural)]
pub enum AuthScheme {
    Bearer,
    Basic,
}

impl AuthScheme {
    /// The word that precedes the token in the header.
    pub open spec fn spec_word(self) -> Seq<char> {
        match self {
            AuthScheme::Bearer => "Bearer"@,
            AuthScheme::Basic => "Basic"@,
        }
    }

    /// The word that precedes the token in the header.
    pub fn word(&self) -> (w: &'static str)
        ensures
            w@ == self.spec_word(),
    {
        match self {
            AuthScheme::Bearer => "Bearer",
            AuthScheme::Basic => "Basic",
        }
    }
}

/// The value of one query parameter, before it is written into a URL.
#[derive(Debug, PartialEq, Eq)]
pub enum QueryValue {
    Number(u64),
    Flag(bool),
    Text(String),
}

pub enum QueryValueView {
    Number(u64),
    Flag(bool),
    Text(Seq<char>),
}

impl View for QueryValue {
    type V = QueryValueView;

    open spec fn view(&self) -> QueryValueView {
        match self {
            QueryValue::Number(n) => QueryValueView::Number(*n),
            QueryValue::Flag(b) => QueryValueView::Flag(*b),
            QueryValue::Text(t) => QueryValueView::Text(t@),
        }
    }
}

/// One `name=value` pair of a query string.
#[derive(Debug, PartialEq, Eq)]
pub struct QueryParam {
    pub name: String,
    pub value: QueryValue,
}

pub struct QueryParamView {
    pub name: Seq<char>,
    pub value: QueryValueView,
}

impl View for QueryParam {
    type V = QueryParamView;

    open spec fn view(&self) -> QueryParamView {
        QueryParamView { name: self.name@, value: self.value@ }
    }
}

/// The views of a list of query parameters, in order.
pub open spec fn query_view(query: Seq<QueryParam>) -> Seq<QueryParamView> {
    Seq::new(query.len(), |i: int| query[i]@)
}

/// A GET that an adapter wants made.
#[derive(Debug, PartialEq, Eq)]
pub struct Request {
    /// The address without its query string.
    pub url: String,
    /// The query parameters, in the order they are to be written.
    pub query: Vec<QueryParam>,
    /// The value of the `Authorization` header, where one is to be sent.
    pub authorization: Option<String>,
}

pub struct RequestView {
    pub url: Seq<char>,
    pub query: Seq<QueryParamView>,
    pub authorization: Option<Seq<char>>,
}

impl View for Request {
    type V = RequestView;

    open spec fn view(&self) -> RequestView {
        RequestView {
            url: self.url@,
            query: query_view(self.query@),
            authorization: opt_text(self.authorization),
        }
    }
}

/// What became of a request.
#[derive(Debug, PartialEq, Eq)]
pub enum Reply {
    /// No HTTP response arrived: the connection failed or timed out.
    Unreachable { detail: String },
    /// The backend answered.
    Answered {
        status: u16,
        /// The seconds named by a `Retry-After` header, where there was one.
        retry_after: Option<u64>,
        /// The body as text.
        body: String,
        /// The body decoded as JSON; `None` where it is not a JSON document.
        document: Option<Json>,
    },
}

pub enum ReplyView {
    Unreachable { detail: Seq<char> },
    Answered { status: u16, retry_after: Option<u64>, body: Seq<char>, document: Option<JsonView> },
}

impl View for Reply {
    type V = ReplyView;

    open spec fn view(&self) -> ReplyView {
        match self {
            Reply::Unreachable { detail } => ReplyView::Unreachable { detail: detail@ },
            Reply::Answered { status, retry_after, body, document } => ReplyView::Answered {
                status: *status,
                retry_after: *retry_after,
                body: body@,
                document: match document {
                    Some(d) => Some(d@),
                    None => None,
                },
            },
        }
    }
}

impl ReplyView {
    /// The decoded body of an answer.
    pub open spec fn document(self) -> Option<JsonView> {
        match self {
            ReplyView::Answered { document, .. } => document,
            ReplyView::Unreachable { .. } => None,
        }
    }
}

/// Whether `c` is one of the digits `0` to `9`.
pub open spec fn is_digit(c: char) -> bool {
    '0' <= c && c <= '9'
}

/// Whether `s` holds digits only.
pub open spec fn all_digits(s: Seq<char>) -> bool {
    forall|i: int| 0 <= i < s.len() ==> is_digit(#[trigger] s[i])
}

/// The number that the digits of `s` write in base ten.
pub open spec fn decimal_value(s: Seq<char>) -> nat
    decreases s.len(),
{
    if s.len() == 0 {
        0
    } else {
        decimal_value(s.drop_last()) * 10 + (s.last() as nat - '0' as nat) as nat
    }
}

/// The seconds that a `Retry-After` header names: its value, where that is a
/// run of digits that fits into 64 bits. A header that gives a date names no
/// number of seconds.
pub open spec fn spec_retry_after(value: Seq<char>) -> Option<u64> {
    if value.len() > 0 && all_digits(value) && decimal_value(value) <= u64::MAX {
        Some(decimal_value(value) as u64)
    } else {
        None
    }
}

/// More digits never write a smaller number.
pub proof fn lemma_decimal_value_grows(s: Seq<char>, n: int)
    requires
        all_digits(s),
        0 <= n <= s.len(),
    ensures
        decimal_value(s.take(n)) <= decimal_value(s),
    decreases s.len() - n,
{
    if n == s.len() {
        assert(s.take(n) =~= s);
    } else {
        let longer = s.take(n + 1);
        assert(longer.drop_last() =~= s.take(n));
        assert(is_digit(s[n]));
        assert(longer.last() == s[n]);
        lemma_decimal_value_grows(s, n + 1);
    }
}

/// Reads the seconds that a `Retry-After` header names.
pub fn retry_after_seconds(value: &str) -> (seconds: Option<u64>)
    ensures
        seconds == spec_retry_after(value@),
{
    let n = value.unicode_len();
    if n == 0 {
        return None;
    }
    let mut total: u64 = 0;
    let mut i: usize = 0;
    assert(value@.take(0) =~= Seq::<char>::empty());
    while i < n
        invariant
            i <= n,
            n == value@.len(),
            all_digits(value@.take(i as int)),
            total == decimal_value(value@.take(i as int)),
        decreases n - i,
    {
        let c = value.get_char(i);
        if !('0' <= c && c <= '9') {
            assert(!is_digit(value@[i as int]));
            return None;
        }
        let digit: u64 = (c as u32 - '0' as u32) as u64;
        let ghost longer = value@.take(i as int + 1);
        assert(longer.drop_last() =~= value@.take(i as int));
        assert(longer.last() == c);
        if total > (u64::MAX - digit) / 10 {
            proof {
                assert(decimal_value(longer) > u64::MAX);
                if all_digits(value@) {
                    lemma_decimal_value_grows(value@, i as int + 1);
                }
            }
            return None;
        }
        total = total * 10 + digit;
        assert forall|k: int| 0 <= k < longer.len() implies is_digit(#[trigger] longer[k]) by {
            if k < i {
                assert(longer[k] == value@.take(i as int)[k]);
            }
        }
        i = i + 1;
    }
    assert(value@.take(n as int) =~= value@);
    Some(total)
}

/// The base address with exactly one `/` at its end.
pub open spec fn with_trailing_slash(url: Seq<char>) -> Seq<char> {
    if url.len() > 0 && url.last() == '/' {
        url
    } else {
        url + "/"@
    }
}

/// The header value that presents `token` under `scheme`.
pub open spec fn header_value(scheme: AuthScheme, token: Seq<char>) -> Seq<char> {
    scheme.spec_word() + " "@ + token
}

/// The address and the credential of one backend.
#[derive(Debug, PartialEq, Eq)]
pub struct Client {
    /// The base address; it ends in `/`.
    pub base_url: String,
    /// The token to present, where the backend asks for one.
    pub token: Option<String>,
}

pub struct ClientView {
    pub base_url: Seq<char>,
    pub token: Option<Seq<char>>,
}

impl View for Client {
    type V = ClientView;

    open spec fn view(&self) -> ClientView {
        ClientView { base_url: self.base_url@, token: opt_text(self.token) }
    }
}

impl ClientView {
    /// The GET for `path` below the base address, with `query`, presenting the
    /// token under `scheme` where there is one.
    pub open spec fn get(self, path: Seq<char>, query: Seq<QueryParamView>, scheme: AuthScheme) -> RequestView {
        RequestView {
            url: self.base_url + path,
            query,
            authorization: match self.token {
                Some(t) => Some(header_value(scheme, t)),
                None => None,
            },
        }
    }
}

impl Clone for Client {
    fn clone(&self) -> (copy: Client)
        ensures
            copy@ == self@,
    {
        Client { base_url: self.base_url.clone(), token: copy_opt(&self.token) }
    }
}

impl Client {
    /// A client for the backend at `url`. Paths are later appended to `url`, so a
    /// `/` is added to it where it lacks one.
    pub fn new(url: &str, token: Option<String>) -> (client: Client)
        ensures
            client@.base_url == with_trailing_slash(url@),
            client@.token == opt_text(token),
    {
        let len = url.unicode_len();
        let base_url = if len > 0 && url.get_char(len - 1) == '/' {
            String::from_str(url)
        } else {
            joined(url, "/")
        };
        Client { base_url, token }
    }

    /// The request for `path` below the base address, with `query`, presenting
    /// the token under `scheme` where the client has one.
    pub fn get(&self, path: &str, query: Vec<QueryParam>, scheme: AuthScheme) -> (request: Request)
        ensures
            request@ == self@.get(path@, query_view(query@), scheme),
    {
        let url = joined(self.base_url.as_str(), path);
        let authorization = match &self.token {
            Some(t) => {
                let mut value = joined(scheme.word(), " ");
                value.append(t.as_str());
                Some(value)
            },
            None => None,
        };
        Request { url, query, authorization }
    }
}

} // verus!
