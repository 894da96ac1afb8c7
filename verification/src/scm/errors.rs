//! The ways a lookup can fail, and the rule that sorts replies into them.

use vstd::prelude::*;
use crate::http::{Reply, ReplyView};
use crate::json::{opt_json, Json, JsonView};
use crate::text::{first_chars, prefix_of};

verus! {

/// The operations of the hosting contract.
#[derive(Clone, Copy, Debug, PartialEq, Eq, Structural)]
pub enum Operation {
    ListBranches,
    ListTags,
    FindCommit,
    GetTree,
}

/// Why a lookup failed.
#[derive(Debug, PartialEq, Eq)]
pub enum ScmError {
    /// The credential is missing or was not accepted.
    Auth,
    /// The backend asks the caller to slow down; `retry_after` is its hint, in seconds.
    RateLimited { retry_after: Option<u64> },
    /// The request failed on the way, or the backend answered with a status that
    /// is none of success, not found, denied and rate limited.
    Transport { status: Option<u16>, excerpt: String },
    /// The body is not what the operation expects.
    Decode { operation: Operation, repo: String },
}

pub enum ScmErrorView {
    Auth,
    RateLimited { retry_after: Option<u64> },
    Transport { status: Option<u16>, excerpt: Seq<char> },
    Decode { operation: Operation, repo: Seq<char> },
}

impl View for ScmError {
    type V = ScmErrorView;

    open spec fn view(&self) -> ScmErrorView {
        match self {
            ScmError::Auth => ScmErrorView::Auth,
            ScmError::RateLimited { retry_after } => ScmErrorView::RateLimited { retry_after: *retry_after },
            ScmError::Transport { status, excerpt } => ScmErrorView::Transport {
                status: *status,
                excerpt: excerpt@,
            },
            ScmError::Decode { operation, repo } => ScmErrorView::Decode { operation: *operation, repo: repo@ },
        }
    }
}

/// Why no driver could be built.
#[derive(Debug, PartialEq, Eq)]
pub enum ConfigError {
    /// No adapter exists for this provider kind.
    UnknownProvider { kind: String },
}

/// How many characters of a body a transport error carries along.
pub const EXCERPT_LIMIT: usize = 256;

/// Whether `status` reports success.
pub open spec fn is_success(status: u16) -> bool {
    200 <= status < 300
}

/// What a reply amounts to before anyone reads the document: the document of a
/// successful answer, nothing for an entity that is not there, or the failure.
pub open spec fn spec_settle(reply: ReplyView, operation: Operation, repo: Seq<char>) -> Result<
    Option<JsonView>,
    ScmErrorView,
> {
    match reply {
        ReplyView::Unreachable { detail } => Err(
            ScmErrorView::Transport { status: None, excerpt: prefix_of(detail, EXCERPT_LIMIT as nat) },
        ),
        ReplyView::Answered { status, retry_after, body, document } => {
            if is_success(status) {
                match document {
                    Some(d) => Ok(Some(d)),
                    None => Err(ScmErrorView::Decode { operation, repo }),
                }
            } else if status == 404 {
                Ok(None)
            } else if status == 401 || status == 403 {
                Err(ScmErrorView::Auth)
            } else if status == 429 {
                Err(ScmErrorView::RateLimited { retry_after })
            } else {
                Err(
                    ScmErrorView::Transport {
                        status: Some(status),
                        excerpt: prefix_of(body, EXCERPT_LIMIT as nat),
                    },
                )
            }
        },
    }
}

/// The view of a settled reply.
pub open spec fn settled_view(r: Result<Option<&Json>, ScmError>) -> Result<Option<JsonView>, ScmErrorView> {
    match r {
        Ok(found) => Ok(opt_json(found)),
        Err(e) => Err(e@),
    }
}

/// Sorts a reply by its status, the same way for every adapter and operation.
pub fn settle<'a>(reply: &'a Reply, operation: Operation, repo: &str) -> (r: Result<Option<&'a Json>, ScmError>)
    ensures
        settled_view(r) == spec_settle(reply@, operation, repo@),
{
    match reply {
        Reply::Unreachable { detail } => Err(
            ScmError::Transport { status: None, excerpt: first_chars(detail.as_str(), EXCERPT_LIMIT) },
        ),
        Reply::Answered { status, retry_after, body, document } => {
            let status: u16 = *status;
            if 200 <= status && status < 300 {
                match document {
                    Some(d) => Ok(Some(d)),
                    None => Err(ScmError::Decode { operation, repo: repo.to_owned() }),
                }
            } else if status == 404 {
                Ok(None)
            } else if status == 401 || status == 403 {
                Err(ScmError::Auth)
            } else if status == 429 {
                Err(ScmError::RateLimited { retry_after: *retry_after })
            } else {
                Err(
                    ScmError::Transport {
                        status: Some(status),
                        excerpt: first_chars(body.as_str(), EXCERPT_LIMIT),
                    },
                )
            }
        },
    }
}

/// A backend that answers 429 is reported as rate limited, and its hint is
/// handed on exactly as it came, whatever the operation and the body.
pub proof fn rate_limit_hint_is_kept(reply: ReplyView, operation: Operation, repo: Seq<char>)
    requires
        reply matches ReplyView::Answered { status, .. } && status == 429,
    ensures
        spec_settle(reply, operation, repo) == Err::<Option<JsonView>, ScmErrorView>(
            ScmErrorView::RateLimited { retry_after: reply->retry_after },
        ),
{
}

/// Every status is sorted into exactly one of: success, not there, denied,
/// rate limited, and transport failure with the status and the start of the body.
pub proof fn statuses_are_sorted(reply: ReplyView, operation: Operation, repo: Seq<char>)
    requires
        reply is Answered,
    ensures
        is_success(reply->status) <==> (spec_settle(reply, operation, repo) matches Ok(Some(_))
            || spec_settle(reply, operation, repo) matches Err(ScmErrorView::Decode { .. })),
        reply->status == 404 <==> spec_settle(reply, operation, repo) == Ok::<Option<JsonView>, ScmErrorView>(None),
        (reply->status == 401 || reply->status == 403) <==> spec_settle(reply, operation, repo) == Err::<
            Option<JsonView>,
            ScmErrorView,
        >(ScmErrorView::Auth),
        reply->status == 429 <==> spec_settle(reply, operation, repo) matches Err(ScmErrorView::RateLimited { .. }),
        spec_settle(reply, operation, repo) matches Err(ScmErrorView::Transport { status, excerpt }) ==> status
            == Some(reply->status) && excerpt == prefix_of(reply->body, EXCERPT_LIMIT as nat),
{
}

} // verus!
