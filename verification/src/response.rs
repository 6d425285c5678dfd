//! What a request is answered with when it is not served: the refusals of
//! this subsystem, their status codes and their messages.

use vstd::prelude::*;
use vstd::string::StringExecFns;

verus! {

/// How long an answer may be kept by caches.
#[derive(Debug, Clone, Copy, PartialEq, Eq)]
pub enum CachePolicy {
    /// Not cached anywhere.
    NoCaching,
    /// Kept at the edge for good: the path names something that never changes.
    ForeverInCdn,
    /// Never stored; every read asks again.
    NoStoreMustRevalidate,
}

/// Why a rebuild request was not let through.
#[derive(Debug, Clone, Copy, PartialEq, Eq)]
pub enum AuthFailure {
    /// No secret is configured: the endpoint is switched off.
    NotConfigured,
    /// The request carries no token.
    MissingToken,
    /// The request's token is not the configured secret.
    InvalidToken,
}

impl AuthFailure {
    /// The message that the caller is shown.
    pub open spec fn message_text(self) -> Seq<char> {
        match self {
            AuthFailure::NotConfigured => "Endpoint is not configured"@,
            AuthFailure::MissingToken => "Missing authentication token"@,
            AuthFailure::InvalidToken => "The token used for authentication is not valid"@,
        }
    }

    /// The message that the caller is shown.
    pub fn message(&self) -> (text: &'static str)
        ensures
            text@ == self.message_text(),
    {
        match self {
            AuthFailure::NotConfigured => "Endpoint is not configured",
            AuthFailure::MissingToken => "Missing authentication token",
            AuthFailure::InvalidToken => "The token used for authentication is not valid",
        }
    }
}

/// A collaborator that could not answer.
#[derive(Debug, Clone, Copy, PartialEq, Eq)]
pub struct Outage;

/// The ways in which a request ends without being served.
#[derive(Debug, PartialEq, Eq)]
pub enum Rejection {
    /// No release answers to the crate and version asked for.
    VersionNotFound,
    /// The crate is stored under another spelling of its name; the request
    /// is to be repeated at `path`, which spells it so.
    CrateNameMismatch { corrected_name: String, path: String },
    /// The request is to be repeated at `path`.
    Redirect { path: String, cache_policy: CachePolicy },
    /// The caller may not trigger rebuilds.
    Unauthorized(AuthFailure),
    /// A rebuild of this release already waits in the queue.
    AlreadyQueued { name: String, version: String },
    /// The queue did not take the rebuild.
    SubmissionFailed,
    /// The store could not be read.
    StorageFailure,
}

/// A refusal as mathematics.
pub enum RejectionView {
    VersionNotFound,
    CrateNameMismatch { corrected_name: Seq<char>, path: Seq<char> },
    Redirect { path: Seq<char>, cache_policy: CachePolicy },
    Unauthorized(AuthFailure),
    AlreadyQueued { name: Seq<char>, version: Seq<char> },
    SubmissionFailed,
    StorageFailure,
}

impl View for Rejection {
    type V = RejectionView;

    open spec fn view(&self) -> RejectionView {
        match self {
            Rejection::VersionNotFound => RejectionView::VersionNotFound,
            Rejection::CrateNameMismatch { corrected_name, path } => {
                RejectionView::CrateNameMismatch { corrected_name: corrected_name@, path: path@ }
            },
            Rejection::Redirect { path, cache_policy } => RejectionView::Redirect {
                path: path@,
                cache_policy: *cache_policy,
            },
            Rejection::Unauthorized(why) => RejectionView::Unauthorized(*why),
            Rejection::AlreadyQueued { name, version } => RejectionView::AlreadyQueued {
                name: name@,
                version: version@,
            },
            Rejection::SubmissionFailed => RejectionView::SubmissionFailed,
            Rejection::StorageFailure => RejectionView::StorageFailure,
        }
    }
}

/// The title and the message of an answer that explains itself.
#[derive(Debug, PartialEq, Eq)]
pub struct ErrorBody {
    pub title: String,
    pub message: String,
}

/// The message of a rebuild that was refused as a duplicate.
pub open spec fn already_queued_text(name: Seq<char>, version: Seq<char>) -> Seq<char> {
    "crate "@ + name + " "@ + version + " already queued for rebuild"@
}

/// The message of a rebuild that was refused as a duplicate.
pub fn already_queued_message(name: &str, version: &str) -> (text: String)
    ensures
        text@ == already_queued_text(name@, version@),
{
    let mut text = String::from_str("crate ");
    text.append(name);
    text.append(" ");
    text.append(version);
    text.append(" already queued for rebuild");
    text
}

impl RejectionView {
    /// The status code of the answer.
    pub open spec fn status(self) -> int {
        match self {
            RejectionView::VersionNotFound => 404,
            RejectionView::CrateNameMismatch { .. } => 302,
            RejectionView::Redirect { .. } => 302,
            RejectionView::Unauthorized(_) => 401,
            RejectionView::AlreadyQueued { .. } => 400,
            RejectionView::SubmissionFailed => 500,
            RejectionView::StorageFailure => 500,
        }
    }

    /// The path at which the request is to be repeated, where it is sent on.
    pub open spec fn location(self) -> Option<Seq<char>> {
        match self {
            RejectionView::CrateNameMismatch { path, .. } => Some(path),
            RejectionView::Redirect { path, .. } => Some(path),
            _ => None,
        }
    }

    /// The title and the message of the answer, where it has them.
    pub open spec fn body(self) -> Option<(Seq<char>, Seq<char>)> {
        match self {
            RejectionView::Unauthorized(why) => Some(("Unauthorized"@, why.message_text())),
            RejectionView::AlreadyQueued { name, version } => Some(
                ("Bad request"@, already_queued_text(name, version)),
            ),
            _ => None,
        }
    }
}

impl Clone for Rejection {
    fn clone(&self) -> (copy: Rejection)
        ensures
            copy@ == self@,
    {
        match self {
            Rejection::VersionNotFound => Rejection::VersionNotFound,
            Rejection::CrateNameMismatch { corrected_name, path } => Rejection::CrateNameMismatch {
                corrected_name: corrected_name.clone(),
                path: path.clone(),
            },
            Rejection::Redirect { path, cache_policy } => Rejection::Redirect {
                path: path.clone(),
                cache_policy: *cache_policy,
            },
            Rejection::Unauthorized(why) => Rejection::Unauthorized(*why),
            Rejection::AlreadyQueued { name, version } => Rejection::AlreadyQueued {
                name: name.clone(),
                version: version.clone(),
            },
            Rejection::SubmissionFailed => Rejection::SubmissionFailed,
            Rejection::StorageFailure => Rejection::StorageFailure,
        }
    }
}

impl Rejection {
    /// The status code of the answer.
    pub fn status(&self) -> (code: u16)
        ensures
            code == self@.status(),
    {
        match self {
            Rejection::VersionNotFound => 404,
            Rejection::CrateNameMismatch { .. } => 302,
            Rejection::Redirect { .. } => 302,
            Rejection::Unauthorized(_) => 401,
            Rejection::AlreadyQueued { .. } => 400,
            Rejection::SubmissionFailed => 500,
            Rejection::StorageFailure => 500,
        }
    }

    /// The path at which the request is to be repeated, where it is sent on.
    pub fn location(&self) -> (path: Option<String>)
        ensures
            path is Some <==> self@.location() is Some,
            path matches Some(p) ==> self@.location() == Some(p@),
    {
        match self {
            Rejection::CrateNameMismatch { path, .. } => Some(path.clone()),
            Rejection::Redirect { path, .. } => Some(path.clone()),
            _ => None,
        }
    }

    /// The title and the message of the answer, where it has them.
    pub fn body(&self) -> (body: Option<ErrorBody>)
        ensures
            body is Some <==> self@.body() is Some,
            body matches Some(b) ==> self@.body() == Some((b.title@, b.message@)),
    {
        match self {
            Rejection::Unauthorized(why) => Some(
                ErrorBody {
                    title: String::from_str("Unauthorized"),
                    message: String::from_str(why.message()),
                },
            ),
            Rejection::AlreadyQueued { name, version } => Some(
                ErrorBody {
                    title: String::from_str("Bad request"),
                    message: already_queued_message(name.as_str(), version.as_str()),
                },
            ),
            _ => None,
        }
    }
}

} // verus!
