//! Rebuilds triggered from outside: who may ask for one, which requests are
//! refused as duplicates, and how an accepted one reaches the queue.
//!
//! The decisions are a state machine, [`rebuild_step`] and
//! [`rebuild_action`], that a server drives against its own catalog and
//! queue. [`build_trigger_rebuild_handler`] drives it against the catalog
//! and the queue of this library.

use crate::catalog::{holds_release, Catalog};
use crate::queue::{queued, BuildQueue, QueueEntryView};
use crate::record::text_view;
use crate::response::{AuthFailure, Outage, Rejection, RejectionView};
use crate::text::same_text;
use crate::version::Version;
use vstd::prelude::*;
use vstd::string::StringExecFns;

verus! {

/// The priority of a rebuild that was triggered from outside: behind the
/// ordinary builds, whose priority is 0, and not the least urgent there is.
pub const TRIGGERED_REBUILD_PRIORITY: i32 = 5;

/// The characters of an optional borrowed text.
pub open spec fn str_view(text: Option<&str>) -> Option<Seq<char>> {
    match text {
        Some(s) => Some(s@),
        None => None,
    }
}

/// Why a request with the token `supplied` is not let through where the
/// secret is `expected`; `None` where it is let through.
pub open spec fn authorization(expected: Option<Seq<char>>, supplied: Option<Seq<char>>) -> Option<
    AuthFailure,
> {
    match expected {
        None => Some(AuthFailure::NotConfigured),
        Some(secret) => match supplied {
            None => Some(AuthFailure::MissingToken),
            Some(token) => if token == secret {
                None
            } else {
                Some(AuthFailure::InvalidToken)
            },
        },
    }
}

/// Lets a request through if its token is the configured secret. Without a
/// configured secret nobody is let through.
pub fn authorize(expected: Option<&str>, supplied: Option<&str>) -> (r: Result<(), AuthFailure>)
    ensures
        r == match authorization(str_view(expected), str_view(supplied)) {
            Some(why) => Err::<(), AuthFailure>(why),
            None => Ok(()),
        },
{
    match expected {
        None => Err(AuthFailure::NotConfigured),
        Some(secret) => match supplied {
            None => Err(AuthFailure::MissingToken),
            Some(token) => if same_text(token, secret) {
                Ok(())
            } else {
                Err(AuthFailure::InvalidToken)
            },
        },
    }
}

/// How far a rebuild request has come.
#[derive(Debug, PartialEq, Eq)]
pub enum RebuildState {
    /// Nothing is known of the request yet.
    Start,
    /// The caller may trigger rebuilds.
    Authenticated,
    /// The release exists.
    TargetValidated,
    /// No rebuild of the release waits in the queue.
    NotAlreadyQueued,
    /// The queue has taken the rebuild.
    Submitted,
    /// The request was refused.
    Failed(Rejection),
}

/// A state as mathematics.
pub enum RebuildStateView {
    Start,
    Authenticated,
    TargetValidated,
    NotAlreadyQueued,
    Submitted,
    Failed(RejectionView),
}

impl View for RebuildState {
    type V = RebuildStateView;

    open spec fn view(&self) -> RebuildStateView {
        match self {
            RebuildState::Start => RebuildStateView::Start,
            RebuildState::Authenticated => RebuildStateView::Authenticated,
            RebuildState::TargetValidated => RebuildStateView::TargetValidated,
            RebuildState::NotAlreadyQueued => RebuildStateView::NotAlreadyQueued,
            RebuildState::Submitted => RebuildStateView::Submitted,
            RebuildState::Failed(r) => RebuildStateView::Failed(r@),
        }
    }
}

/// What a server learned for a rebuild request.
#[derive(Debug, PartialEq, Eq)]
pub enum RebuildEvent {
    /// The configured secret and the token of the request.
    Credentials { expected: Option<String>, supplied: Option<String> },
    /// Whether the catalog holds the release.
    TargetLookup(Result<bool, Outage>),
    /// Whether a rebuild of the release waits in the queue.
    QueueLookup(Result<bool, Outage>),
    /// Whether the queue took the rebuild.
    Submission(Result<(), Outage>),
}

/// An event as mathematics.
pub enum RebuildEventView {
    Credentials { expected: Option<Seq<char>>, supplied: Option<Seq<char>> },
    TargetLookup(Result<bool, Outage>),
    QueueLookup(Result<bool, Outage>),
    Submission(Result<(), Outage>),
}

impl View for RebuildEvent {
    type V = RebuildEventView;

    open spec fn view(&self) -> RebuildEventView {
        match self {
            RebuildEvent::Credentials { expected, supplied } => RebuildEventView::Credentials {
                expected: text_view(*expected),
                supplied: text_view(*supplied),
            },
            RebuildEvent::TargetLookup(found) => RebuildEventView::TargetLookup(*found),
            RebuildEvent::QueueLookup(waits) => RebuildEventView::QueueLookup(*waits),
            RebuildEvent::Submission(taken) => RebuildEventView::Submission(*taken),
        }
    }
}

/// What a server does next for a rebuild request.
#[derive(Debug, PartialEq, Eq)]
pub enum RebuildAction {
    /// Read the configured secret and the token of the request.
    Authenticate,
    /// Ask the catalog whether it holds the release.
    LookUpTarget,
    /// Ask the queue whether a rebuild of the release waits in it.
    LookUpQueue,
    /// Hand the release to the queue with this priority and origin.
    Submit { priority: i32, origin: Option<String> },
    /// Answer that the rebuild was queued.
    Accept,
    /// Answer with the refusal.
    Reject(Rejection),
}

/// An action as mathematics.
pub enum RebuildActionView {
    Authenticate,
    LookUpTarget,
    LookUpQueue,
    Submit { priority: int, origin: Option<Seq<char>> },
    Accept,
    Reject(RejectionView),
}

impl View for RebuildAction {
    type V = RebuildActionView;

    open spec fn view(&self) -> RebuildActionView {
        match self {
            RebuildAction::Authenticate => RebuildActionView::Authenticate,
            RebuildAction::LookUpTarget => RebuildActionView::LookUpTarget,
            RebuildAction::LookUpQueue => RebuildActionView::LookUpQueue,
            RebuildAction::Submit { priority, origin } => RebuildActionView::Submit {
                priority: *priority as int,
                origin: text_view(*origin),
            },
            RebuildAction::Accept => RebuildActionView::Accept,
            RebuildAction::Reject(r) => RebuildActionView::Reject(r@),
        }
    }
}

/// The state that follows a state on an event, for a request that names the
/// release `name` `version`. An event that the state does not wait for
/// leaves it as it is; nothing leaves `Submitted` or `Failed`.
pub open spec fn next_state(
    state: RebuildStateView,
    event: RebuildEventView,
    name: Seq<char>,
    version: Seq<char>,
) -> RebuildStateView {
    match (state, event) {
        (RebuildStateView::Start, RebuildEventView::Credentials { expected, supplied }) => {
            match authorization(expected, supplied) {
                Some(why) => RebuildStateView::Failed(RejectionView::Unauthorized(why)),
                None => RebuildStateView::Authenticated,
            }
        },
        (RebuildStateView::Authenticated, RebuildEventView::TargetLookup(found)) => {
            match found {
                Ok(true) => RebuildStateView::TargetValidated,
                Ok(false) => RebuildStateView::Failed(RejectionView::VersionNotFound),
                Err(_) => RebuildStateView::Failed(RejectionView::StorageFailure),
            }
        },
        (RebuildStateView::TargetValidated, RebuildEventView::QueueLookup(waits)) => {
            match waits {
                Ok(false) => RebuildStateView::NotAlreadyQueued,
                Ok(true) => RebuildStateView::Failed(
                    RejectionView::AlreadyQueued { name, version },
                ),
                Err(_) => RebuildStateView::Failed(RejectionView::StorageFailure),
            }
        },
        (RebuildStateView::NotAlreadyQueued, RebuildEventView::Submission(taken)) => {
            match taken {
                Ok(_) => RebuildStateView::Submitted,
                Err(_) => RebuildStateView::Failed(RejectionView::SubmissionFailed),
            }
        },
        _ => state,
    }
}

/// What is to be done in a state.
pub open spec fn action_of(state: RebuildStateView) -> RebuildActionView {
    match state {
        RebuildStateView::Start => RebuildActionView::Authenticate,
        RebuildStateView::Authenticated => RebuildActionView::LookUpTarget,
        RebuildStateView::TargetValidated => RebuildActionView::LookUpQueue,
        RebuildStateView::NotAlreadyQueued => RebuildActionView::Submit {
            priority: TRIGGERED_REBUILD_PRIORITY as int,
            origin: None,
        },
        RebuildStateView::Submitted => RebuildActionView::Accept,
        RebuildStateView::Failed(r) => RebuildActionView::Reject(r),
    }
}

/// An optional borrowed text as an owned one.
fn owned(text: Option<&str>) -> (copy: Option<String>)
    ensures
        text_view(copy) == str_view(text),
{
    match text {
        Some(s) => Some(String::from_str(s)),
        None => None,
    }
}

/// An optional owned text as a borrowed one.
fn borrowed(text: &Option<String>) -> (slice: Option<&str>)
    ensures
        str_view(slice) == text_view(*text),
{
    match text {
        Some(s) => Some(s.as_str()),
        None => None,
    }
}

/// Moves a rebuild request on by one event.
pub fn rebuild_step(state: RebuildState, event: &RebuildEvent, name: &str, version: &str) -> (next:
    RebuildState)
    ensures
        next@ == next_state(state@, event@, name@, version@),
{
    match state {
        RebuildState::Start => match event {
            RebuildEvent::Credentials { expected, supplied } => {
                match authorize(borrowed(expected), borrowed(supplied)) {
                    Ok(_) => RebuildState::Authenticated,
                    Err(why) => RebuildState::Failed(Rejection::Unauthorized(why)),
                }
            },
            _ => RebuildState::Start,
        },
        RebuildState::Authenticated => match event {
            RebuildEvent::TargetLookup(found) => match found {
                Ok(true) => RebuildState::TargetValidated,
                Ok(false) => RebuildState::Failed(Rejection::VersionNotFound),
                Err(_) => RebuildState::Failed(Rejection::StorageFailure),
            },
            _ => RebuildState::Authenticated,
        },
        RebuildState::TargetValidated => match event {
            RebuildEvent::QueueLookup(waits) => match waits {
                Ok(false) => RebuildState::NotAlreadyQueued,
                Ok(true) => RebuildState::Failed(
                    Rejection::AlreadyQueued {
                        name: String::from_str(name),
                        version: String::from_str(version),
                    },
                ),
                Err(_) => RebuildState::Failed(Rejection::StorageFailure),
            },
            _ => RebuildState::TargetValidated,
        },
        RebuildState::NotAlreadyQueued => match event {
            RebuildEvent::Submission(taken) => match taken {
                Ok(_) => RebuildState::Submitted,
                Err(_) => RebuildState::Failed(Rejection::SubmissionFailed),
            },
            _ => RebuildState::NotAlreadyQueued,
        },
        RebuildState::Submitted => RebuildState::Submitted,
        RebuildState::Failed(r) => RebuildState::Failed(r),
    }
}

/// What a server does next for a rebuild request in this state.
pub fn rebuild_action(state: &RebuildState) -> (action: RebuildAction)
    ensures
        action@ == action_of(state@),
{
    match state {
        RebuildState::Start => RebuildAction::Authenticate,
        RebuildState::Authenticated => RebuildAction::LookUpTarget,
        RebuildState::TargetValidated => RebuildAction::LookUpQueue,
        RebuildState::NotAlreadyQueued => RebuildAction::Submit {
            priority: TRIGGERED_REBUILD_PRIORITY,
            origin: None,
        },
        RebuildState::Submitted => RebuildAction::Accept,
        RebuildState::Failed(r) => RebuildAction::Reject(r.clone()),
    }
}

/// The answer to a rebuild request that was queued.
#[derive(Debug, Clone, Copy, PartialEq, Eq)]
pub struct Accepted;

impl Accepted {
    /// The status code of the answer: "created".
    pub fn status(&self) -> (code: u16)
        ensures
            code == 201,
    {
        201
    }

    /// The body of the answer: an empty JSON object.
    pub fn body(&self) -> (text: &'static str)
        ensures
            text@ == "{}"@,
    {
        "{}"
    }
}

/// Why a rebuild of a release is not queued, given whether the catalog
/// holds the release and whether a rebuild of it waits already; `None`
/// where nothing stands against it.
pub open spec fn check_outcome(exists: bool, waits: bool, name: Seq<char>, version: Seq<char>) -> Option<
    RejectionView,
> {
    if !exists {
        Some(RejectionView::VersionNotFound)
    } else if waits {
        Some(RejectionView::AlreadyQueued { name, version })
    } else {
        None
    }
}

/// Why a rebuild request is refused; `None` where it is accepted. The
/// caller is judged first, then the release, then the queue.
pub open spec fn rebuild_outcome(
    expected: Option<Seq<char>>,
    supplied: Option<Seq<char>>,
    exists: bool,
    waits: bool,
    name: Seq<char>,
    version: Seq<char>,
) -> Option<RejectionView> {
    match authorization(expected, supplied) {
        Some(why) => Some(RejectionView::Unauthorized(why)),
        None => check_outcome(exists, waits, name, version),
    }
}

/// The entry that an accepted rebuild request leaves in the queue.
pub open spec fn triggered_entry(name: Seq<char>, version: Seq<char>) -> QueueEntryView {
    QueueEntryView {
        name,
        version,
        priority: TRIGGERED_REBUILD_PRIORITY as int,
        origin: None,
    }
}

/// Checks that a rebuild of the release may be queued: the catalog holds
/// the release, and no rebuild of it waits in the queue.
pub fn build_trigger_check(catalog: &Catalog, name: &str, version: &Version, queue: &BuildQueue) -> (r:
    Result<(), Rejection>)
    ensures
        match check_outcome(
            holds_release(catalog@, name@, version@),
            queued(queue@, name@, version@),
            name@,
            version@,
        ) {
            Some(why) => r matches Err(e) && e@ == why,
            None => r is Ok,
        },
{
    let found = RebuildEvent::TargetLookup(Ok(catalog.has_release(name, version)));
    let state = rebuild_step(RebuildState::Authenticated, &found, name, version.as_str());
    let state = match state {
        RebuildState::TargetValidated => {
            let waits = RebuildEvent::QueueLookup(
                Ok(queue.has_build_queued(name, version.as_str())),
            );
            rebuild_step(RebuildState::TargetValidated, &waits, name, version.as_str())
        },
        other => other,
    };
    match state {
        RebuildState::Failed(why) => Err(why),
        _ => Ok(()),
    }
}

/// Serves a request to rebuild a release: lets the caller through, checks
/// the release and the queue, and queues the rebuild. The queue changes
/// only where the request is accepted, and then by one entry at its end.
pub fn build_trigger_rebuild_handler(
    name: &str,
    version: &Version,
    catalog: &Catalog,
    queue: &mut BuildQueue,
    expected: Option<&str>,
    supplied: Option<&str>,
) -> (r: Result<Accepted, Rejection>)
    ensures
        match rebuild_outcome(
            str_view(expected),
            str_view(supplied),
            holds_release(catalog@, name@, version@),
            queued(old(queue)@, name@, version@),
            name@,
            version@,
        ) {
            Some(why) => r matches Err(e) && e@ == why && final(queue)@ == old(queue)@,
            None => r is Ok && final(queue)@ == old(queue)@.push(triggered_entry(name@, version@)),
        },
        r is Ok ==> final(queue)@.len() == old(queue)@.len() + 1 && queued(
            final(queue)@,
            name@,
            version@,
        ),
        r is Err ==> final(queue)@.len() == old(queue)@.len(),
{
    let credentials = RebuildEvent::Credentials {
        expected: owned(expected),
        supplied: owned(supplied),
    };
    let state = rebuild_step(RebuildState::Start, &credentials, name, version.as_str());
    if let RebuildState::Failed(why) = state {
        return Err(why);
    }
    if let Err(why) = build_trigger_check(catalog, name, version, queue) {
        return Err(why);
    }
    let state = RebuildState::NotAlreadyQueued;
    if let RebuildAction::Submit { priority, origin } = rebuild_action(&state) {
        queue.add_crate(name, version.as_str(), priority, borrowed(&origin));
    }
    proof {
        let entries = queue@;
        assert(entries[entries.len() - 1] == triggered_entry(name@, version@));
    }
    let taken = RebuildEvent::Submission(Ok(()));
    match rebuild_step(state, &taken, name, version.as_str()) {
        RebuildState::Failed(why) => Err(why),
        _ => Ok(Accepted),
    }
}

/// Driven with what the collaborators answer, the state machine ends where
/// [`rebuild_outcome`] says: in `Submitted` where the request is accepted,
/// else in `Failed` with the refusal. A refusal is final: the events that
/// follow it change nothing.
pub proof fn lemma_machine_reaches_outcome(
    expected: Option<Seq<char>>,
    supplied: Option<Seq<char>>,
    exists: bool,
    waits: bool,
    name: Seq<char>,
    version: Seq<char>,
)
    ensures
        ({
            let s1 = next_state(
                RebuildStateView::Start,
                RebuildEventView::Credentials { expected, supplied },
                name,
                version,
            );
            let s2 = next_state(s1, RebuildEventView::TargetLookup(Ok(exists)), name, version);
            let s3 = next_state(s2, RebuildEventView::QueueLookup(Ok(waits)), name, version);
            let s4 = next_state(s3, RebuildEventView::Submission(Ok(())), name, version);
            s4 == match rebuild_outcome(expected, supplied, exists, waits, name, version) {
                Some(why) => RebuildStateView::Failed(why),
                None => RebuildStateView::Submitted,
            }
        }),
{
}

/// Without a configured secret every rebuild request is refused, whatever
/// token it carries: with the status 401 and the message that the endpoint
/// is not configured.
pub proof fn lemma_unconfigured_refuses_all(
    supplied: Option<Seq<char>>,
    exists: bool,
    waits: bool,
    name: Seq<char>,
    version: Seq<char>,
)
    ensures
        rebuild_outcome(None, supplied, exists, waits, name, version) == Some(
            RejectionView::Unauthorized(AuthFailure::NotConfigured),
        ),
        RejectionView::Unauthorized(AuthFailure::NotConfigured).status() == 401,
        RejectionView::Unauthorized(AuthFailure::NotConfigured).body() == Some(
            ("Unauthorized"@, "Endpoint is not configured"@),
        ),
{
}

/// With a configured secret, a request without a token and a request with
/// another token than the secret are both refused with the status 401, and
/// their messages differ.
pub proof fn lemma_bad_token_refused(
    secret: Seq<char>,
    token: Seq<char>,
    exists: bool,
    waits: bool,
    name: Seq<char>,
    version: Seq<char>,
)
    requires
        token != secret,
    ensures
        rebuild_outcome(Some(secret), None, exists, waits, name, version) == Some(
            RejectionView::Unauthorized(AuthFailure::MissingToken),
        ),
        rebuild_outcome(Some(secret), Some(token), exists, waits, name, version) == Some(
            RejectionView::Unauthorized(AuthFailure::InvalidToken),
        ),
        RejectionView::Unauthorized(AuthFailure::MissingToken).status() == 401,
        RejectionView::Unauthorized(AuthFailure::InvalidToken).status() == 401,
        RejectionView::Unauthorized(AuthFailure::MissingToken).body() == Some(
            ("Unauthorized"@, "Missing authentication token"@),
        ),
        RejectionView::Unauthorized(AuthFailure::InvalidToken).body() == Some(
            ("Unauthorized"@, "The token used for authentication is not valid"@),
        ),
        AuthFailure::MissingToken.message_text() != AuthFailure::InvalidToken.message_text(),
{
    reveal_strlit("Missing authentication token");
    reveal_strlit("The token used for authentication is not valid");
    assert("Missing authentication token"@.len() == 28);
    assert("The token used for authentication is not valid"@.len() == 46);
}

/// Once a rebuild request was accepted, the same request is refused for as
/// long as its entry waits: with the status 400 and a message that names
/// the crate and the version. The queue is then left as it is.
pub proof fn lemma_repeat_is_refused(
    expected: Option<Seq<char>>,
    supplied: Option<Seq<char>>,
    exists: bool,
    entries: Seq<QueueEntryView>,
    name: Seq<char>,
    version: Seq<char>,
)
    requires
        rebuild_outcome(expected, supplied, exists, queued(entries, name, version), name, version)
            is None,
    ensures
        ({
            let after = entries.push(triggered_entry(name, version));
            let again = rebuild_outcome(
                expected,
                supplied,
                exists,
                queued(after, name, version),
                name,
                version,
            );
            &&& after.len() == entries.len() + 1
            &&& queued(after, name, version)
            &&& again == Some(RejectionView::AlreadyQueued { name, version })
            &&& again.unwrap().status() == 400
            &&& again.unwrap().body() == Some(
                (
                    "Bad request"@,
                    "crate "@ + name + " "@ + version + " already queued for rebuild"@,
                ),
            )
        }),
{
    let after = entries.push(triggered_entry(name, version));
    assert(after[after.len() - 1] == triggered_entry(name, version));
}

} // verus!
