//! The download-metadata task: its declarative contract for the scheduler
//! (name, advisory lock duration, attempt ceiling) and the decision logic of
//! one invocation.
//!
//! An invocation is one strictly sequential pass: sanitize the payload,
//! validate its URI, fetch on a valid URI, classify what came back, persist
//! the chosen document, and report one of success, retryable failure or
//! unrecoverable failure. The two suspending steps — the HTTP request and
//! the store write — are performed by the caller, which feeds their results
//! back in as plain events ([`FetchEvent`], [`StoreEvent`]); every decision
//! between those steps is made here and verified against the model
//! [`spec_execute`].

use crate::json::{body_is_json, json_parses};
use crate::payload::DownloadMetadata;
use crate::sanitize::sanitize_spec;
use crate::uri::{uri_is_valid, uri_parses};
use vstd::prelude::*;

verus! {

/// The fixed client-level timeout, in seconds, that the caller must set on
/// the HTTP request; it bounds the whole of connection and response.
pub const FETCH_TIMEOUT_SECS: u64 = 3;

/// The task's fixed name, at the spec level.
pub open spec fn task_name() -> Seq<char> {
    "DownloadMetadata"@
}

/// The sentinel marker's text, at the spec level.
pub open spec fn sentinel_marker() -> Seq<char> {
    "Invalid Uri"@
}

/// What validation decided should happen next: fetch the sanitized URI, or
/// skip the network and write the sentinel marker for a URI that can never
/// resolve.
#[derive(Debug, Clone, PartialEq)]
pub enum Plan {
    Fetch(String),
    WriteSentinel,
}

/// What one fetch attempt came to, as the caller observed it: a transport
/// failure (connection, DNS, timeout, TLS) with its reason, or a response
/// with its status and raw body bytes.
#[derive(Debug, Clone, PartialEq)]
pub enum FetchEvent {
    Transport(String),
    Response { status: u16, body: Vec<u8> },
}

/// Spec-level image of a [`FetchEvent`].
pub enum FetchEventView {
    Transport(Seq<char>),
    Response { status: u16, body: Seq<u8> },
}

impl View for FetchEvent {
    type V = FetchEventView;

    open spec fn view(&self) -> FetchEventView {
        match self {
            FetchEvent::Transport(reason) => FetchEventView::Transport(reason@),
            FetchEvent::Response { status, body } => FetchEventView::Response {
                status: *status,
                body: body@,
            },
        }
    }
}

/// What one store write came to, as the caller observed it.
#[derive(Debug, Clone, PartialEq)]
pub enum StoreEvent {
    Written,
    Failed(String),
}

/// Spec-level image of a [`StoreEvent`].
pub enum StoreEventView {
    Written,
    Failed(Seq<char>),
}

impl View for StoreEvent {
    type V = StoreEventView;

    open spec fn view(&self) -> StoreEventView {
        match self {
            StoreEvent::Written => StoreEventView::Written,
            StoreEvent::Failed(cause) => StoreEventView::Failed(cause@),
        }
    }
}

/// The document chosen for the asset's record: the fetched body, known to
/// parse as a structured document, or the sentinel marker for a URI that
/// can never resolve.
#[derive(Debug, Clone, PartialEq)]
pub enum Document {
    Json(Vec<u8>),
    InvalidUri,
}

/// Spec-level image of a [`Document`].
pub enum DocumentView {
    Json(Seq<u8>),
    InvalidUri,
}

impl View for Document {
    type V = DocumentView;

    open spec fn view(&self) -> DocumentView {
        match self {
            Document::Json(body) => DocumentView::Json(body@),
            Document::InvalidUri => DocumentView::InvalidUri,
        }
    }
}

/// The outcome owed to the scheduler once the store write of a persisted
/// document has gone through.
#[derive(Debug, Clone, Copy, PartialEq, Eq, Structural)]
pub enum AfterStore {
    Success,
    Unrecoverable,
}

/// The classified failure of one invocation, as reported to the scheduler.
/// Every variant but `Unrecoverable` is retryable: only a URI that fails
/// validation can never succeed on a later attempt.
#[derive(Debug, Clone, PartialEq)]
pub enum TaskError {
    /// Transport failure (connection, DNS, timeout, TLS), with its reason.
    Fetch(String),
    /// A response arrived but its status was not the success status.
    Http(u16),
    /// A success status arrived but the body was not a structured document.
    /// Such a body may be transient (a misbehaving gateway), so it is
    /// classified retryable; the attempt ceiling bounds the retries.
    BodyParse,
    /// The store write failed; carries the task's name and the store's own
    /// cause, and is always retryable: a store error is independent of
    /// whether the fetched content was valid.
    Store { task: String, cause: String },
    /// The payload itself could not be decoded; retryable, as for any other
    /// classification short of an invalid URI.
    Payload(String),
    /// The URI failed validation: no retry can ever resolve it.
    Unrecoverable,
}

/// Spec-level image of a [`TaskError`].
pub enum TaskErrorView {
    Fetch(Seq<char>),
    Http(u16),
    BodyParse,
    Store { task: Seq<char>, cause: Seq<char> },
    Payload(Seq<char>),
    Unrecoverable,
}

impl View for TaskError {
    type V = TaskErrorView;

    open spec fn view(&self) -> TaskErrorView {
        match self {
            TaskError::Fetch(reason) => TaskErrorView::Fetch(reason@),
            TaskError::Http(status) => TaskErrorView::Http(*status),
            TaskError::BodyParse => TaskErrorView::BodyParse,
            TaskError::Store { task, cause } => TaskErrorView::Store {
                task: task@,
                cause: cause@,
            },
            TaskError::Payload(reason) => TaskErrorView::Payload(reason@),
            TaskError::Unrecoverable => TaskErrorView::Unrecoverable,
        }
    }
}

/// Whether the scheduler may retry after this failure.
pub open spec fn spec_retryable(e: TaskErrorView) -> bool {
    !(e is Unrecoverable)
}

impl TaskError {
    /// Only an invalid URI is permanent; every other failure is retryable.
    pub fn is_retryable(&self) -> (r: bool)
        ensures
            r == spec_retryable(self@),
    {
        !(matches!(self, TaskError::Unrecoverable))
    }
}

/// What the classifier decided for one fetch attempt: persist a document
/// and, once the write goes through, report the given outcome; or fail now,
/// with nothing written for this attempt.
#[derive(Debug, Clone, PartialEq)]
pub enum Decision {
    Persist { document: Document, after: AfterStore },
    Fail(TaskError),
}

/// Spec-level image of a [`Decision`].
pub enum DecisionView {
    Persist { document: DocumentView, after: AfterStore },
    Fail(TaskErrorView),
}

impl View for Decision {
    type V = DecisionView;

    open spec fn view(&self) -> DecisionView {
        match self {
            Decision::Persist { document, after } => DecisionView::Persist {
                document: document@,
                after: *after,
            },
            Decision::Fail(e) => DecisionView::Fail(e@),
        }
    }
}

/// The classifier's table for a fetch attempt on a valid URI: a transport
/// failure and a non-success status are retryable with nothing persisted; a
/// success status whose body parses persists exactly that body; a success
/// status whose body does not parse is retryable with nothing persisted.
pub open spec fn spec_classify(fetch: FetchEventView) -> DecisionView {
    match fetch {
        FetchEventView::Transport(reason) => DecisionView::Fail(TaskErrorView::Fetch(reason)),
        FetchEventView::Response { status, body } => if status != 200 {
            DecisionView::Fail(TaskErrorView::Http(status))
        } else if json_parses(body) {
            DecisionView::Persist { document: DocumentView::Json(body), after: AfterStore::Success }
        } else {
            DecisionView::Fail(TaskErrorView::BodyParse)
        },
    }
}

/// The full decision table of one invocation, over a sanitized URI: an
/// invalid URI persists the sentinel marker and is unrecoverable whatever
/// the network did; a valid URI is classified by its fetch attempt.
pub open spec fn spec_decide(uri_sanitized: Seq<char>, fetch: FetchEventView) -> DecisionView {
    if !uri_parses(uri_sanitized) {
        DecisionView::Persist { document: DocumentView::InvalidUri, after: AfterStore::Unrecoverable }
    } else {
        spec_classify(fetch)
    }
}

/// The outcome owed after the store write: a failed write is always a
/// retryable task-manager error carrying the task's name and the store's
/// cause; a successful write reports what the classifier owed.
pub open spec fn spec_settle(after: AfterStore, store: StoreEventView) -> Result<(), TaskErrorView> {
    match store {
        StoreEventView::Failed(cause) => Err(
            TaskErrorView::Store { task: task_name(), cause },
        ),
        StoreEventView::Written => match after {
            AfterStore::Success => Ok(()),
            AfterStore::Unrecoverable => Err(TaskErrorView::Unrecoverable),
        },
    }
}

/// The model of one whole invocation on a payload with URI `uri`: the
/// document written to the record, if any, and the outcome reported to the
/// scheduler. `fetch` and `store` stand for whatever the network and the
/// store did; on paths that never reach them they are simply unused.
pub open spec fn spec_execute(uri: Seq<char>, fetch: FetchEventView, store: StoreEventView) -> (
    Option<DocumentView>,
    Result<(), TaskErrorView>,
) {
    match spec_decide(sanitize_spec(uri), fetch) {
        DecisionView::Fail(e) => (None, Err(e)),
        DecisionView::Persist { document, after } => (Some(document), spec_settle(after, store)),
    }
}

/// The download-metadata task as the scheduler sees it: a name, an advisory
/// lock duration, an attempt ceiling, and the verified decision steps of one
/// invocation.
#[derive(Debug, Clone, PartialEq)]
pub struct DownloadMetadataTask {}

impl DownloadMetadataTask {
    /// The fixed task name, used for routing, logging and metric tagging.
    pub fn name(&self) -> (r: &'static str)
        ensures
            r@ == task_name(),
    {
        "DownloadMetadata"
    }

    /// Advisory lease duration, in the scheduler's time unit: how long the
    /// scheduler should hold an exclusive claim while one invocation runs.
    /// Enforced by the scheduler, not here.
    pub fn lock_duration(&self) -> (r: i64)
        ensures
            r == 5,
    {
        5
    }

    /// The scheduler's retry ceiling; no retry loop exists inside the task
    /// itself.
    pub fn max_attempts(&self) -> (r: i16)
        ensures
            r == 3,
    {
        3
    }

    /// The text of the sentinel marker written for a URI that can never
    /// resolve.
    pub fn sentinel_text(&self) -> (r: &'static str)
        ensures
            r@ == sentinel_marker(),
    {
        "Invalid Uri"
    }

    /// Sanitizes the payload's URI in place and decides whether to fetch it:
    /// the plan is to fetch exactly when the sanitized URI validates, and
    /// the URI handed out to fetch is the sanitized one; otherwise the plan
    /// is to write the sentinel marker.
    pub fn plan(&self, payload: &mut DownloadMetadata) -> (p: Plan)
        ensures
            final(payload).uri@ == sanitize_spec(old(payload).uri@),
            final(payload).asset_data_id@ == old(payload).asset_data_id@,
            final(payload).created_at == old(payload).created_at,
            (p is Fetch) == uri_parses(sanitize_spec(old(payload).uri@)),
            (p matches Plan::Fetch(u) ==> u@ == sanitize_spec(old(payload).uri@)),
    {
        payload.sanitize();
        if uri_is_valid(payload.uri.as_str()) {
            Plan::Fetch(payload.uri.clone())
        } else {
            Plan::WriteSentinel
        }
    }

    /// Classifies one fetch attempt by the table [`spec_classify`].
    pub fn classify_fetch(&self, event: FetchEvent) -> (d: Decision)
        ensures
            d@ == spec_classify(event@),
    {
        match event {
            FetchEvent::Transport(reason) => Decision::Fail(TaskError::Fetch(reason)),
            FetchEvent::Response { status, body } => {
                if status != 200 {
                    Decision::Fail(TaskError::Http(status))
                } else if body_is_json(body.as_slice()) {
                    Decision::Persist { document: Document::Json(body), after: AfterStore::Success }
                } else {
                    Decision::Fail(TaskError::BodyParse)
                }
            },
        }
    }

    /// Turns the store write's result into the final outcome by
    /// [`spec_settle`]: a failed write is a retryable error carrying this
    /// task's name and the store's cause; a successful write reports what
    /// the classifier owed. A failed write is surfaced immediately — the
    /// invocation does not retry the write itself; the scheduler retries
    /// the whole attempt.
    pub fn settle(&self, after: AfterStore, store: StoreEvent) -> (r: Result<(), TaskError>)
        ensures
            (r is Ok) == (spec_settle(after, store@) is Ok),
            (r matches Err(e) ==> spec_settle(after, store@) matches Err(x) && e@ == x),
    {
        match store {
            StoreEvent::Failed(cause) => Err(
                TaskError::Store { task: self.name().to_owned(), cause },
            ),
            StoreEvent::Written => match after {
                AfterStore::Success => Ok(()),
                AfterStore::Unrecoverable => Err(TaskError::Unrecoverable),
            },
        }
    }
}

} // verus!
