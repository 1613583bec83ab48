//! The invocation-wide guarantees of the task, proved over the model
//! [`spec_execute`]. Sanitization's own guarantees (idempotence, a clean
//! result) live beside its definition in [`crate::sanitize`].

use crate::json::json_parses;
use crate::sanitize::sanitize_spec;
use crate::task::{
    spec_execute, spec_retryable, task_name, DocumentView, FetchEventView, StoreEventView,
    TaskErrorView,
};
use crate::uri::uri_parses;
use vstd::prelude::*;

verus! {

/// An invalid URI is terminal. Whatever the network did, the document
/// chosen for the record is the sentinel marker — the record gets a
/// terminal state rather than silence — and once the store write goes
/// through, the outcome is unrecoverable: the scheduler must not re-lease
/// the task, since no retry can ever resolve the URI. (Only a failed store
/// write reports differently: it is a retryable store error, so that a
/// store outage is never conflated with a permanent classification.)
pub proof fn lemma_invalid_uri_is_terminal(
    uri: Seq<char>,
    fetch: FetchEventView,
    store: StoreEventView,
)
    requires
        !uri_parses(sanitize_spec(uri)),
    ensures
        spec_execute(uri, fetch, store).0 == Some(DocumentView::InvalidUri),
        store is Written ==> spec_execute(uri, fetch, store).1 == Err::<
            (),
            TaskErrorView,
        >(TaskErrorView::Unrecoverable),
{
}

/// A successful fetch round-trips. On a valid URI answered with the success
/// status and a body that parses as a structured document, exactly that
/// body is chosen as the document to write, and once the store write goes
/// through the outcome is success.
pub proof fn lemma_success_round_trip(uri: Seq<char>, body: Seq<u8>)
    requires
        uri_parses(sanitize_spec(uri)),
        json_parses(body),
    ensures
        spec_execute(uri, FetchEventView::Response { status: 200, body }, StoreEventView::Written).0
            == Some(DocumentView::Json(body)),
        spec_execute(uri, FetchEventView::Response { status: 200, body }, StoreEventView::Written).1
            == Ok::<(), TaskErrorView>(()),
{
}

/// A transient fetch failure does not poison the record. On a valid URI,
/// any fetch attempt short of a success status with a parseable body — a
/// transport failure, a non-success status, or a body that is not a
/// structured document — writes nothing at all for this attempt and
/// reports a retryable failure, leaving the record untouched for the
/// scheduler's next attempt.
pub proof fn lemma_transient_failure_writes_nothing(
    uri: Seq<char>,
    fetch: FetchEventView,
    store: StoreEventView,
)
    requires
        uri_parses(sanitize_spec(uri)),
        !(fetch matches FetchEventView::Response { status, body } && status == 200 && json_parses(
            body,
        )),
    ensures
        spec_execute(uri, fetch, store).0 is None,
        spec_execute(uri, fetch, store).1 matches Err(e) && spec_retryable(e),
{
}

/// A store failure is isolated. Whenever a document was chosen for writing
/// — a fetched body or the sentinel marker — and the store write fails,
/// the outcome is a retryable error carrying the task's name and the
/// store's own cause: a store error is never conflated with a permanent
/// classification, and the attempt (document included) is surfaced to the
/// scheduler for a full retry rather than lost silently.
pub proof fn lemma_store_failure_isolation(uri: Seq<char>, fetch: FetchEventView, cause: Seq<char>)
    ensures
        spec_execute(uri, fetch, StoreEventView::Failed(cause)).0 is Some ==> spec_execute(
            uri,
            fetch,
            StoreEventView::Failed(cause),
        ).1 == Err::<(), TaskErrorView>(TaskErrorView::Store { task: task_name(), cause }),
        spec_execute(uri, fetch, StoreEventView::Failed(cause)).0 is Some ==> (spec_execute(
            uri,
            fetch,
            StoreEventView::Failed(cause),
        ).1 matches Err(e) && spec_retryable(e)),
{
}

} // verus!
