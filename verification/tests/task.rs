use download_metadata::payload::DownloadMetadata;
use download_metadata::sanitize::sanitize_str;
use download_metadata::task::{
    AfterStore, Decision, Document, DownloadMetadataTask, FetchEvent, Plan, StoreEvent, TaskError,
    FETCH_TIMEOUT_SECS,
};

fn payload(uri: &str) -> DownloadMetadata {
    DownloadMetadata {
        asset_data_id: vec![1, 2, 3],
        uri: uri.to_string(),
        created_at: None,
    }
}

#[test]
fn sanitize_trims_and_strips_nuls() {
    let mut p = payload(" https://example.com/meta.json\0");
    p.sanitize();
    assert_eq!(p.uri, "https://example.com/meta.json");
    assert_eq!(p.asset_data_id, vec![1, 2, 3]);
    assert_eq!(p.created_at, None);
}

#[test]
fn sanitize_is_idempotent_on_concrete_input() {
    let once = sanitize_str(" \t a\0b \n ");
    assert_eq!(once, "ab");
    let twice = sanitize_str(&once);
    assert_eq!(twice, once);
}

#[test]
fn sanitize_of_whitespace_only_is_empty() {
    assert_eq!(sanitize_str(" \t\r\n "), "");
}

#[test]
fn sanitize_of_empty_is_empty() {
    assert_eq!(sanitize_str(""), "");
}

#[test]
fn sanitize_of_nuls_only_is_empty() {
    assert_eq!(sanitize_str("\0\0"), "");
}

#[test]
fn sanitize_keeps_interior_whitespace() {
    assert_eq!(sanitize_str("a b"), "a b");
}

#[test]
fn sanitize_strips_nuls_before_trimming() {
    // A nul between edge whitespace: stripping first lets the trim reach
    // the whitespace that the nul was shielding.
    assert_eq!(sanitize_str(" \0 x"), "x");
}

#[test]
fn plan_fetches_a_valid_uri_after_sanitizing() {
    let task = DownloadMetadataTask {};
    let mut p = payload(" https://example.com/meta.json\0");
    let plan = task.plan(&mut p);
    assert_eq!(plan, Plan::Fetch("https://example.com/meta.json".to_string()));
    assert_eq!(p.uri, "https://example.com/meta.json");
}

#[test]
fn plan_writes_sentinel_for_invalid_uri() {
    let task = DownloadMetadataTask {};
    let mut p = payload("not a uri");
    assert_eq!(task.plan(&mut p), Plan::WriteSentinel);
}

#[test]
fn plan_writes_sentinel_for_empty_uri() {
    let task = DownloadMetadataTask {};
    let mut p = payload(" \0 ");
    assert_eq!(task.plan(&mut p), Plan::WriteSentinel);
}

#[test]
fn classify_persists_parsed_success_body() {
    let task = DownloadMetadataTask {};
    let body = b"{\"name\":\"x\"}".to_vec();
    let d = task.classify_fetch(FetchEvent::Response {
        status: 200,
        body: body.clone(),
    });
    assert_eq!(
        d,
        Decision::Persist {
            document: Document::Json(body),
            after: AfterStore::Success,
        }
    );
}

#[test]
fn classify_fails_retryable_on_http_500() {
    let task = DownloadMetadataTask {};
    let d = task.classify_fetch(FetchEvent::Response {
        status: 500,
        body: b"oops".to_vec(),
    });
    assert_eq!(d, Decision::Fail(TaskError::Http(500)));
    match d {
        Decision::Fail(e) => assert!(e.is_retryable()),
        Decision::Persist { .. } => panic!("http failure must not persist"),
    }
}

#[test]
fn classify_fails_retryable_on_transport_error() {
    let task = DownloadMetadataTask {};
    let d = task.classify_fetch(FetchEvent::Transport("connection refused".to_string()));
    assert_eq!(
        d,
        Decision::Fail(TaskError::Fetch("connection refused".to_string()))
    );
}

#[test]
fn classify_fails_retryable_on_unparseable_body() {
    let task = DownloadMetadataTask {};
    let d = task.classify_fetch(FetchEvent::Response {
        status: 200,
        body: b"not structured data".to_vec(),
    });
    assert_eq!(d, Decision::Fail(TaskError::BodyParse));
    match d {
        Decision::Fail(e) => assert!(e.is_retryable()),
        Decision::Persist { .. } => panic!("an unparseable body must not persist"),
    }
}

#[test]
fn settle_reports_success_after_written_store() {
    let task = DownloadMetadataTask {};
    assert_eq!(
        task.settle(AfterStore::Success, StoreEvent::Written),
        Ok(())
    );
}

#[test]
fn settle_reports_unrecoverable_after_sentinel_write() {
    let task = DownloadMetadataTask {};
    let r = task.settle(AfterStore::Unrecoverable, StoreEvent::Written);
    assert_eq!(r, Err(TaskError::Unrecoverable));
    assert!(!r.unwrap_err().is_retryable());
}

#[test]
fn settle_wraps_store_failure_with_task_name_and_cause() {
    let task = DownloadMetadataTask {};
    let r = task.settle(
        AfterStore::Success,
        StoreEvent::Failed("connection reset".to_string()),
    );
    assert_eq!(
        r,
        Err(TaskError::Store {
            task: "DownloadMetadata".to_string(),
            cause: "connection reset".to_string(),
        })
    );
    assert!(r.unwrap_err().is_retryable());
}

#[test]
fn store_failure_is_retryable_even_for_invalid_uri() {
    let task = DownloadMetadataTask {};
    let r = task.settle(
        AfterStore::Unrecoverable,
        StoreEvent::Failed("db down".to_string()),
    );
    assert!(r.unwrap_err().is_retryable());
}

#[test]
fn descriptor_values_are_fixed() {
    let task = DownloadMetadataTask {};
    assert_eq!(task.name(), "DownloadMetadata");
    assert_eq!(task.lock_duration(), 5);
    assert_eq!(task.max_attempts(), 3);
    assert_eq!(task.sentinel_text(), "Invalid Uri");
    assert_eq!(FETCH_TIMEOUT_SECS, 3);
}

#[test]
fn every_failure_but_invalid_uri_is_retryable() {
    assert!(TaskError::Fetch("timed out".to_string()).is_retryable());
    assert!(TaskError::Http(503).is_retryable());
    assert!(TaskError::BodyParse.is_retryable());
    assert!(TaskError::Payload("bad field".to_string()).is_retryable());
    assert!(TaskError::Store {
        task: "DownloadMetadata".to_string(),
        cause: "db down".to_string(),
    }
    .is_retryable());
    assert!(!TaskError::Unrecoverable.is_retryable());
}

#[test]
fn end_to_end_success_scenario() {
    let task = DownloadMetadataTask {};
    let mut p = payload(" https://example.com/meta.json\0");
    let plan = task.plan(&mut p);
    let uri = match plan {
        Plan::Fetch(uri) => uri,
        Plan::WriteSentinel => panic!("the sanitized URI is valid"),
    };
    assert_eq!(uri, "https://example.com/meta.json");
    let d = task.classify_fetch(FetchEvent::Response {
        status: 200,
        body: b"{\"a\":1}".to_vec(),
    });
    let (document, after) = match d {
        Decision::Persist { document, after } => (document, after),
        Decision::Fail(_) => panic!("a parsed 200 body persists"),
    };
    assert_eq!(document, Document::Json(b"{\"a\":1}".to_vec()));
    assert_eq!(p.asset_data_id, vec![1, 2, 3]);
    assert_eq!(task.settle(after, StoreEvent::Written), Ok(()));
}
