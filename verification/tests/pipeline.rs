use upload_core::error::Error;
use upload_core::machine::{UploadEvent, UploadMachine, UploadState};
use upload_core::progress::{ProgressPayload, ProgressTracker};
use upload_core::request::UploadJob;
use upload_core::response::decode_response;

fn json(text: &str) -> serde_json::Value {
    serde_json::from_str(text).unwrap()
}

#[test]
fn ten_bytes_in_two_chunks_completes() {
    // A file of 10 bytes read in two 5-byte chunks: events (5,10) then
    // (10,10), then the job completes and the decoded response comes back
    // unchanged.
    let mut m = UploadMachine::new(1);
    assert!(m.step(UploadEvent::Opened { total: 10 }).is_none());
    let e1 = m.step(UploadEvent::Chunk { len: 5 });
    assert_eq!(e1, Some(ProgressPayload { id: 1, progress: 5, total: 10 }));
    let e2 = m.step(UploadEvent::Chunk { len: 5 });
    assert_eq!(e2, Some(ProgressPayload { id: 1, progress: 10, total: 10 }));
    assert!(m.step(UploadEvent::EndOfStream).is_none());
    let body = b"{\"ok\":true}".to_vec();
    assert!(m.step(UploadEvent::Response { body }).is_none());
    match &m.state {
        UploadState::Completed(v) => assert_eq!(*v, json("{\"ok\":true}")),
        _ => panic!("job did not complete"),
    }
}

#[test]
fn headers_carried_verbatim_and_response_returned() {
    // headers = {"X-Auth": "abc"}, URL https://example.test/put: the
    // outgoing request carries exactly that header; a transport answering
    // {"ok":true} makes the upload return {"ok":true}.
    let job = UploadJob {
        id: 4,
        url: String::from("https://example.test/put"),
        file_path: String::from("data.bin"),
        headers: vec![(String::from("X-Auth"), String::from("abc"))],
    };
    let plan = job.into_plan();
    assert_eq!(plan.url, "https://example.test/put");
    assert_eq!(plan.headers.len(), 1);
    assert_eq!(plan.headers[0].0, "X-Auth");
    assert_eq!(plan.headers[0].1, "abc");

    let decoded = decode_response(&b"{\"ok\":true}".to_vec()).unwrap();
    assert_eq!(decoded, json("{\"ok\":true}"));
}

#[test]
fn open_failure_is_io_and_emits_nothing() {
    // A path that does not exist: the result is an I/O-failure string and
    // no progress event is ever published; the job never reaches the
    // network.
    let mut m = UploadMachine::new(9);
    let msg = String::from("No such file or directory (os error 2)");
    let emitted = m.step(UploadEvent::OpenFailed { message: msg.clone() });
    assert!(emitted.is_none());
    match &m.state {
        UploadState::Failed(e) => {
            assert!(matches!(e, Error::Io(_)));
            assert_eq!(e.message(), msg);
        }
        _ => panic!("job did not fail"),
    }
    // The failed job is inert: further events emit nothing.
    assert!(m.step(UploadEvent::Chunk { len: 3 }).is_none());
    assert!(m.step(UploadEvent::EndOfStream).is_none());
    assert!(matches!(m.state, UploadState::Failed(Error::Io(_))));
}

#[test]
fn transport_failure_after_partial_streaming() {
    // A transport failure after part of the file has streamed: a
    // Request-class failure, and no progress event at or after the failure.
    let mut m = UploadMachine::new(2);
    m.step(UploadEvent::Opened { total: 8 });
    let e1 = m.step(UploadEvent::Chunk { len: 4 });
    assert_eq!(e1, Some(ProgressPayload { id: 2, progress: 4, total: 8 }));
    let failure = m.step(UploadEvent::TransportFailed {
        message: String::from("connection reset by peer"),
    });
    assert!(failure.is_none());
    match &m.state {
        UploadState::Failed(e) => {
            assert!(matches!(e, Error::Request(_)));
            assert_eq!(e.message(), "connection reset by peer");
        }
        _ => panic!("job did not fail"),
    }
    assert!(m.step(UploadEvent::Chunk { len: 4 }).is_none());
    assert!(matches!(m.state, UploadState::Failed(Error::Request(_))));
}

#[test]
fn transport_failure_while_awaiting_response() {
    let mut m = UploadMachine::new(3);
    m.step(UploadEvent::Opened { total: 1 });
    m.step(UploadEvent::Chunk { len: 1 });
    m.step(UploadEvent::EndOfStream);
    let emitted = m.step(UploadEvent::TransportFailed {
        message: String::from("timed out"),
    });
    assert!(emitted.is_none());
    assert!(matches!(m.state, UploadState::Failed(Error::Request(_))));
}

#[test]
fn read_failure_mid_stream_is_io() {
    let mut m = UploadMachine::new(5);
    m.step(UploadEvent::Opened { total: 100 });
    m.step(UploadEvent::Chunk { len: 10 });
    let emitted = m.step(UploadEvent::ReadFailed {
        message: String::from("file disappeared mid-read"),
    });
    assert!(emitted.is_none());
    match &m.state {
        UploadState::Failed(e) => assert!(matches!(e, Error::Io(_))),
        _ => panic!("job did not fail"),
    }
}

#[test]
fn undecodable_response_is_request_failure() {
    let mut m = UploadMachine::new(6);
    m.step(UploadEvent::Opened { total: 0 });
    m.step(UploadEvent::EndOfStream);
    let emitted = m.step(UploadEvent::Response { body: b"not json at all".to_vec() });
    assert!(emitted.is_none());
    match &m.state {
        UploadState::Failed(e) => {
            assert!(matches!(e, Error::Request(_)));
            assert!(!e.message().is_empty());
        }
        _ => panic!("job did not fail"),
    }
}

#[test]
fn tracker_counts_are_strictly_increasing_to_total() {
    // Chunks of 3, 4 and 3 bytes over a 10-byte file: cumulative counts
    // 3, 7, 10 — one event per chunk, strictly increasing, ending at the
    // total.
    let mut t = ProgressTracker::new(8, 10);
    let p1 = t.record_chunk(3);
    let p2 = t.record_chunk(4);
    let p3 = t.record_chunk(3);
    assert_eq!(p1, ProgressPayload { id: 8, progress: 3, total: 10 });
    assert_eq!(p2, ProgressPayload { id: 8, progress: 7, total: 10 });
    assert_eq!(p3, ProgressPayload { id: 8, progress: 10, total: 10 });
    assert!(p1.progress < p2.progress && p2.progress < p3.progress);
    assert_eq!(p3.progress, p3.total);
    assert_eq!(t.transferred, 10);
}

#[test]
fn empty_file_produces_no_events() {
    let mut m = UploadMachine::new(11);
    assert!(m.step(UploadEvent::Opened { total: 0 }).is_none());
    assert!(m.step(UploadEvent::EndOfStream).is_none());
    let body = b"{}".to_vec();
    assert!(m.step(UploadEvent::Response { body }).is_none());
    assert!(matches!(m.state, UploadState::Completed(_)));
}

#[test]
fn error_messages_render_verbatim() {
    assert_eq!(Error::Io(String::from("gone")).message(), "gone");
    assert_eq!(Error::Request(String::from("refused")).message(), "refused");
    assert_eq!(
        Error::ContentLength(String::from("declared 10, sent 7")).message(),
        "declared 10, sent 7"
    );
}

#[test]
fn decode_keeps_structure_intact() {
    let body = b"{\"items\":[1,2,3],\"name\":\"backup\"}".to_vec();
    let v = decode_response(&body).unwrap();
    assert_eq!(v, json("{\"items\":[1,2,3],\"name\":\"backup\"}"));
    assert_eq!(v["items"][2], json("3"));
}
