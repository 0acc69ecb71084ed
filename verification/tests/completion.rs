use body_metrics::metrics::body::ResponseBody;
use body_metrics::metrics::body_tracker::{BodyTracker, PollEvent};
use body_metrics::metrics::classify::{classify_status, Classification, FailureClass, NeverPending};
use body_metrics::metrics::future::{ResolvedResponse, ResponseFuture};
use body_metrics::metrics::{Metrics, MetricsLayer};
use body_metrics::tracker::{BytesRWTrackerLayer, BytesRWTrackerService};
use http::header::{HeaderMap, HeaderName, HeaderValue};
use std::time::{Duration, Instant};

type DefaultBody = ResponseBody<&'static str, NeverPending, FailureClass>;

#[test]
fn a_downstream_error_is_handed_on_as_it_is() {
    let tracker = BodyTracker::new(());
    let mut future = ResponseFuture::new((), "classifier", tracker.handle(), 0, Instant::now());
    assert!(future.is_waiting());
    let resolution = future.begin_finalizing();
    assert_eq!(resolution.classifier, "classifier");
    let emitted: Result<DefaultBody, String> = future.finish(Err("downstream broke".to_string()));
    match emitted {
        Err(error) => assert_eq!(error, "downstream broke"),
        Ok(_) => panic!("a body was made"),
    }
    assert!(!future.is_waiting());
}

#[test]
fn an_error_completes_without_finalizing() {
    let tracker = BodyTracker::new(());
    let mut future = ResponseFuture::new((), (), tracker.handle(), 0, Instant::now());
    let emitted: Result<DefaultBody, u32> = future.finish(Err(17));
    assert!(matches!(emitted, Err(17)));
    assert!(!future.is_waiting());
}

#[test]
fn the_classifier_is_handed_out_once() {
    let tracker = BodyTracker::new(());
    let mut future = ResponseFuture::new((), 5u8, tracker.handle(), 0, Instant::now());
    assert!(future.is_waiting());
    assert_eq!(future.begin_finalizing().classifier, 5);
    assert!(!future.is_waiting());
    let emitted: Result<DefaultBody, ()> = future.finish(Err(()));
    assert!(emitted.is_err());
    assert!(!future.is_waiting());
}

#[test]
fn the_resolution_reports_what_it_is_given() {
    let start = Instant::now();
    let later = start + Duration::from_millis(1500);
    let tracker = BodyTracker::new(());
    let mut future = ResponseFuture::new((), 'c', tracker.handle(), 31, start);
    let resolution = future.begin_finalizing_at(8, later);
    assert_eq!(resolution.request_bytes_read, 8);
    assert_eq!(resolution.request_header_size, 31);
    assert_eq!(resolution.classifier, 'c');
    assert_eq!(resolution.start, start);
    assert_eq!(resolution.elapsed, Duration::from_millis(1500));
    assert!(!future.is_waiting());
}

#[test]
fn no_time_has_passed_where_the_resolution_is_the_earlier() {
    let start = Instant::now();
    let tracker = BodyTracker::new(());
    let mut before = ResponseFuture::new((), (), tracker.handle(), 0, start + Duration::from_secs(2));
    assert_eq!(before.begin_finalizing_at(0, start).elapsed, Duration::ZERO);
    let mut at = ResponseFuture::new((), (), tracker.handle(), 0, start);
    assert_eq!(at.begin_finalizing_at(0, start).elapsed, Duration::ZERO);
}

#[test]
fn the_resolution_reads_the_clock() {
    let start = Instant::now();
    let tracker = BodyTracker::new(());
    let mut future = ResponseFuture::new((), (), tracker.handle(), 4, start);
    let resolution = future.begin_finalizing();
    assert_eq!(resolution.start, start);
    assert_eq!(resolution.request_header_size, 4);
    assert!(resolution.elapsed <= start.elapsed());
}

#[test]
fn a_response_is_wrapped_with_the_start_of_the_request() {
    let start = Instant::now();
    let tracker = BodyTracker::new(());
    let mut future = ResponseFuture::new((), (), tracker.handle(), 0, start);
    let resolution = future.begin_finalizing();
    assert_eq!(resolution.start, start);
    let response = ResolvedResponse { body: "payload", classification: classify_status(503) };
    let emitted: Result<DefaultBody, String> = future.finish(Ok(response));
    let mut body = emitted.ok().expect("a body");
    assert_eq!(body.last_activity(), start);
    assert!(!body.has_ended());
    assert_eq!(*body.inner_mut(), "payload");
    assert_eq!(body.classification(), Some(&Err(FailureClass::StatusCode(503))));
}

#[test]
fn a_pending_classification_travels_with_the_body() {
    let tracker = BodyTracker::new(());
    let mut future = ResponseFuture::new((), (), tracker.handle(), 0, Instant::now());
    let response: ResolvedResponse<(), String, u8> =
        ResolvedResponse { body: (), classification: Classification::PendingUntilStreamEnd(9) };
    let emitted: Result<ResponseBody<(), u8, String>, ()> = future.finish(Ok(response));
    let mut body = emitted.ok().expect("a body");
    assert_eq!(body.classification(), None);
    assert_eq!(body.on_trailers(), Some(9));
}

#[test]
fn the_completion_reads_the_request_bytes() {
    let mut tracker = BodyTracker::new(());
    let mut future = ResponseFuture::new((), (), tracker.handle(), 0, Instant::now());
    tracker.record(PollEvent::Chunk(12));
    tracker.record(PollEvent::Chunk(30));
    let resolution = future.begin_finalizing();
    assert_eq!(resolution.request_bytes_read, 42);
}

#[test]
fn the_inner_completion_can_be_polled() {
    let tracker = BodyTracker::new(());
    let mut future = ResponseFuture::new(vec![1u8], (), tracker.handle(), 0, Instant::now());
    future.inner_mut().push(2);
    assert_eq!(future.inner_mut().len(), 2);
    assert!(future.is_waiting());
}

#[test]
fn end_to_end_request_of_two_chunks_and_status_200() {
    let mut headers = HeaderMap::new();
    headers.insert(HeaderName::from_static("host"), HeaderValue::from_static("example.org"));
    headers.insert(HeaderName::from_static("content-length"), HeaderValue::from_static("8"));
    let mut service = MetricsLayer.layer("downstream");
    assert_eq!(*service.inner_mut(), "downstream");

    let request = service.track_request(&headers, "request body");
    assert_eq!(request.header_size, (4 + 11) + (14 + 1));
    assert_eq!(request.handle.read(), 0);
    let mut tracker = request.tracker;
    let mut future =
        ResponseFuture::new((), (), request.handle, request.header_size, request.start);

    tracker.record(PollEvent::Chunk(5));
    tracker.record(PollEvent::Chunk(3));
    tracker.record(PollEvent::End);

    assert_eq!(tracker.bytes_read(), 8);
    let resolution = future.begin_finalizing();
    assert_eq!(resolution.request_bytes_read, 8);
    assert_eq!(resolution.request_header_size, 30);
    assert_eq!(resolution.start, request.start);
    let classification = classify_status(200);
    assert!(matches!(classification, Classification::Success));
    let response = ResolvedResponse { body: "", classification };
    let emitted: Result<DefaultBody, String> = future.finish(Ok(response));
    let body = emitted.ok().expect("a body");
    assert_eq!(body.classification(), Some(&Ok(())));
    assert_eq!(tracker.handle().read(), 8);
}

#[test]
fn track_request_at_keeps_the_start() {
    let start = Instant::now();
    let service = Metrics::new(());
    let request = service.track_request_at(&HeaderMap::new(), vec![0u8; 4], start);
    assert_eq!(request.start, start);
    assert_eq!(request.header_size, 0);
    assert_eq!(request.tracker.body_ref().len(), 4);
    assert_eq!(request.tracker.bytes_read(), 0);
    let _maker = service.make_classifier();
}

#[test]
fn the_tracking_service_hands_out_a_handle_on_the_body() {
    let mut service = BytesRWTrackerLayer.layer(3u8);
    assert_eq!(*service.inner_mut(), 3);
    let (mut tracker, handle) = service.track("body");
    assert_eq!(handle.read(), 0);
    tracker.record(PollEvent::Chunk(4));
    assert_eq!(handle.read(), 4);
    assert_eq!(tracker.bytes_read(), 4);
    assert_eq!(*tracker.body_ref(), "body");
    let other = BytesRWTrackerService::new(());
    let (_, untouched) = other.track(());
    assert_eq!(untouched.read(), 0);
}
