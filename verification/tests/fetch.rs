use web0::fetch::FetchController;
use web0::headers::Headers;
use web0::request::{Method, Request};
use web0::response::{FetchOutcome, RawResponse, TransportError};

fn delivered(body: &str) -> FetchOutcome {
    Ok(RawResponse {
        url: "http://x/ok".to_owned(),
        status: 200,
        status_text: "OK".to_owned(),
        headers: Headers::new(),
        bytes: body.as_bytes().to_vec(),
    })
}

fn body_of(outcome: Option<FetchOutcome>) -> Option<Vec<u8>> {
    match outcome {
        Some(Ok(raw)) => Some(raw.bytes),
        _ => None,
    }
}

#[test]
fn new_controller_is_idle() {
    let mut controller = FetchController::new();
    assert!(!controller.is_busy());
    assert!(controller.can_start());
    assert!(controller.poll().is_none());
}

#[test]
fn start_returns_the_request_with_a_fresh_ticket() {
    let mut controller = FetchController::new();
    let first = controller.start(Request::get("http://x/1"));
    assert_eq!(first.ticket, 1);
    assert_eq!(first.request.url(), "http://x/1");
    assert_eq!(first.request.method(), Method::Get);
    assert!(first.request.body().is_empty());
    assert!(controller.is_busy());
    let second = controller.start(Request::post("http://x/2", vec![1, 2, 3]));
    assert_eq!(second.ticket, 2);
    assert_eq!(second.request.method(), Method::Post);
    assert_eq!(second.request.body(), &vec![1, 2, 3]);
    assert!(controller.is_busy());
}

#[test]
fn poll_before_completion_returns_nothing_and_stays_busy() {
    let mut controller = FetchController::new();
    controller.start(Request::get("http://x/ok"));
    assert!(controller.poll().is_none());
    assert!(controller.poll().is_none());
    assert!(controller.is_busy());
}

#[test]
fn poll_after_completion_returns_the_outcome_once() {
    let mut controller = FetchController::new();
    let dispatch = controller.start(Request::get("http://x/ok"));
    controller.complete(dispatch.ticket, delivered("hello"));
    assert!(controller.is_busy());
    assert_eq!(body_of(controller.poll()), Some(b"hello".to_vec()));
    assert!(!controller.is_busy());
    assert!(controller.poll().is_none());
    assert!(controller.poll().is_none());
    assert!(!controller.is_busy());
}

#[test]
fn only_the_last_start_is_observed() {
    let mut controller = FetchController::new();
    let first = controller.start(Request::get("http://x/1"));
    let second = controller.start(Request::get("http://x/2"));
    let third = controller.start(Request::get("http://x/3"));
    controller.complete(first.ticket, delivered("one"));
    assert!(controller.poll().is_none());
    controller.complete(second.ticket, delivered("two"));
    assert!(controller.poll().is_none());
    assert!(controller.is_busy());
    controller.complete(third.ticket, delivered("three"));
    controller.complete(first.ticket, delivered("one again"));
    assert_eq!(body_of(controller.poll()), Some(b"three".to_vec()));
    assert!(!controller.is_busy());
}

#[test]
fn an_outcome_that_arrived_is_dropped_by_the_next_start() {
    let mut controller = FetchController::new();
    let first = controller.start(Request::get("http://x/1"));
    controller.complete(first.ticket, delivered("one"));
    let second = controller.start(Request::get("http://x/2"));
    assert!(controller.poll().is_none());
    assert!(controller.is_busy());
    controller.complete(second.ticket, delivered("two"));
    assert_eq!(body_of(controller.poll()), Some(b"two".to_vec()));
}

#[test]
fn a_late_report_after_the_poll_is_dropped() {
    let mut controller = FetchController::new();
    let first = controller.start(Request::get("http://x/1"));
    controller.complete(first.ticket, delivered("one"));
    assert!(controller.poll().is_some());
    controller.complete(first.ticket, delivered("one again"));
    assert!(controller.poll().is_none());
    assert!(!controller.is_busy());
}

#[test]
fn the_slot_carries_one_message() {
    let mut controller = FetchController::new();
    let dispatch = controller.start(Request::get("http://x/1"));
    controller.complete(dispatch.ticket, delivered("first"));
    controller.complete(dispatch.ticket, delivered("second"));
    assert_eq!(body_of(controller.poll()), Some(b"first".to_vec()));
    assert!(controller.poll().is_none());
}

#[test]
fn a_report_under_an_unknown_ticket_is_dropped() {
    let mut controller = FetchController::new();
    controller.complete(0, delivered("zero"));
    controller.complete(7, delivered("seven"));
    assert!(controller.poll().is_none());
    assert!(!controller.is_busy());
    let dispatch = controller.start(Request::get("http://x/1"));
    controller.complete(dispatch.ticket + 1, delivered("next"));
    assert!(controller.poll().is_none());
    assert!(controller.is_busy());
}

#[test]
fn abort_is_polled_as_a_transport_failure() {
    let mut controller = FetchController::new();
    let dispatch = controller.start(Request::get("http://x/1"));
    controller.abort(dispatch.ticket);
    assert!(matches!(controller.poll(), Some(Err(TransportError::Aborted))));
    assert!(!controller.is_busy());
}

#[test]
fn abort_of_a_superseded_request_is_dropped() {
    let mut controller = FetchController::new();
    let first = controller.start(Request::get("http://x/1"));
    controller.start(Request::get("http://x/2"));
    controller.abort(first.ticket);
    assert!(controller.poll().is_none());
    assert!(controller.is_busy());
}

#[test]
fn a_transport_failure_is_polled_as_it_was_reported() {
    let mut controller = FetchController::new();
    let dispatch = controller.start(Request::get("http://x/1"));
    controller.complete(dispatch.ticket, Err(TransportError::Failed("connect refused".to_owned())));
    match controller.poll() {
        Some(Err(TransportError::Failed(message))) => assert_eq!(message, "connect refused"),
        _ => panic!("expected the reported failure"),
    }
}

#[test]
fn get_has_no_body_and_post_keeps_its_body() {
    let get = Request::get("http://x/a");
    assert_eq!(get.url(), "http://x/a");
    assert_eq!(get.method(), Method::Get);
    assert!(get.body().is_empty());
    let post = Request::post("http://x/b", b"payload".to_vec());
    assert_eq!(post.url(), "http://x/b");
    assert_eq!(post.method(), Method::Post);
    assert_eq!(post.body(), &b"payload".to_vec());
    let empty = Request::post("http://x/c", Vec::new());
    assert_eq!(empty.method(), Method::Post);
    assert!(empty.body().is_empty());
}
