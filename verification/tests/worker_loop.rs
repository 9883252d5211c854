use reqtui::errors::ErrorKind;
use reqtui::request::{build_request, Method, RequestSpec};
use reqtui::worker::{classify_exchange, worker_step, ExchangeOutcome, WorkerEvent, WorkerStep};

fn request_to(url: &str) -> RequestSpec {
    let url_lines = vec![url.to_string()];
    let body_lines = vec![String::new()];
    build_request(Method::Get, &url_lines, &body_lines).unwrap()
}

fn run_loop(events: Vec<WorkerEvent>) -> Vec<RequestSpec> {
    let mut performed = Vec::new();
    for ev in events {
        match worker_step(ev) {
            WorkerStep::Stop => break,
            WorkerStep::Perform(r) => performed.push(r),
        }
    }
    performed
}

#[test]
fn classify_transport_failure() {
    let out = ExchangeOutcome::TransportFailed("connection refused".to_string());
    match classify_exchange(out) {
        Err(ErrorKind::Transport(m)) => assert_eq!(m, "connection refused"),
        _ => panic!("a transport failure must be reported as Transport"),
    }
}

#[test]
fn classify_json_response_body() {
    let out = ExchangeOutcome::BodyText("{\"ok\": true}".to_string());
    let v = classify_exchange(out).unwrap();
    let expected: serde_json::Value = serde_json::from_str("{\"ok\": true}").unwrap();
    assert_eq!(v, expected);
}

#[test]
fn classify_non_json_response_body() {
    let out = ExchangeOutcome::BodyText("<html></html>".to_string());
    let expected_msg = serde_json::from_str::<serde_json::Value>("<html></html>")
        .unwrap_err()
        .to_string();
    match classify_exchange(out) {
        Err(ErrorKind::ResponseParse(m)) => assert_eq!(m, expected_msg),
        _ => panic!("a response body that is not JSON must be ResponseParse"),
    }
}

#[test]
fn cancellation_stops_the_loop_before_queued_requests() {
    let events = vec![
        WorkerEvent::CancelObserved,
        WorkerEvent::Arrived(request_to("http://httpbin.org/get")),
    ];
    let performed = run_loop(events);
    assert!(performed.is_empty());
}

#[test]
fn cancellation_after_one_request_drops_the_rest() {
    let events = vec![
        WorkerEvent::Arrived(request_to("http://a.example")),
        WorkerEvent::CancelObserved,
        WorkerEvent::Arrived(request_to("http://b.example")),
    ];
    let performed = run_loop(events);
    assert_eq!(performed.len(), 1);
    assert_eq!(performed[0].url, "http://a.example");
}

#[test]
fn closed_queue_stops_the_loop() {
    let events = vec![WorkerEvent::QueueClosed];
    assert!(run_loop(events).is_empty());
}

#[test]
fn undisturbed_loop_serves_each_request_once_in_order() {
    let events = vec![
        WorkerEvent::Arrived(request_to("http://a.example")),
        WorkerEvent::Arrived(request_to("http://b.example")),
    ];
    let performed = run_loop(events);
    assert_eq!(performed.len(), 2);
    assert_eq!(performed[0].url, "http://a.example");
    assert_eq!(performed[1].url, "http://b.example");
    // one exchange outcome per performed request yields exactly one result each
    let mut results = Vec::new();
    for _ in &performed {
        results.push(classify_exchange(ExchangeOutcome::BodyText("null".to_string())));
    }
    assert_eq!(results.len(), performed.len());
}
