use reqwest::Method;
use std::sync::atomic::{AtomicUsize, Ordering};
use std::sync::Arc;
use stepper::context::Context;
use stepper::errors::StepError;
use stepper::request::Request;
use stepper::steps::Stepable;
use stepper::worker::{accepts, Captured, Sent, StepStart, Worker};

#[derive(Clone, Copy)]
struct RobotsTxt;

const ROBOTS_TXT: &str = "RobotsTxt";
const SKIPPABLE_STEP: &str = "SkippableStep";

impl Stepable for RobotsTxt {
    fn name(&self) -> String {
        String::from(ROBOTS_TXT)
    }

    fn on_request(&self) -> Request {
        Request::new(Method::GET, "https://google.com".to_string())
    }

    fn on_success(&self, ctx: &mut Context) {
        println!(
            "Successfully fetched: {} in {}\n\nURL: {}\nBody: {:?}",
            ctx.get_current_step().unwrap(),
            ctx.get_time_elapsed_as_string(),
            ctx.get_url(),
            ctx.body_text().unwrap(),
        );
    }

    fn on_error(&self, _ctx: &mut Context, _err: StepError) {
        unreachable!()
    }

    fn on_timeout(&self, _ctx: &mut Context) {
        unreachable!()
    }
}

#[derive(Clone, Copy)]
struct SkippableStep;

impl Stepable for SkippableStep {
    fn name(&self) -> String {
        String::from(SKIPPABLE_STEP)
    }

    fn on_request(&self) -> Request {
        Request::new(Method::GET, "https://google.com".to_string())
            .skip_to(Some(ROBOTS_TXT.to_string()))
    }

    fn on_success(&self, _ctx: &mut Context) {
        unreachable!("This step should never be called")
    }

    fn on_error(&self, _ctx: &mut Context, _err: StepError) {
        unreachable!("This step should never be called")
    }

    fn on_timeout(&self, _ctx: &mut Context) {
        unreachable!("This step should never be called")
    }
}

/// A step that counts what it is told, and records the last error.
struct Probe {
    name: &'static str,
    request: fn() -> Request,
    next: Option<&'static str>,
    requests: AtomicUsize,
    successes: AtomicUsize,
    errors: AtomicUsize,
    timeouts: AtomicUsize,
}

impl Probe {
    fn new(name: &'static str, request: fn() -> Request, next: Option<&'static str>) -> Probe {
        Probe {
            name,
            request,
            next,
            requests: AtomicUsize::new(0),
            successes: AtomicUsize::new(0),
            errors: AtomicUsize::new(0),
            timeouts: AtomicUsize::new(0),
        }
    }

    fn told(&self) -> (usize, usize, usize) {
        (
            self.successes.load(Ordering::SeqCst),
            self.errors.load(Ordering::SeqCst),
            self.timeouts.load(Ordering::SeqCst),
        )
    }
}

impl Stepable for Probe {
    fn name(&self) -> String {
        self.name.to_string()
    }

    fn on_request(&self) -> Request {
        self.requests.fetch_add(1, Ordering::SeqCst);
        (self.request)()
    }

    fn on_success(&self, ctx: &mut Context) {
        self.successes.fetch_add(1, Ordering::SeqCst);
        assert_eq!(ctx.get_next_step(), None);
        assert!(ctx.response_body.is_some());
        if let Some(next) = self.next {
            ctx.set_next_step(next.to_string());
        }
    }

    fn on_error(&self, ctx: &mut Context, err: StepError) {
        self.errors.fetch_add(1, Ordering::SeqCst);
        ctx.set_next_step(err.message());
    }

    fn on_timeout(&self, _ctx: &mut Context) {
        self.timeouts.fetch_add(1, Ordering::SeqCst);
    }
}

fn get_with_200() -> Request {
    Request::new(Method::GET, "https://test.example/a".to_string()).with_status_codes(vec![200])
}

fn get_with_no_codes() -> Request {
    Request::new(Method::GET, "https://test.example/b".to_string())
}

fn get_with_empty_codes() -> Request {
    Request::new(Method::GET, "https://test.example/c".to_string()).with_status_codes(vec![])
}

fn skip_to_a() -> Request {
    Request::new(Method::GET, "https://test.example/skip".to_string())
        .skip_to(Some("A".to_string()))
}

fn bad_url() -> Request {
    Request::new(Method::GET, "nowhere".to_string()).with_status_codes(vec![418])
}

#[test]
fn worker_it_should_add_step() {
    let mut worker = Worker::new();
    worker.add_step(RobotsTxt);

    assert_eq!(worker.steps().len(), 1);
}

#[test]
fn worker_it_should_add_step_arc() {
    let mut worker = Worker::new();
    let step = Arc::new(RobotsTxt);
    worker.add_step_arc(step);

    assert_eq!(worker.steps().len(), 1);
}

#[test]
fn worker_it_should_get_step() {
    let mut worker = Worker::new();
    worker.add_step(RobotsTxt);

    let step = worker.get_step(ROBOTS_TXT).unwrap();
    assert_eq!(step.name(), ROBOTS_TXT);
}

#[test]
fn worker_it_should_call_on_request() {
    let mut worker = Worker::new();
    worker.add_step(RobotsTxt);

    let step = worker.get_step(ROBOTS_TXT).unwrap();
    let req = step.on_request();
    assert_eq!(req.method(), "GET");
}

#[test]
fn worker_it_should_update_context_from_request() {
    let mut worker = Worker::new();
    worker.add_step(RobotsTxt);

    let step = worker.get_step(ROBOTS_TXT).unwrap();
    let req = step.on_request();

    match worker.ctx.update_from_request(req) {
        Ok(_) => {
            assert_eq!(worker.ctx.get_method(), "GET");
            assert_eq!(worker.ctx.get_url(), "https://google.com");
        }
        Err(e) => {
            println!("Error: {}", e.message());
            unreachable!()
        }
    }
}

#[test]
fn it_should_update_current_step() {
    let mut worker: Worker = Worker::new();
    worker.ctx.set_current_step(ROBOTS_TXT.to_string());
    assert_eq!(worker.ctx.get_current_step().unwrap(), ROBOTS_TXT);
}

#[test]
fn worker_check_status_codes_should_return_true_if_status_code_matches() {
    let mut worker: Worker = Worker::new();
    worker.ctx.set_status_codes(vec![200]);

    assert!(worker.check_status_code(200));
}

#[test]
fn worker_check_status_codes_should_return_false_if_status_code_does_not_match() {
    let mut worker: Worker = Worker::new();
    worker.ctx.set_status_codes(vec![200]);

    assert!(!worker.check_status_code(404));
}

#[test]
fn worker_check_status_codes_should_use_default_status_codes_if_200_to_300_if_status_cares_are_empty(
) {
    let mut worker: Worker = Worker::new();
    worker.ctx.set_status_codes(vec![]);

    assert!(worker.check_status_code(200));
}

#[test]
fn worker_check_status_codes_should_use_default_status_codes_if_200_to_300_if_no_status_codes_are_set(
) {
    let worker: Worker = Worker::new();

    assert!(worker.check_status_code(200));
    assert!(!worker.check_status_code(404));
}

#[test]
fn it_should_skip_to_step() {
    let mut worker = Worker::new();
    worker.add_step(SkippableStep);

    let step = worker.get_step(SKIPPABLE_STEP).unwrap();
    let req = step.on_request();

    assert_eq!(req.get_skip_to_step().unwrap(), ROBOTS_TXT);
}

#[test]
fn default_range_is_the_same_for_no_list_and_an_empty_list() {
    let empty = Some(Vec::new());
    for code in [0u16, 100, 199, 200, 204, 299, 300, 301, 404, 500, u16::MAX] {
        let expected = (200..300).contains(&code);
        assert_eq!(accepts(&None, code), expected);
        assert_eq!(accepts(&empty, code), expected);
    }
}

#[test]
fn a_list_accepts_what_it_names_and_nothing_else() {
    let policy = Some(vec![404, 200, 210]);
    assert!(accepts(&policy, 404));
    assert!(accepts(&policy, 200));
    assert!(accepts(&policy, 210));
    assert!(!accepts(&policy, 201));
    assert!(!accepts(&policy, 299));
    assert!(!accepts(&policy, 0));
}

#[test]
fn an_unregistered_name_is_not_found_and_the_context_stays() {
    let mut worker: Worker = Worker::new();
    worker.add_step_arc(Arc::new(Probe::new("A", get_with_200, None)));
    worker.ctx.set_next_step("before".to_string());
    worker.ctx.set_time_elapsed(5);
    for result in [
        worker.begin_step("B").map(|_| ()),
        worker.settle_sent("B", 9, Sent::Responded(200)),
        worker.settle_body("B", Captured::Read(bytes::Bytes::from_static(b"x"))),
    ] {
        match result {
            Err(StepError::StepNotFound(name)) => assert_eq!(name, "B"),
            _ => panic!("expected StepNotFound"),
        }
    }
    assert_eq!(worker.ctx.get_next_step(), Some("before".to_string()));
    assert_eq!(worker.ctx.get_current_step(), None);
    assert_eq!(worker.ctx.get_time_elapsed(), 5);
    assert_eq!(worker.ctx.get_url(), "/");
    assert!(worker.ctx.response_body.is_none());
}

#[test]
fn a_directive_sets_the_next_step_and_nothing_else() {
    let probe = Arc::new(Probe::new("B", skip_to_a, None));
    let mut worker: Worker = Worker::new();
    worker.add_step_arc(probe.clone());
    worker.ctx.set_current_step("earlier".to_string());
    worker.ctx.set_status_codes(vec![201]);
    worker.ctx.set_response_body(bytes::Bytes::from_static(b"old"));
    let had_handle = worker.ctx.request_builder.is_some();
    assert!(worker.get_step("A").is_none());

    assert!(matches!(worker.begin_step("B"), Ok(StepStart::Skipped)));

    assert_eq!(worker.ctx.get_next_step(), Some("A".to_string()));
    assert_eq!(worker.ctx.get_current_step(), Some("earlier".to_string()));
    assert_eq!(worker.ctx.get_status_codes(), Some(vec![201]));
    assert_eq!(worker.ctx.body_bytes().unwrap(), &b"old"[..]);
    assert_eq!(worker.ctx.get_url(), "/");
    assert_eq!(worker.ctx.request_builder.is_some(), had_handle);
    assert_eq!(probe.told(), (0, 0, 0));
    assert_eq!(probe.requests.load(Ordering::SeqCst), 1);
}

#[test]
fn a_full_run_captures_the_body_and_lets_the_step_route() {
    let probe = Arc::new(Probe::new("A", get_with_200, Some("A")));
    let mut worker: Worker = Worker::new();
    worker.add_step_arc(probe.clone());
    worker.ctx.set_next_step("stale".to_string());

    let handle = match worker.begin_step("A") {
        Ok(StepStart::Send(handle)) => handle,
        _ => panic!("expected a request to send"),
    };
    let request = handle.build().unwrap();
    assert_eq!(request.method(), Method::GET);
    assert_eq!(request.url().as_str(), "https://test.example/a");
    assert_eq!(worker.ctx.get_current_step(), Some("A".to_string()));
    assert_eq!(worker.ctx.get_status_codes(), Some(vec![200]));
    assert!(worker.ctx.request_builder.is_none());
    assert_eq!(worker.ctx.get_next_step(), Some("stale".to_string()));

    assert!(worker.settle_sent("A", 12, Sent::Responded(200)).is_ok());
    assert_eq!(worker.ctx.get_time_elapsed(), 12);
    assert_eq!(probe.told(), (0, 0, 0));

    let body = bytes::Bytes::from_static(b"User-agent: *");
    assert!(worker.settle_body("A", Captured::Read(body.clone())).is_ok());
    assert_eq!(probe.told(), (1, 0, 0));
    assert_eq!(worker.ctx.get_next_step(), Some("A".to_string()));
    assert_eq!(worker.ctx.body_bytes().unwrap(), body);
    assert_eq!(worker.ctx.get_current_step(), Some("A".to_string()));
    assert_eq!(worker.ctx.get_url(), "https://test.example/a");
}

#[test]
fn a_step_that_names_no_next_step_leaves_none() {
    let mut worker: Worker = Worker::new();
    worker.add_step_arc(Arc::new(Probe::new("A", get_with_200, Some("B"))));
    worker.add_step_arc(Arc::new(Probe::new("B", get_with_no_codes, None)));

    assert!(matches!(worker.begin_step("A"), Ok(StepStart::Send(_))));
    worker.settle_sent("A", 1, Sent::Responded(200)).unwrap();
    worker
        .settle_body("A", Captured::Read(bytes::Bytes::from_static(b"first")))
        .unwrap();
    assert_eq!(worker.ctx.get_next_step(), Some("B".to_string()));

    assert!(matches!(worker.begin_step("B"), Ok(StepStart::Send(_))));
    assert_eq!(worker.ctx.get_status_codes(), None);
    assert_eq!(worker.ctx.body_bytes().unwrap(), &b"first"[..]);
    worker.settle_sent("B", 2, Sent::Responded(204)).unwrap();
    worker
        .settle_body("B", Captured::Read(bytes::Bytes::from_static(b"second")))
        .unwrap();
    assert_eq!(worker.ctx.get_next_step(), None);
    assert_eq!(worker.ctx.body_bytes().unwrap(), &b"second"[..]);
    assert_eq!(worker.ctx.get_current_step(), Some("B".to_string()));
}

#[test]
fn a_status_outside_the_list_is_told_by_the_error_callback() {
    let probe = Arc::new(Probe::new("A", get_with_200, None));
    let mut worker: Worker = Worker::new();
    worker.add_step_arc(probe.clone());
    assert!(matches!(worker.begin_step("A"), Ok(StepStart::Send(_))));

    match worker.settle_sent("A", 30, Sent::Responded(404)) {
        Err(StepError::StatusCodeNotFound(code, expected)) => {
            assert_eq!(code, 404);
            assert_eq!(expected, vec![200]);
        }
        _ => panic!("expected StatusCodeNotFound"),
    }
    assert_eq!(probe.told(), (0, 1, 0));
    assert_eq!(worker.ctx.get_time_elapsed(), 30);
    assert!(worker.ctx.response_body.is_none());
    assert_eq!(
        worker.ctx.get_next_step(),
        Some("Unexpected status code 404. Expected one of: [200]".to_string())
    );
}

#[test]
fn no_list_and_an_empty_list_reject_alike() {
    for request in [get_with_no_codes as fn() -> Request, get_with_empty_codes] {
        let probe = Arc::new(Probe::new("A", request, None));
        let mut worker: Worker = Worker::new();
        worker.add_step_arc(probe.clone());
        assert!(matches!(worker.begin_step("A"), Ok(StepStart::Send(_))));
        assert!(worker.settle_sent("A", 1, Sent::Responded(200)).is_ok());
        assert_eq!(probe.told(), (0, 0, 0));
        match worker.settle_sent("A", 2, Sent::Responded(404)) {
            Err(StepError::StatusCodeNotFound(code, expected)) => {
                assert_eq!(code, 404);
                assert_eq!(expected, Vec::<u16>::new());
            }
            _ => panic!("expected StatusCodeNotFound"),
        }
        assert_eq!(probe.told(), (0, 1, 0));
    }
}

#[test]
fn a_timeout_is_told_by_the_timeout_callback_only() {
    let probe = Arc::new(Probe::new("A", get_with_200, None));
    let mut worker: Worker = Worker::new();
    worker.add_step_arc(probe.clone());
    assert!(matches!(worker.begin_step("A"), Ok(StepStart::Send(_))));
    assert!(matches!(
        worker.settle_sent("A", 30000, Sent::TimedOut),
        Err(StepError::TimeoutError)
    ));
    assert_eq!(probe.told(), (0, 0, 1));
    assert_eq!(worker.ctx.get_time_elapsed(), 30000);
    assert!(matches!(
        worker.settle_body("A", Captured::TimedOut),
        Err(StepError::TimeoutError)
    ));
    assert_eq!(probe.told(), (0, 0, 2));
}

#[test]
fn a_transport_failure_is_told_by_the_error_callback_only() {
    let probe = Arc::new(Probe::new("A", get_with_200, None));
    let mut worker: Worker = Worker::new();
    worker.add_step_arc(probe.clone());
    assert!(matches!(worker.begin_step("A"), Ok(StepStart::Send(_))));
    match worker.settle_sent("A", 7, Sent::Failed("connection refused".to_string())) {
        Err(StepError::TransportError(detail)) => assert_eq!(detail, "connection refused"),
        _ => panic!("expected a transport error"),
    }
    assert_eq!(probe.told(), (0, 1, 0));
    assert_eq!(worker.ctx.get_next_step(), Some("connection refused".to_string()));
    match worker.settle_body("A", Captured::Failed("body cut short".to_string())) {
        Err(StepError::TransportError(detail)) => assert_eq!(detail, "body cut short"),
        _ => panic!("expected a transport error"),
    }
    assert_eq!(probe.told(), (0, 2, 0));
    assert!(worker.ctx.response_body.is_none());
}

#[test]
fn a_request_that_cannot_be_built_tells_the_step_nothing() {
    let probe = Arc::new(Probe::new("A", bad_url, None));
    let mut worker: Worker = Worker::new();
    worker.add_step_arc(probe.clone());
    assert!(matches!(
        worker.begin_step("A"),
        Err(StepError::RequestBuildError)
    ));
    assert_eq!(probe.told(), (0, 0, 0));
    assert!(worker.ctx.request_builder.is_none());
    assert_eq!(worker.ctx.get_current_step(), None);
    assert_eq!(worker.ctx.get_url(), "/");
    assert_eq!(worker.ctx.get_status_codes(), Some(vec![418]));
}

#[test]
fn the_transports_answers_are_settled_like_plain_ones() {
    let probe = Arc::new(Probe::new("A", get_with_200, None));
    let mut worker: Worker = Worker::new();
    worker.add_step_arc(probe.clone());
    assert!(matches!(worker.begin_step("A"), Ok(StepStart::Send(_))));

    let failure = reqwest::Client::new().get("no url").build().unwrap_err();
    let text = format!("{}", failure);
    match worker.after_send("A", 4, Err(failure)) {
        Err(StepError::TransportError(detail)) => assert_eq!(detail, text),
        _ => panic!("expected a transport error"),
    }
    assert_eq!(probe.told(), (0, 1, 0));
    assert_eq!(worker.ctx.get_time_elapsed(), 4);

    let failure = reqwest::Client::new().get("no url").build().unwrap_err();
    assert!(matches!(
        worker.after_body("A", Err(failure)),
        Err(StepError::TransportError(_))
    ));
    assert_eq!(probe.told(), (0, 2, 0));

    assert!(worker
        .after_body("A", Ok(bytes::Bytes::from_static(b"done")))
        .is_ok());
    assert_eq!(probe.told(), (1, 2, 0));
    assert_eq!(worker.ctx.body_text().unwrap(), "done");
    assert!(matches!(
        worker.after_body("missing", Ok(bytes::Bytes::new())),
        Err(StepError::StepNotFound(_))
    ));
}

#[test]
fn many_steps_are_added_in_turn() {
    let mut worker: Worker = Worker::new();
    let steps: Vec<Arc<dyn Stepable>> = vec![
        Arc::new(RobotsTxt),
        Arc::new(SkippableStep),
        Arc::new(RobotsTxt),
    ];
    worker.add_many_steps(steps);
    assert!(worker.get_step(ROBOTS_TXT).is_some());
    assert!(worker.get_step(SKIPPABLE_STEP).is_some());
    assert!(worker.get_step("Other").is_none());
    assert_eq!(worker.steps().len(), 2);
    let worker: Worker = Worker::default();
    assert_eq!(worker.steps().len(), 0);
}

fn response(status: u16) -> reqwest::Response {
    reqwest::Response::from(
        http::Response::builder()
            .status(status)
            .body("body")
            .unwrap(),
    )
}

#[test]
fn an_accepted_response_comes_back_for_its_body() {
    let probe = Arc::new(Probe::new("A", get_with_200, None));
    let mut worker: Worker = Worker::new();
    worker.add_step_arc(probe.clone());
    assert!(matches!(worker.begin_step("A"), Ok(StepStart::Send(_))));
    let back = worker.after_send("A", 3, Ok(response(200))).unwrap();
    assert_eq!(back.status().as_u16(), 200);
    assert_eq!(probe.told(), (0, 0, 0));
    assert_eq!(worker.ctx.get_time_elapsed(), 3);
}

#[test]
fn a_rejected_response_gives_its_code() {
    let probe = Arc::new(Probe::new("A", get_with_200, None));
    let mut worker: Worker = Worker::new();
    worker.add_step_arc(probe.clone());
    assert!(matches!(worker.begin_step("A"), Ok(StepStart::Send(_))));
    match worker.after_send("A", 3, Ok(response(503))) {
        Err(StepError::StatusCodeNotFound(code, expected)) => {
            assert_eq!(code, 503);
            assert_eq!(expected, vec![200]);
        }
        _ => panic!("expected StatusCodeNotFound"),
    }
    assert_eq!(probe.told(), (0, 1, 0));
    assert!(matches!(
        worker.after_send("missing", 3, Ok(response(200))),
        Err(StepError::StepNotFound(_))
    ));
}

fn get_with_bad_agent() -> Request {
    Request::new(Method::GET, "https://test.example/agent".to_string())
        .with_user_agent("bad\nagent".to_string())
}

#[test]
fn a_client_that_cannot_be_built_tells_the_step_nothing() {
    let probe = Arc::new(Probe::new("A", get_with_bad_agent, None));
    let mut worker: Worker = Worker::new();
    worker.add_step_arc(probe.clone());
    assert!(matches!(
        worker.begin_step("A"),
        Err(StepError::RequestBuildError)
    ));
    assert_eq!(probe.told(), (0, 0, 0));
    assert!(worker.ctx.request_builder.is_none());
    assert_eq!(worker.ctx.get_current_step(), None);
    assert_eq!(worker.ctx.get_url(), "/");
}

#[test]
fn the_context_is_reached_through_the_worker() {
    let mut worker: Worker = Worker::new();
    assert_eq!(worker.ctx().get_next_step(), None);
    worker.ctx_mut().set_next_step("A".to_string());
    worker.ctx_mut().set_status_codes(vec![204]);
    assert_eq!(worker.ctx().get_next_step(), Some("A".to_string()));
    assert_eq!(worker.ctx.get_next_step(), Some("A".to_string()));
    assert!(worker.check_status_code(204));
    assert!(!worker.check_status_code(200));
}
