use reqwest::Method;
use std::sync::Arc;
use std::time::Duration;
use stepper::context::Context;
use stepper::errors::StepError;
use stepper::hdr;
use stepper::http_requester::HttpRequester;
use stepper::request::Request;
use stepper::steps::{StepManager, Stepable};

#[derive(Clone, Copy)]
struct RobotsTxt;

impl Stepable for RobotsTxt {
    fn name(&self) -> String {
        "RobotsTxt".parse().unwrap()
    }

    fn on_request(&self) -> Request {
        let headers = hdr(
            "User-Agent: reqwest
                Accept: */*",
        )
        .unwrap();

        Request::new(Method::GET, "https://test.com".to_string())
            .with_headers(headers)
            .with_timeout(Duration::new(30, 0))
            .with_status_codes(vec![200])
    }

    fn on_success(&self, ctx: &mut Context) {
        ctx.set_next_step("RobotsTxt".to_string());
    }

    fn on_error(&self, _ctx: &mut Context, _err: StepError) {
        unreachable!()
    }

    fn on_timeout(&self, _ctx: &mut Context) {
        unreachable!()
    }
}

struct Named(&'static str, u16);

impl Stepable for Named {
    fn name(&self) -> String {
        self.0.to_string()
    }

    fn on_request(&self) -> Request {
        Request::new(Method::GET, "https://test.com".to_string()).with_status_codes(vec![self.1])
    }

    fn on_success(&self, _ctx: &mut Context) {}

    fn on_error(&self, _ctx: &mut Context, _err: StepError) {}

    fn on_timeout(&self, _ctx: &mut Context) {}
}

#[test]
fn step_should_call_on_request_as_expected() {
    let step = RobotsTxt {};
    let req = step.on_request();

    assert_eq!(req.method(), Method::GET);
    assert_eq!(req.status_codes(), Some(vec![200]));
}

#[test]
fn bot_should_call_on_request_as_expected() {
    let step = RobotsTxt {};
    let req = step.on_request();

    assert_eq!(req.method(), Method::GET);
    assert_eq!(req.status_codes(), Some(vec![200]));
}

#[test]
fn bot_should_have_next_step_in_store_as_expected() {
    let step = RobotsTxt {};
    let store = &mut Context {
        request: Request::default(),
        current_step: None,
        http_requester: HttpRequester::new(),
        request_builder: None,
        response_body: None,
        next_step: None,
        time_elapsed: 0,
        status_codes: None,
    };
    let _ = step.on_success(store);

    assert_eq!(store.next_step, Some("RobotsTxt".to_string()));
}

#[test]
fn it_initializes() {
    let mut steps: StepManager<RobotsTxt> = StepManager::new();
    assert_eq!(steps.len(), 0);
}

#[test]
fn it_adds_step() {
    let mut steps = StepManager::new();
    let step = RobotsTxt {};
    steps.insert(step);
    assert_eq!(steps.len(), 1);
    assert!(steps.contains_step(step));
}

#[test]
fn a_registered_step_is_found_by_its_name() {
    let mut steps: StepManager = StepManager::new();
    steps.insert_arc(Arc::new(Named("A", 1)));
    steps.insert_arc(Arc::new(RobotsTxt));
    steps.insert_arc(Arc::new(Named("B", 2)));
    assert_eq!(steps.len(), 3);
    assert_eq!(steps.get("A").unwrap().name(), "A");
    assert_eq!(steps.get("B").unwrap().name(), "B");
    assert_eq!(steps.get("RobotsTxt").unwrap().name(), "RobotsTxt");
    assert_eq!(steps.get("A").unwrap().on_request().status_codes(), Some(vec![1]));
    assert_eq!(steps.get("B").unwrap().on_request().status_codes(), Some(vec![2]));
}

#[test]
fn a_name_that_is_not_registered_finds_nothing() {
    let mut steps: StepManager = StepManager::new();
    assert!(steps.get("A").is_none());
    steps.insert_arc(Arc::new(Named("A", 1)));
    assert!(steps.get("a").is_none());
    assert!(steps.get("").is_none());
    assert!(steps.get("AA").is_none());
    assert!(!steps.contains_name(&"B".to_string()));
    assert!(steps.contains_name(&"A".to_string()));
    assert!(!steps.contains_step(Named("B", 0)));
    assert!(steps.contains_step(Named("A", 0)));
}

#[test]
fn registering_a_name_again_replaces_the_step() {
    let mut steps: StepManager = StepManager::new();
    steps.insert_arc(Arc::new(Named("A", 1)));
    steps.insert_arc(Arc::new(Named("B", 2)));
    steps.insert_arc(Arc::new(Named("A", 3)));
    assert_eq!(steps.len(), 2);
    assert_eq!(steps.get("A").unwrap().on_request().status_codes(), Some(vec![3]));
    assert_eq!(steps.get("B").unwrap().on_request().status_codes(), Some(vec![2]));
}

#[test]
fn many_steps_are_registered_in_turn() {
    let mut steps: StepManager = StepManager::new();
    steps.insert_arc(Arc::new(Named("A", 1)));
    let more: Vec<Arc<dyn Stepable>> = vec![
        Arc::new(Named("B", 2)),
        Arc::new(Named("A", 3)),
        Arc::new(Named("B", 4)),
        Arc::new(Named("C", 5)),
    ];
    steps.insert_many(more);
    assert_eq!(steps.len(), 3);
    assert_eq!(steps.get("A").unwrap().on_request().status_codes(), Some(vec![3]));
    assert_eq!(steps.get("B").unwrap().on_request().status_codes(), Some(vec![4]));
    assert_eq!(steps.get("C").unwrap().on_request().status_codes(), Some(vec![5]));
    steps.insert_many(Vec::new());
    assert_eq!(steps.len(), 3);
}

#[test]
fn a_registry_clone_finds_the_same_steps() {
    let mut steps: StepManager = StepManager::new();
    let shared: Arc<dyn Stepable> = Arc::new(Named("A", 1));
    steps.insert_arc(shared.clone());
    let mut copy = steps.clone();
    assert_eq!(copy.len(), 1);
    assert!(Arc::ptr_eq(copy.get("A").unwrap(), &shared));
    copy.insert_arc(Arc::new(Named("B", 2)));
    assert_eq!(copy.len(), 2);
    assert_eq!(steps.len(), 1);
    let mut empty: StepManager = StepManager::default();
    assert_eq!(empty.len(), 0);
}
