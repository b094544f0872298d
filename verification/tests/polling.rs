use operaton_task_worker::api::{Method, Reply, Request};
use operaton_task_worker::json::Json;
use operaton_task_worker::polling::{Action, Event, Notice, Phase, Worker};
use operaton_task_worker::registry::Registry;
use operaton_task_worker::settings::ConfigParams;
use operaton_task_worker::types::{
    out_string, BpmnError, ExternalTaskFn, HandlerError, HandlerResult, InputVariables,
    OutputVariables,
};

fn succeed(_input: &InputVariables) -> HandlerResult {
    let mut out = OutputVariables::new();
    out.insert("answer".to_string(), out_string("ok"));
    Ok(out)
}

fn count_input(input: &InputVariables) -> HandlerResult {
    let mut out = OutputVariables::new();
    out.insert("count".to_string(), out_string(&input.len().to_string()));
    Ok(out)
}

fn business_error(_input: &InputVariables) -> HandlerResult {
    Err(HandlerError::Business(BpmnError::new("E1", "no stock")))
}

fn business_error_without_message(_input: &InputVariables) -> HandlerResult {
    Err(HandlerError::Business(BpmnError::with_code_only("E2")))
}

fn technical_failure(_input: &InputVariables) -> HandlerResult {
    Err(HandlerError::Technical("disk full".to_string()))
}

fn task(id: &str, activity: &str) -> String {
    format!(
        "{{\"id\":\"{}\",\"activityId\":\"{}\",\"processInstanceId\":\"pi-{}\",\"suspended\":false,\"topicName\":\"topic\",\"priority\":0,\"businessKey\":\"bk\",\"workerId\":null}}",
        id, id, activity
    )
    .replace(&format!("\"activityId\":\"{}\"", id), &format!("\"activityId\":\"{}\"", activity))
    .replace(&format!("pi-{}", activity), &format!("pi-{}", id))
}

fn task_list(tasks: &[(&str, &str)]) -> String {
    let items: Vec<String> = tasks.iter().map(|(id, activity)| task(id, activity)).collect();
    format!("[{}]", items.join(","))
}

struct Engine {
    tasks: String,
    refuse_lock_of: Vec<String>,
    variables: Option<String>,
    report_status: u16,
    seen: Vec<(Method, String, Option<String>, Option<String>)>,
    notices: Vec<Notice>,
}

impl Engine {
    fn new(tasks: &[(&str, &str)]) -> Engine {
        Engine {
            tasks: task_list(tasks),
            refuse_lock_of: Vec::new(),
            variables: Some("{}".to_string()),
            report_status: 204,
            seen: Vec::new(),
            notices: Vec::new(),
        }
    }

    fn answer(&mut self, request: &Request) -> Reply {
        let body = request.body.as_ref().map(|b| b.to_text());
        self.seen.push((request.method, request.path.clone(), request.query.clone(), body));
        let path = request.path.as_str();
        if path == "/engine-rest/external-task" {
            Reply::Answered { status: 200, body: self.tasks.clone() }
        } else if path.ends_with("/lock") {
            let refused = self.refuse_lock_of.iter().any(|id| path.contains(&format!("/{}/", id)));
            if refused {
                Reply::Answered { status: 500, body: "locked by another".to_string() }
            } else {
                Reply::Answered { status: 204, body: String::new() }
            }
        } else if path == "/engine-rest/variable-instance" {
            match &self.variables {
                Some(body) => Reply::Answered { status: 200, body: body.clone() },
                None => Reply::Failed("connection reset".to_string()),
            }
        } else {
            Reply::Answered { status: self.report_status, body: String::new() }
        }
    }

    fn paths(&self) -> Vec<&str> {
        self.seen.iter().map(|s| s.1.as_str()).collect()
    }

    fn count_ending(&self, end: &str) -> usize {
        self.seen.iter().filter(|s| s.1.ends_with(end)).count()
    }

    fn body_of(&self, end: &str) -> Json {
        let sent = self.seen.iter().find(|s| s.1.ends_with(end)).unwrap();
        Json::from_text(sent.3.as_ref().unwrap()).unwrap()
    }
}

fn run_cycle(config: &ConfigParams, registry: &Registry<ExternalTaskFn>, engine: &mut Engine) -> u64 {
    let (mut worker, mut action) = Worker::start(config);
    let mut steps = 0;
    loop {
        steps += 1;
        assert!(steps < 1000);
        let event = match action {
            Action::Send(request) => Event::Reply(engine.answer(&request)),
            Action::Invoke { handler, input } => {
                let handler = registry.handler_at(handler).unwrap();
                Event::Handled((handler.func)(&input))
            }
            Action::Sleep { millis } => {
                assert_eq!(worker.phase(), Phase::Sleeping);
                assert!(worker.current_task().is_none());
                return millis;
            }
        };
        let stepped = worker.step(config, registry, event);
        worker = stepped.0;
        action = stepped.1;
        engine.notices.push(stepped.2);
    }
}

fn text(s: &str) -> Json {
    Json::String(s.to_string())
}

#[test]
fn success_is_reported_by_one_completion() {
    let config = ConfigParams::default();
    let mut registry: Registry<ExternalTaskFn> = Registry::new();
    registry.register("h1".to_string(), succeed);
    let mut engine = Engine::new(&[("t1", "h1")]);
    let slept = run_cycle(&config, &registry, &mut engine);
    assert_eq!(slept, 500);
    assert_eq!(
        engine.paths(),
        vec![
            "/engine-rest/external-task",
            "/engine-rest/external-task/t1/lock",
            "/engine-rest/variable-instance",
            "/engine-rest/external-task/t1/complete",
        ]
    );
    assert_eq!(engine.count_ending("/complete"), 1);
    assert_eq!(engine.count_ending("/failure"), 0);
    assert_eq!(engine.count_ending("/bpmnError"), 0);
    assert_eq!(
        engine.notices,
        vec![
            Notice::TasksListed,
            Notice::Locked,
            Notice::Dispatched,
            Notice::Completing,
            Notice::Reported,
        ]
    );
    let body = engine.body_of("/complete");
    assert_eq!(body.field("workerId"), Some(&text("operaton_task_worker")));
    let answer = body.field("variables").unwrap().field("answer").unwrap();
    assert_eq!(answer.field("value"), Some(&text("ok")));
    assert_eq!(answer.field("type"), Some(&text("String")));
    assert_eq!(engine.seen[2].2.as_deref(), Some("processInstanceIdIn=pi-t1"));
    assert_eq!(engine.seen[0].0, Method::Get);
    assert_eq!(engine.seen[1].0, Method::Post);
    assert_eq!(
        engine.seen[1].3.as_deref(),
        Some("{\"lockDuration\":60000,\"workerId\":\"operaton_task_worker\"}")
    );
}

#[test]
fn business_error_is_reported_by_one_bpmn_error() {
    let config = ConfigParams::default();
    let mut registry: Registry<ExternalTaskFn> = Registry::new();
    registry.register("h1".to_string(), business_error);
    let mut engine = Engine::new(&[("t1", "h1")]);
    run_cycle(&config, &registry, &mut engine);
    assert_eq!(engine.count_ending("/bpmnError"), 1);
    assert_eq!(engine.count_ending("/complete"), 0);
    assert_eq!(engine.count_ending("/failure"), 0);
    let body = engine.body_of("/bpmnError");
    assert_eq!(body.field("errorCode"), Some(&text("E1")));
    assert_eq!(body.field("errorMessage"), Some(&text("no stock")));
    assert_eq!(body.field("workerId"), Some(&text("operaton_task_worker")));
    assert_eq!(body.field("variables"), None);
    assert_eq!(engine.notices[3], Notice::RaisingBpmnError);
}

#[test]
fn business_error_without_message_sends_null() {
    let config = ConfigParams::default();
    let mut registry: Registry<ExternalTaskFn> = Registry::new();
    registry.register("h1".to_string(), business_error_without_message);
    let mut engine = Engine::new(&[("t1", "h1")]);
    run_cycle(&config, &registry, &mut engine);
    let body = engine.body_of("/bpmnError");
    assert_eq!(body.field("errorCode"), Some(&text("E2")));
    assert_eq!(body.field("errorMessage"), Some(&Json::Null));
}

#[test]
fn technical_failure_is_reported_with_no_retries() {
    let config = ConfigParams::default().with_worker_id("w7".to_string());
    let mut registry: Registry<ExternalTaskFn> = Registry::new();
    registry.register("h1".to_string(), technical_failure);
    let mut engine = Engine::new(&[("t1", "h1")]);
    run_cycle(&config, &registry, &mut engine);
    assert_eq!(engine.count_ending("/failure"), 1);
    assert_eq!(engine.count_ending("/complete"), 0);
    assert_eq!(engine.count_ending("/bpmnError"), 0);
    assert_eq!(
        engine.seen[3].3.as_deref(),
        Some("{\"errorMessage\":\"disk full\",\"retries\":0,\"retryTimeout\":0,\"workerId\":\"w7\"}")
    );
    assert_eq!(engine.notices[3], Notice::ReportingFailure);
}

#[test]
fn task_without_handler_gets_no_report_and_the_next_is_taken() {
    let config = ConfigParams::default();
    let mut registry: Registry<ExternalTaskFn> = Registry::new();
    registry.register("h1".to_string(), succeed);
    let mut engine = Engine::new(&[("t1", "unknown"), ("t2", "h1")]);
    run_cycle(&config, &registry, &mut engine);
    assert_eq!(
        engine.paths(),
        vec![
            "/engine-rest/external-task",
            "/engine-rest/external-task/t1/lock",
            "/engine-rest/variable-instance",
            "/engine-rest/external-task/t2/lock",
            "/engine-rest/variable-instance",
            "/engine-rest/external-task/t2/complete",
        ]
    );
    assert_eq!(engine.count_ending("/failure"), 0);
    assert_eq!(engine.count_ending("/bpmnError"), 0);
    assert_eq!(engine.notices[2], Notice::HandlerMissing);
}

#[test]
fn lock_failure_of_one_task_leaves_the_next_to_be_done() {
    let config = ConfigParams::default();
    let mut registry: Registry<ExternalTaskFn> = Registry::new();
    registry.register("h1".to_string(), succeed);
    let mut engine = Engine::new(&[("a", "h1"), ("b", "h1")]);
    engine.refuse_lock_of.push("a".to_string());
    run_cycle(&config, &registry, &mut engine);
    assert_eq!(
        engine.paths(),
        vec![
            "/engine-rest/external-task",
            "/engine-rest/external-task/a/lock",
            "/engine-rest/external-task/b/lock",
            "/engine-rest/variable-instance",
            "/engine-rest/external-task/b/complete",
        ]
    );
    assert_eq!(engine.notices[1], Notice::LockFailed);
    assert_eq!(engine.notices[2], Notice::Locked);
}

#[test]
fn variables_that_cannot_be_had_count_as_none() {
    let config = ConfigParams::default();
    let mut registry: Registry<ExternalTaskFn> = Registry::new();
    registry.register("h1".to_string(), count_input);
    let mut engine = Engine::new(&[("t1", "h1")]);
    engine.variables = None;
    run_cycle(&config, &registry, &mut engine);
    assert_eq!(engine.notices[2], Notice::DispatchedWithoutVariables);
    let body = engine.body_of("/complete");
    let count = body.field("variables").unwrap().field("count").unwrap();
    assert_eq!(count.field("value"), Some(&text("0")));

    let mut engine = Engine::new(&[("t1", "h1")]);
    engine.variables = Some("{\"invalid\":}".to_string());
    run_cycle(&config, &registry, &mut engine);
    let body = engine.body_of("/complete");
    let count = body.field("variables").unwrap().field("count").unwrap();
    assert_eq!(count.field("value"), Some(&text("0")));
}

#[test]
fn variables_reach_the_handler() {
    let config = ConfigParams::default();
    let mut registry: Registry<ExternalTaskFn> = Registry::new();
    registry.register("h1".to_string(), count_input);
    let mut engine = Engine::new(&[("t1", "h1")]);
    engine.variables = Some(
        "[{\"type\":\"String\",\"value\":\"x\",\"valueInfo\":{},\"name\":\"a\"},{\"type\":\"Boolean\",\"value\":true,\"valueInfo\":{},\"name\":\"b\"}]"
            .to_string(),
    );
    run_cycle(&config, &registry, &mut engine);
    let body = engine.body_of("/complete");
    let count = body.field("variables").unwrap().field("count").unwrap();
    assert_eq!(count.field("value"), Some(&text("2")));
}

#[test]
fn report_that_fails_is_not_sent_again() {
    let config = ConfigParams::default();
    let mut registry: Registry<ExternalTaskFn> = Registry::new();
    registry.register("h1".to_string(), succeed);
    let mut engine = Engine::new(&[("t1", "h1"), ("t2", "h1")]);
    engine.report_status = 500;
    run_cycle(&config, &registry, &mut engine);
    assert_eq!(engine.count_ending("/t1/complete"), 1);
    assert_eq!(engine.count_ending("/t2/complete"), 1);
    assert_eq!(engine.seen.len(), 7);
    assert_eq!(engine.notices.iter().filter(|n| **n == Notice::ReportFailed).count(), 2);
}

#[test]
fn fetch_that_fails_ends_the_cycle() {
    let config = ConfigParams::default().with_poll_interval(25);
    let registry: Registry<ExternalTaskFn> = Registry::new();
    let mut engine = Engine::new(&[]);
    engine.tasks = "not json".to_string();
    assert_eq!(run_cycle(&config, &registry, &mut engine), 25);
    assert_eq!(engine.paths(), vec!["/engine-rest/external-task"]);

    let (worker, _) = Worker::start(&config);
    let (worker, action, notice) =
        worker.step(&config, &registry, Event::Reply(Reply::Failed("refused".to_string())));
    assert_eq!(worker.phase(), Phase::Sleeping);
    assert!(matches!(action, Action::Sleep { millis: 25 }));
    assert_eq!(notice, Notice::FetchFailed);
}

#[test]
fn empty_task_list_goes_to_sleep() {
    let config = ConfigParams::default();
    let registry: Registry<ExternalTaskFn> = Registry::new();
    let mut engine = Engine::new(&[]);
    assert_eq!(run_cycle(&config, &registry, &mut engine), 500);
    assert_eq!(engine.paths(), vec!["/engine-rest/external-task"]);
}

#[test]
fn waking_starts_the_next_cycle() {
    let config = ConfigParams::default();
    let registry: Registry<ExternalTaskFn> = Registry::new();
    let (worker, action) = Worker::start(&config);
    assert_eq!(worker.phase(), Phase::AwaitingTasks);
    match action {
        Action::Send(request) => {
            assert_eq!(request.method, Method::Get);
            assert_eq!(request.path, "/engine-rest/external-task");
            assert!(request.auth.is_none());
            assert!(request.body.is_none());
        }
        other => panic!("unexpected: {:?}", other),
    }
    let (worker, _, _) = worker.step(
        &config,
        &registry,
        Event::Reply(Reply::Answered { status: 200, body: "[]".to_string() }),
    );
    assert_eq!(worker.phase(), Phase::Sleeping);
    let (worker, action, notice) = worker.step(&config, &registry, Event::Woke);
    assert_eq!(worker.phase(), Phase::AwaitingTasks);
    assert!(matches!(action, Action::Send(_)));
    assert_eq!(notice, Notice::CycleStarted);
}

#[test]
fn event_that_was_not_waited_for_sends_the_worker_to_sleep() {
    let config = ConfigParams::default();
    let registry: Registry<ExternalTaskFn> = Registry::new();
    let (worker, _) = Worker::start(&config);
    let (worker, action, notice) = worker.step(&config, &registry, Event::Woke);
    assert_eq!(worker.phase(), Phase::Sleeping);
    assert!(matches!(action, Action::Sleep { millis: 500 }));
    assert_eq!(notice, Notice::Unexpected);
    let (worker, action, notice) =
        worker.step(&config, &registry, Event::Handled(Ok(OutputVariables::new())));
    assert_eq!(worker.phase(), Phase::Sleeping);
    assert!(matches!(action, Action::Sleep { millis: 500 }));
    assert_eq!(notice, Notice::Unexpected);
}

#[test]
fn lock_uses_the_configured_duration_and_login() {
    let config = ConfigParams::default()
        .with_lock_duration(1234)
        .with_auth("user".to_string(), "pass".to_string());
    let mut registry: Registry<ExternalTaskFn> = Registry::new();
    registry.register("h1".to_string(), succeed);
    let (worker, _) = Worker::start(&config);
    let (worker, action, notice) = worker.step(
        &config,
        &registry,
        Event::Reply(Reply::Answered { status: 200, body: task_list(&[("t1", "h1")]) }),
    );
    assert_eq!(worker.phase(), Phase::Locking);
    assert_eq!(notice, Notice::TasksListed);
    assert_eq!(worker.current_task().unwrap().id(), "t1");
    match action {
        Action::Send(request) => {
            assert_eq!(request.path, "/engine-rest/external-task/t1/lock");
            let auth = request.auth.unwrap();
            assert_eq!((auth.username.as_str(), auth.password.as_str()), ("user", "pass"));
            assert_eq!(
                request.body.unwrap().to_text(),
                "{\"lockDuration\":1234,\"workerId\":\"operaton_task_worker\"}"
            );
        }
        other => panic!("unexpected: {:?}", other),
    }
}
