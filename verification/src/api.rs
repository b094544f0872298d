//! The four operations on the engine, as plain data: the request that each
//! one sends, and what its answer means. Sending is left to the caller.

use vstd::prelude::*;

use crate::codec::{parsed_document, parsed_stream};
use crate::json::{lemma_model_of_parts, members_model, Json, JsonModel, JsonNumber, NumberModel};
use crate::process_variables::{decoded, parse_process_instance_variables, InputVariables};
use crate::settings::{ConfigModel, ConfigParams};
use crate::structures::{
    decode_service_tasks, service_tasks_of, tasks_model, ServiceTask, ServiceTaskModel,
};
use crate::types::{variables_to_wire, wire_variables, OutVariableModel, OutputVariables};

verus! {

/// The method of a request.
#[derive(Debug, Clone, Copy, PartialEq, Eq, Structural)]
pub enum Method {
    Get,
    Post,
}

/// A name and a password for HTTP basic authentication.
#[derive(Debug)]
pub struct Credentials {
    pub username: String,
    pub password: String,
}

/// A request to the engine: the path and the query go onto the configured
/// address, and the body is sent as JSON.
#[derive(Debug)]
pub struct Request {
    pub method: Method,
    pub path: String,
    pub query: Option<String>,
    pub auth: Option<Credentials>,
    pub body: Option<Json>,
}

/// The model of a [`Request`].
pub struct RequestModel {
    pub method: Method,
    pub path: Seq<char>,
    pub query: Option<Seq<char>>,
    pub auth: Option<(Seq<char>, Seq<char>)>,
    pub body: Option<JsonModel>,
}

impl View for Request {
    type V = RequestModel;

    open spec fn view(&self) -> RequestModel {
        RequestModel {
            method: self.method,
            path: self.path@,
            query: match self.query {
                Some(q) => Some(q@),
                None => None,
            },
            auth: match self.auth {
                Some(c) => Some((c.username@, c.password@)),
                None => None,
            },
            body: match self.body {
                Some(b) => Some(b@),
                None => None,
            },
        }
    }
}

/// How a request logs in: with the name and the password where a name is
/// set, and not at all where the name is empty.
pub open spec fn login(username: Seq<char>, password: Seq<char>) -> Option<
    (Seq<char>, Seq<char>),
> {
    if username.len() > 0 {
        Some((username, password))
    } else {
        None
    }
}

/// The credentials to send, if a name is set.
pub fn basic_auth(username: &str, password: &str) -> (auth: Option<Credentials>)
    ensures
        (match auth {
            Some(c) => Some((c.username@, c.password@)),
            None => None,
        }) == login(username@, password@),
{
    if username.is_empty() {
        None
    } else {
        Some(Credentials { username: username.to_owned(), password: password.to_owned() })
    }
}

/// A `GET` request that logs in where a name is set.
pub fn build_authenticated_request(
    path: String,
    query: Option<String>,
    username: &str,
    password: &str,
) -> (request: Request)
    ensures
        request@ == (RequestModel {
            method: Method::Get,
            path: path@,
            query: match query {
                Some(q) => Some(q@),
                None => None,
            },
            auth: login(username@, password@),
            body: None,
        }),
{
    Request { method: Method::Get, path, query, auth: basic_auth(username, password), body: None }
}

/// A `POST` request with a JSON body that logs in where a name is set.
pub fn build_authenticated_post(path: String, username: &str, password: &str, body: Json) -> (request:
    Request)
    ensures
        request@ == (RequestModel {
            method: Method::Post,
            path: path@,
            query: None,
            auth: login(username@, password@),
            body: Some(body@),
        }),
{
    Request {
        method: Method::Post,
        path,
        query: None,
        auth: basic_auth(username, password),
        body: Some(body),
    }
}

/// The path under which the engine lists the open tasks.
pub open spec fn tasks_path() -> Seq<char> {
    "/engine-rest/external-task"@
}

/// The path of an operation on one task.
pub open spec fn task_path(task_id: Seq<char>, operation: Seq<char>) -> Seq<char> {
    "/engine-rest/external-task/"@ + task_id + "/"@ + operation
}

/// The path under which the engine lists variables.
pub open spec fn variables_path() -> Seq<char> {
    "/engine-rest/variable-instance"@
}

/// The query that asks for the variables of one process instance.
pub open spec fn variables_query(process_instance_id: Seq<char>) -> Seq<char> {
    "processInstanceIdIn="@ + process_instance_id
}

fn operation_path(task_id: &str, operation: &str) -> (path: String)
    ensures
        path@ == task_path(task_id@, operation@),
{
    let mut path = "/engine-rest/external-task/".to_owned();
    path.append(task_id);
    path.append("/");
    path.append(operation);
    path
}

/// The request that asks for the open tasks.
pub open spec fn open_tasks_request(config: ConfigModel) -> RequestModel {
    RequestModel {
        method: Method::Get,
        path: tasks_path(),
        query: None,
        auth: login(config.username, config.password),
        body: None,
    }
}

/// The body of a lock request.
pub open spec fn lock_body(worker_id: Seq<char>, lock_duration: u64) -> JsonModel {
    JsonModel::Object(
        seq![
            ("workerId"@, JsonModel::String(worker_id)),
            ("lockDuration"@, JsonModel::Number(NumberModel::PosInt(lock_duration))),
        ],
    )
}

/// The request that locks a task for this worker.
pub open spec fn lock_request(config: ConfigModel, task_id: Seq<char>, lock_duration: u64) -> RequestModel {
    RequestModel {
        method: Method::Post,
        path: task_path(task_id, "lock"@),
        query: None,
        auth: login(config.username, config.password),
        body: Some(lock_body(config.id, lock_duration)),
    }
}

/// The request that asks for the variables of a process instance.
pub open spec fn variables_request(config: ConfigModel, process_instance_id: Seq<char>) -> RequestModel {
    RequestModel {
        method: Method::Get,
        path: variables_path(),
        query: Some(variables_query(process_instance_id)),
        auth: login(config.username, config.password),
        body: None,
    }
}

/// The body of a completion.
pub open spec fn complete_body(
    worker_id: Seq<char>,
    variables: Seq<(Seq<char>, OutVariableModel)>,
) -> JsonModel {
    JsonModel::Object(
        seq![
            ("workerId"@, JsonModel::String(worker_id)),
            ("variables"@, wire_variables(variables)),
        ],
    )
}

/// The request that completes a task with the variables of its handler.
pub open spec fn complete_request(
    config: ConfigModel,
    task_id: Seq<char>,
    variables: Seq<(Seq<char>, OutVariableModel)>,
) -> RequestModel {
    RequestModel {
        method: Method::Post,
        path: task_path(task_id, "complete"@),
        query: None,
        auth: login(config.username, config.password),
        body: Some(complete_body(config.id, variables)),
    }
}

/// The body of a failure report. The details are a member only where there
/// are any.
pub open spec fn failure_body(
    worker_id: Seq<char>,
    message: Seq<char>,
    details: Option<Seq<char>>,
    retries: u64,
    retry_timeout: u64,
) -> JsonModel {
    let members = seq![
        ("workerId"@, JsonModel::String(worker_id)),
        ("errorMessage"@, JsonModel::String(message)),
        ("retries"@, JsonModel::Number(NumberModel::PosInt(retries))),
        ("retryTimeout"@, JsonModel::Number(NumberModel::PosInt(retry_timeout))),
    ];
    match details {
        Some(d) => JsonModel::Object(members.push(("errorDetails"@, JsonModel::String(d)))),
        None => JsonModel::Object(members),
    }
}

/// The request that reports a technical failure of a task.
pub open spec fn failure_request(
    config: ConfigModel,
    task_id: Seq<char>,
    message: Seq<char>,
    details: Option<Seq<char>>,
    retries: u64,
    retry_timeout: u64,
) -> RequestModel {
    RequestModel {
        method: Method::Post,
        path: task_path(task_id, "failure"@),
        query: None,
        auth: login(config.username, config.password),
        body: Some(failure_body(config.id, message, details, retries, retry_timeout)),
    }
}

/// The body of a business error report. A missing message goes as `null`,
/// and the variables are a member only where there are any to send.
pub open spec fn bpmn_error_body(
    worker_id: Seq<char>,
    code: Seq<char>,
    message: Option<Seq<char>>,
    variables: Option<Seq<(Seq<char>, OutVariableModel)>>,
) -> JsonModel {
    let members = seq![
        ("workerId"@, JsonModel::String(worker_id)),
        ("errorCode"@, JsonModel::String(code)),
        (
            "errorMessage"@,
            match message {
                Some(m) => JsonModel::String(m),
                None => JsonModel::Null,
            },
        ),
    ];
    match variables {
        Some(v) => JsonModel::Object(members.push(("variables"@, wire_variables(v)))),
        None => JsonModel::Object(members),
    }
}

/// The request that reports a business error of a task.
pub open spec fn bpmn_error_request(
    config: ConfigModel,
    task_id: Seq<char>,
    code: Seq<char>,
    message: Option<Seq<char>>,
    variables: Option<Seq<(Seq<char>, OutVariableModel)>>,
) -> RequestModel {
    RequestModel {
        method: Method::Post,
        path: task_path(task_id, "bpmnError"@),
        query: None,
        auth: login(config.username, config.password),
        body: Some(bpmn_error_body(config.id, code, message, variables)),
    }
}

/// The request that asks the engine for the open tasks.
pub fn get_open_service_tasks(config: &ConfigParams) -> (request: Request)
    ensures
        request@ == open_tasks_request(config@),
{
    build_authenticated_request(
        "/engine-rest/external-task".to_owned(),
        None,
        config.username(),
        config.password(),
    )
}

/// The request that locks a task for this worker, for the given time in
/// milliseconds.
pub fn lock_external_task(config: &ConfigParams, external_task_id: &str, lock_duration_ms: u64) -> (request:
    Request)
    ensures
        request@ == lock_request(config@, external_task_id@, lock_duration_ms),
{
    let mut members: Vec<(String, Json)> = Vec::new();
    members.push(("workerId".to_owned(), Json::String(config.id().to_owned())));
    members.push(
        ("lockDuration".to_owned(), Json::Number(JsonNumber::PosInt(lock_duration_ms))),
    );
    let body = Json::Object(members);
    proof {
        lemma_model_of_parts(body);
        assert(members_model(members@) =~= lock_body(config@.id, lock_duration_ms)->Object_0);
    }
    build_authenticated_post(
        operation_path(external_task_id, "lock"),
        config.username(),
        config.password(),
        body,
    )
}

/// The request that asks for the variables of a process instance.
pub fn get_process_instance_variables(config: &ConfigParams, process_instance_id: &str) -> (request:
    Request)
    ensures
        request@ == variables_request(config@, process_instance_id@),
{
    let mut query = "processInstanceIdIn=".to_owned();
    query.append(process_instance_id);
    build_authenticated_request(
        "/engine-rest/variable-instance".to_owned(),
        Some(query),
        config.username(),
        config.password(),
    )
}

/// The request that completes a task with the variables of its handler.
pub fn complete_external_task(
    config: &ConfigParams,
    external_task_id: &str,
    variables: &OutputVariables,
) -> (request: Request)
    ensures
        request@ == complete_request(config@, external_task_id@, variables.entries()),
{
    let mut members: Vec<(String, Json)> = Vec::new();
    members.push(("workerId".to_owned(), Json::String(config.id().to_owned())));
    members.push(("variables".to_owned(), variables_to_wire(variables)));
    let body = Json::Object(members);
    proof {
        lemma_model_of_parts(body);
        assert(members_model(members@) =~= complete_body(
            config@.id,
            variables.entries(),
        )->Object_0);
    }
    build_authenticated_post(
        operation_path(external_task_id, "complete"),
        config.username(),
        config.password(),
        body,
    )
}

/// The text of an optional string slice.
pub open spec fn slice_text(text: Option<&str>) -> Option<Seq<char>> {
    match text {
        Some(t) => Some(t@),
        None => None,
    }
}

/// The entries of optional variables.
pub open spec fn optional_entries(variables: Option<&OutputVariables>) -> Option<
    Seq<(Seq<char>, OutVariableModel)>,
> {
    match variables {
        Some(v) => Some(v.entries()),
        None => None,
    }
}

/// The request that reports a technical failure of a task.
pub fn report_external_task_failure(
    config: &ConfigParams,
    external_task_id: &str,
    message: &str,
    details: Option<&str>,
    retries: u64,
    retry_timeout: u64,
) -> (request: Request)
    ensures
        request@ == failure_request(
            config@,
            external_task_id@,
            message@,
            slice_text(details),
            retries,
            retry_timeout,
        ),
{
    let mut members: Vec<(String, Json)> = Vec::new();
    members.push(("workerId".to_owned(), Json::String(config.id().to_owned())));
    members.push(("errorMessage".to_owned(), Json::String(message.to_owned())));
    members.push(("retries".to_owned(), Json::Number(JsonNumber::PosInt(retries))));
    members.push(("retryTimeout".to_owned(), Json::Number(JsonNumber::PosInt(retry_timeout))));
    match details {
        Some(d) => {
            members.push(("errorDetails".to_owned(), Json::String(d.to_owned())));
        },
        None => {},
    }
    let body = Json::Object(members);
    proof {
        lemma_model_of_parts(body);
        assert(members_model(members@) =~= failure_body(
            config@.id,
            message@,
            slice_text(details),
            retries,
            retry_timeout,
        )->Object_0);
    }
    build_authenticated_post(
        operation_path(external_task_id, "failure"),
        config.username(),
        config.password(),
        body,
    )
}

/// The request that reports a business error of a task.
pub fn report_bpmn_error(
    config: &ConfigParams,
    external_task_id: &str,
    code: &str,
    message: Option<&str>,
    variables: Option<&OutputVariables>,
) -> (request: Request)
    ensures
        request@ == bpmn_error_request(
            config@,
            external_task_id@,
            code@,
            slice_text(message),
            optional_entries(variables),
        ),
{
    let mut members: Vec<(String, Json)> = Vec::new();
    members.push(("workerId".to_owned(), Json::String(config.id().to_owned())));
    members.push(("errorCode".to_owned(), Json::String(code.to_owned())));
    let text = match message {
        Some(m) => Json::String(m.to_owned()),
        None => Json::Null,
    };
    members.push(("errorMessage".to_owned(), text));
    match variables {
        Some(v) => {
            members.push(("variables".to_owned(), variables_to_wire(v)));
        },
        None => {},
    }
    let body = Json::Object(members);
    proof {
        lemma_model_of_parts(body);
        assert(members_model(members@) =~= bpmn_error_body(
            config@.id,
            code@,
            slice_text(message),
            optional_entries(variables),
        )->Object_0);
    }
    build_authenticated_post(
        operation_path(external_task_id, "bpmnError"),
        config.username(),
        config.password(),
        body,
    )
}

/// What came back for a request: no answer, with the text of the transport's
/// error, or an answer with its status and body.
#[derive(Debug)]
pub enum Reply {
    Failed(String),
    Answered { status: u16, body: String },
}

/// Why an operation on the engine failed.
#[derive(Debug)]
pub enum ApiError {
    /// No answer came; the text is the transport's.
    Transport(String),
    /// The engine answered with a status that is no success.
    Status { status: u16, body: String },
    /// The answer's body is not what the operation expects.
    Decode,
}

/// Whether a status is one of success: 200 to 299.
pub open spec fn success_status(status: u16) -> bool {
    200 <= status <= 299
}

/// Whether a status is one of success.
pub fn is_success(status: u16) -> (success: bool)
    ensures
        success == success_status(status),
{
    200 <= status && status <= 299
}

/// What the answer to a lock or a report means: done where the engine
/// answered with a status of success, failed with the status and the body
/// where it answered otherwise, failed with the transport's text where no
/// answer came.
pub fn expect_success(reply: Reply) -> (outcome: Result<(), ApiError>)
    ensures
        match reply {
            Reply::Failed(why) => outcome == Err::<(), ApiError>(ApiError::Transport(why)),
            Reply::Answered { status, body } => if success_status(status) {
                outcome.is_ok()
            } else {
                outcome == Err::<(), ApiError>(ApiError::Status { status, body })
            },
        },
{
    match reply {
        Reply::Failed(why) => Err(ApiError::Transport(why)),
        Reply::Answered { status, body } => {
            if is_success(status) {
                Ok(())
            } else {
                Err(ApiError::Status { status, body })
            }
        },
    }
}

/// The tasks that the text of an answer lists, if the text is one JSON
/// document and that document is a list of tasks.
pub open spec fn listed_tasks(body: Seq<char>) -> Option<Seq<ServiceTaskModel>> {
    match parsed_document(body) {
        Some(doc) => service_tasks_of(doc),
        None => None,
    }
}

/// What the answer to the request for the open tasks means. The status does
/// not count: a body that lists tasks gives them, any other body fails to
/// decode, and no answer fails with the transport's text.
pub fn read_open_service_tasks(reply: Reply) -> (outcome: Result<Vec<ServiceTask>, ApiError>)
    ensures
        match reply {
            Reply::Failed(why) => outcome == Err::<Vec<ServiceTask>, ApiError>(
                ApiError::Transport(why),
            ),
            Reply::Answered { status, body } => match listed_tasks(body@) {
                Some(tasks) => outcome.is_ok() && tasks_model(outcome.unwrap()@) == tasks,
                None => outcome == Err::<Vec<ServiceTask>, ApiError>(ApiError::Decode),
            },
        },
{
    match reply {
        Reply::Failed(why) => Err(ApiError::Transport(why)),
        Reply::Answered { status, body } => match Json::from_text(body.as_str()) {
            Some(doc) => match decode_service_tasks(&doc) {
                Some(tasks) => Ok(tasks),
                None => Err(ApiError::Decode),
            },
            None => Err(ApiError::Decode),
        },
    }
}

/// What the answer to the request for variables means. The status does not
/// count: whatever body came is decoded, and a body that cannot be decoded
/// gives no variables. Only no answer fails.
pub fn read_process_instance_variables(reply: Reply) -> (outcome: Result<InputVariables, ApiError>)
    ensures
        match reply {
            Reply::Failed(why) => outcome == Err::<InputVariables, ApiError>(
                ApiError::Transport(why),
            ),
            Reply::Answered { status, body } => outcome.is_ok() && outcome.unwrap()@ == decoded(
                parsed_document(body@),
                parsed_stream(body@),
            ),
        },
{
    match reply {
        Reply::Failed(why) => Err(ApiError::Transport(why)),
        Reply::Answered { status, body } => Ok(parse_process_instance_variables(body.as_str())),
    }
}

} // verus!
