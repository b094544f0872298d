//! The life of a task in the worker, as a state machine.
//!
//! In each cycle the worker asks for the open tasks and takes them one after
//! the other: it locks the task, fetches its variables, runs the handler that
//! is registered for the task's activity, and reports what the handler
//! returned. Then it sleeps and starts again. The machine decides what to do
//! next; the caller does it and hands back what came of it.

use vstd::prelude::*;

use crate::api::{
    bpmn_error_request, complete_request, complete_external_task, expect_success,
    failure_request, get_open_service_tasks, get_process_instance_variables, listed_tasks,
    lock_external_task, lock_request, open_tasks_request, read_open_service_tasks,
    read_process_instance_variables, report_bpmn_error, report_external_task_failure,
    success_status, variables_request, Reply, Request, RequestModel,
};
use crate::codec::{parsed_document, parsed_stream};
use crate::process_variables::{decoded, InputVariables, VariableModel};
use crate::registry::{answering, Handler, Registry};
use crate::settings::{ConfigModel, ConfigParams};
use crate::string_map::StringMap;
use crate::structures::{tasks_model, ServiceTask, ServiceTaskModel};
use crate::types::{HandlerError, HandlerResult, OutVariableModel};

verus! {

/// Where the worker stands: what it has asked for and not yet heard of.
#[derive(Debug, Clone, Copy, PartialEq, Eq, Structural)]
pub enum Phase {
    /// Asked for the open tasks.
    AwaitingTasks,
    /// Asked to lock the current task.
    Locking,
    /// Asked for the variables of the current task.
    FetchingVariables,
    /// Handed the current task to its handler.
    Running,
    /// Reported what the handler returned.
    Reporting,
    /// Sleeping until the next cycle.
    Sleeping,
}

/// The worker between two steps: its phase, the tasks of the cycle, and the
/// place of the current task among them.
#[derive(Debug)]
pub struct Worker {
    phase: Phase,
    tasks: Vec<ServiceTask>,
    next: usize,
}

/// The model of a [`Worker`].
pub struct WorkerModel {
    pub phase: Phase,
    pub tasks: Seq<ServiceTaskModel>,
    pub next: int,
}

/// What the caller is to do next.
#[derive(Debug)]
pub enum Action {
    /// Send the request and hand back the reply.
    Send(Request),
    /// Call the handler at this place of the registry on the variables and
    /// hand back what it returns.
    Invoke { handler: usize, input: InputVariables },
    /// Sleep for so many milliseconds, then say so.
    Sleep { millis: u64 },
}

/// The model of an [`Action`].
pub enum ActionModel {
    Send(RequestModel),
    Invoke { handler: int, input: Map<Seq<char>, VariableModel> },
    Sleep { millis: u64 },
}

impl View for Action {
    type V = ActionModel;

    open spec fn view(&self) -> ActionModel {
        match self {
            Action::Send(request) => ActionModel::Send(request@),
            Action::Invoke { handler, input } => ActionModel::Invoke {
                handler: *handler as int,
                input: input@,
            },
            Action::Sleep { millis } => ActionModel::Sleep { millis: *millis },
        }
    }
}

/// What came of the last action.
#[derive(Debug)]
pub enum Event {
    /// The reply to a request.
    Reply(Reply),
    /// What the handler returned.
    Handled(HandlerResult),
    /// The sleep is over.
    Woke,
}

/// The model of what a handler raised.
pub enum HandlerErrorModel {
    Business { code: Seq<char>, message: Option<Seq<char>> },
    Technical(Seq<char>),
}

/// The model of an [`Event`].
pub enum EventModel {
    Failed,
    Answered { status: u16, body: Seq<char> },
    Handled(Result<Seq<(Seq<char>, OutVariableModel)>, HandlerErrorModel>),
    Woke,
}

impl View for Event {
    type V = EventModel;

    open spec fn view(&self) -> EventModel {
        match self {
            Event::Reply(Reply::Failed(_)) => EventModel::Failed,
            Event::Reply(Reply::Answered { status, body }) => EventModel::Answered {
                status: *status,
                body: body@,
            },
            Event::Handled(Ok(variables)) => EventModel::Handled(Ok(variables.entries())),
            Event::Handled(Err(HandlerError::Business(error))) => EventModel::Handled(
                Err(
                    HandlerErrorModel::Business {
                        code: error.code@,
                        message: match error.message {
                            Some(m) => Some(m@),
                            None => None,
                        },
                    },
                ),
            ),
            Event::Handled(Err(HandlerError::Technical(text))) => EventModel::Handled(
                Err(HandlerErrorModel::Technical(text@)),
            ),
            Event::Woke => EventModel::Woke,
        }
    }
}

/// What a step found: the one thing about it that is worth a line in a log.
#[derive(Debug, Clone, Copy, PartialEq, Eq, Structural)]
pub enum Notice {
    /// The open tasks came.
    TasksListed,
    /// The open tasks did not come, or could not be read.
    FetchFailed,
    /// The lock was granted.
    Locked,
    /// The lock was not granted; the task is left for a later cycle.
    LockFailed,
    /// The task goes to its handler with the variables that came.
    Dispatched,
    /// The variables did not come; the task goes to its handler with none.
    DispatchedWithoutVariables,
    /// No handler answers to the task's activity; the task is left locked.
    HandlerMissing,
    /// The handler succeeded; the task is completed.
    Completing,
    /// The handler raised a business error; it is reported.
    RaisingBpmnError,
    /// The handler failed; the failure is reported.
    ReportingFailure,
    /// The report was taken.
    Reported,
    /// The report was not taken; it is not sent again.
    ReportFailed,
    /// A new cycle starts.
    CycleStarted,
    /// Something came that the worker did not wait for.
    Unexpected,
}

/// What a step finds.
pub open spec fn notice_of<F>(worker: WorkerModel, handlers: Seq<Handler<F>>, event: EventModel) -> Notice {
    match (worker.phase, event) {
        (Phase::AwaitingTasks, EventModel::Answered { body, .. }) => if listed_tasks(body).is_some() {
            Notice::TasksListed
        } else {
            Notice::FetchFailed
        },
        (Phase::AwaitingTasks, EventModel::Failed) => Notice::FetchFailed,
        (Phase::Locking, EventModel::Answered { status, .. }) => if success_status(status) {
            Notice::Locked
        } else {
            Notice::LockFailed
        },
        (Phase::Locking, EventModel::Failed) => Notice::LockFailed,
        (Phase::FetchingVariables, EventModel::Answered { .. }) => if answering(
            handlers,
            worker.tasks[worker.next].activity_id,
        ).is_some() {
            Notice::Dispatched
        } else {
            Notice::HandlerMissing
        },
        (Phase::FetchingVariables, EventModel::Failed) => if answering(
            handlers,
            worker.tasks[worker.next].activity_id,
        ).is_some() {
            Notice::DispatchedWithoutVariables
        } else {
            Notice::HandlerMissing
        },
        (Phase::Running, EventModel::Handled(Ok(_))) => Notice::Completing,
        (Phase::Running, EventModel::Handled(Err(HandlerErrorModel::Business { .. }))) => Notice::RaisingBpmnError,
        (Phase::Running, EventModel::Handled(Err(HandlerErrorModel::Technical(_)))) => Notice::ReportingFailure,
        (Phase::Reporting, EventModel::Answered { status, .. }) => if success_status(status) {
            Notice::Reported
        } else {
            Notice::ReportFailed
        },
        (Phase::Reporting, EventModel::Failed) => Notice::ReportFailed,
        (Phase::Sleeping, EventModel::Woke) => Notice::CycleStarted,
        _ => Notice::Unexpected,
    }
}

/// The worker asleep, with no tasks at hand.
pub open spec fn asleep(config: ConfigModel) -> (WorkerModel, ActionModel) {
    (
        WorkerModel { phase: Phase::Sleeping, tasks: Seq::empty(), next: 0 },
        ActionModel::Sleep { millis: config.poll_interval as u64 },
    )
}

/// The worker turning to the task at a place: it asks to lock that task, or
/// goes to sleep where the tasks of the cycle are done.
pub open spec fn turn_to(tasks: Seq<ServiceTaskModel>, next: int, config: ConfigModel) -> (
    WorkerModel,
    ActionModel,
) {
    if 0 <= next < tasks.len() {
        (
            WorkerModel { phase: Phase::Locking, tasks, next },
            ActionModel::Send(lock_request(config, tasks[next].id, config.lock_duration)),
        )
    } else {
        asleep(config)
    }
}

/// The report that a handler's result calls for: a completion with the
/// variables, a business error with its code and message, or a failure with
/// the error's text and no retries.
pub open spec fn report_request(
    config: ConfigModel,
    task_id: Seq<char>,
    result: Result<Seq<(Seq<char>, OutVariableModel)>, HandlerErrorModel>,
) -> RequestModel {
    match result {
        Ok(variables) => complete_request(config, task_id, variables),
        Err(HandlerErrorModel::Business { code, message }) => bpmn_error_request(
            config,
            task_id,
            code,
            message,
            None,
        ),
        Err(HandlerErrorModel::Technical(text)) => failure_request(
            config,
            task_id,
            text,
            None,
            0,
            0,
        ),
    }
}

/// The variables that the reply to the request for variables gives: those
/// decoded from the body, and none where no answer came.
pub open spec fn reply_variables(event: EventModel) -> Map<Seq<char>, VariableModel> {
    match event {
        EventModel::Answered { body, .. } => decoded(parsed_document(body), parsed_stream(body)),
        _ => Map::empty(),
    }
}

/// Whether the worker's state is one that it can be in: while it works on a
/// task, that task is one of the cycle's.
pub open spec fn well_formed(worker: WorkerModel) -> bool {
    match worker.phase {
        Phase::AwaitingTasks | Phase::Sleeping => true,
        _ => 0 <= worker.next < worker.tasks.len(),
    }
}

/// The step of the machine: the worker's next state and what the caller is
/// to do, given what came of the last action.
///
/// - The open tasks came: turn to the first. They did not: sleep.
/// - The lock was granted: ask for the task's variables. It was not: leave
///   the task and turn to the next.
/// - The variables came, or did not, which counts as none: run the handler
///   that answers to the task's activity. There is none: leave the task,
///   which stays locked, and turn to the next.
/// - The handler returned: report it.
/// - The report was answered, or was not: turn to the next task.
/// - The sleep is over: ask for the open tasks.
/// - Anything that the worker did not wait for: sleep.
pub open spec fn next_step<F>(
    worker: WorkerModel,
    config: ConfigModel,
    handlers: Seq<Handler<F>>,
    event: EventModel,
) -> (WorkerModel, ActionModel) {
    let task = worker.tasks[worker.next];
    match (worker.phase, event) {
        (Phase::AwaitingTasks, EventModel::Answered { body, .. }) => match listed_tasks(body) {
            Some(tasks) => turn_to(tasks, 0, config),
            None => asleep(config),
        },
        (Phase::Locking, EventModel::Answered { status, .. }) => if success_status(status) {
            (
                WorkerModel { phase: Phase::FetchingVariables, ..worker },
                ActionModel::Send(variables_request(config, task.process_instance_id)),
            )
        } else {
            turn_to(worker.tasks, worker.next + 1, config)
        },
        (Phase::Locking, EventModel::Failed) => turn_to(worker.tasks, worker.next + 1, config),
        (Phase::FetchingVariables, EventModel::Answered { .. })
        | (Phase::FetchingVariables, EventModel::Failed) => match answering(
            handlers,
            task.activity_id,
        ) {
            Some(handler) => (
                WorkerModel { phase: Phase::Running, ..worker },
                ActionModel::Invoke { handler, input: reply_variables(event) },
            ),
            None => turn_to(worker.tasks, worker.next + 1, config),
        },
        (Phase::Running, EventModel::Handled(result)) => (
            WorkerModel { phase: Phase::Reporting, ..worker },
            ActionModel::Send(report_request(config, task.id, result)),
        ),
        (Phase::Reporting, EventModel::Answered { .. }) | (Phase::Reporting, EventModel::Failed) => turn_to(
            worker.tasks,
            worker.next + 1,
            config,
        ),
        (Phase::Sleeping, EventModel::Woke) => (
            WorkerModel { phase: Phase::AwaitingTasks, tasks: Seq::empty(), next: 0 },
            ActionModel::Send(open_tasks_request(config)),
        ),
        _ => asleep(config),
    }
}

impl View for Worker {
    type V = WorkerModel;

    closed spec fn view(&self) -> WorkerModel {
        WorkerModel { phase: self.phase, tasks: tasks_model(self.tasks@), next: self.next as int }
    }
}

impl Worker {
    #[verifier::type_invariant]
    spec fn current_task_exists(&self) -> bool {
        match self.phase {
            Phase::AwaitingTasks | Phase::Sleeping => true,
            _ => self.next < self.tasks@.len(),
        }
    }

    /// The worker at the start of a cycle, and its first action: to ask for
    /// the open tasks.
    pub fn start(config: &ConfigParams) -> (begun: (Worker, Action))
        ensures
            begun.0@ == (WorkerModel { phase: Phase::AwaitingTasks, tasks: Seq::empty(), next: 0 }),
            begun.1@ == ActionModel::Send(open_tasks_request(config@)),
    {
        let worker = Worker { phase: Phase::AwaitingTasks, tasks: Vec::new(), next: 0 };
        assert(worker@.tasks =~= Seq::empty());
        (worker, Action::Send(get_open_service_tasks(config)))
    }

    /// The worker's phase.
    pub fn phase(&self) -> (phase: Phase)
        ensures
            phase == self@.phase,
    {
        self.phase
    }

    /// The task that the worker works on, if it works on one.
    pub fn current_task(&self) -> (task: Option<&ServiceTask>)
        ensures
            well_formed(self@),
            match task {
                Some(t) => self@.phase != Phase::AwaitingTasks && self@.phase != Phase::Sleeping
                    && t@ == self@.tasks[self@.next],
                None => self@.phase == Phase::AwaitingTasks || self@.phase == Phase::Sleeping,
            },
    {
        proof {
            use_type_invariant(self);
        }
        match self.phase {
            Phase::AwaitingTasks | Phase::Sleeping => None,
            _ => Some(&self.tasks[self.next]),
        }
    }

    fn sleep(config: &ConfigParams) -> (slept: (Worker, Action))
        ensures
            (slept.0@, slept.1@) == asleep(config@),
    {
        let worker = Worker { phase: Phase::Sleeping, tasks: Vec::new(), next: 0 };
        assert(worker@.tasks =~= Seq::empty());
        (worker, Action::Sleep { millis: config.poll_interval() as u64 })
    }

    fn turn(tasks: Vec<ServiceTask>, next: usize, config: &ConfigParams) -> (turned: (
        Worker,
        Action,
    ))
        ensures
            (turned.0@, turned.1@) == turn_to(tasks_model(tasks@), next as int, config@),
    {
        if next < tasks.len() {
            let request = lock_external_task(config, tasks[next].id(), config.lock_duration());
            (Worker { phase: Phase::Locking, tasks, next }, Action::Send(request))
        } else {
            Worker::sleep(config)
        }
    }

    /// Takes what came of the last action, and says what to do next and
    /// what there is to note.
    pub fn step<F>(self, config: &ConfigParams, registry: &Registry<F>, event: Event) -> (stepped: (
        Worker,
        Action,
        Notice,
    ))
        ensures
            well_formed(self@),
            (stepped.0@, stepped.1@) == next_step(self@, config@, registry.handlers(), event@),
            stepped.2 == notice_of(self@, registry.handlers(), event@),
    {
        proof {
            use_type_invariant(&self);
        }
        let Worker { phase, tasks, next } = self;
        let _count = tasks.len();
        match (phase, event) {
            (Phase::AwaitingTasks, Event::Reply(reply)) => {
                match read_open_service_tasks(reply) {
                    Ok(listed) => {
                        let turned = Worker::turn(listed, 0, config);
                        (turned.0, turned.1, Notice::TasksListed)
                    },
                    Err(_) => {
                        let slept = Worker::sleep(config);
                        (slept.0, slept.1, Notice::FetchFailed)
                    },
                }
            },
            (Phase::Locking, Event::Reply(reply)) => {
                match expect_success(reply) {
                    Ok(()) => {
                        let request = get_process_instance_variables(
                            config,
                            tasks[next].process_instance_id(),
                        );
                        (
                            Worker { phase: Phase::FetchingVariables, tasks, next },
                            Action::Send(request),
                            Notice::Locked,
                        )
                    },
                    Err(_) => {
                        let turned = Worker::turn(tasks, next + 1, config);
                        (turned.0, turned.1, Notice::LockFailed)
                    },
                }
            },
            (Phase::FetchingVariables, Event::Reply(reply)) => {
                let (input, came) = match read_process_instance_variables(reply) {
                    Ok(variables) => (variables, true),
                    Err(_) => (StringMap::new(), false),
                };
                match registry.position(tasks[next].activity_id()) {
                    Some(handler) => (
                        Worker { phase: Phase::Running, tasks, next },
                        Action::Invoke { handler, input },
                        if came {
                            Notice::Dispatched
                        } else {
                            Notice::DispatchedWithoutVariables
                        },
                    ),
                    None => {
                        let turned = Worker::turn(tasks, next + 1, config);
                        (turned.0, turned.1, Notice::HandlerMissing)
                    },
                }
            },
            (Phase::Running, Event::Handled(result)) => {
                let (request, notice) = match result {
                    Ok(variables) => (
                        complete_external_task(config, tasks[next].id(), &variables),
                        Notice::Completing,
                    ),
                    Err(HandlerError::Business(error)) => {
                        let message = match &error.message {
                            Some(m) => Some(m.as_str()),
                            None => None,
                        };
                        (
                            report_bpmn_error(
                                config,
                                tasks[next].id(),
                                error.code.as_str(),
                                message,
                                None,
                            ),
                            Notice::RaisingBpmnError,
                        )
                    },
                    Err(HandlerError::Technical(text)) => (
                        report_external_task_failure(
                            config,
                            tasks[next].id(),
                            text.as_str(),
                            None,
                            0,
                            0,
                        ),
                        Notice::ReportingFailure,
                    ),
                };
                (Worker { phase: Phase::Reporting, tasks, next }, Action::Send(request), notice)
            },
            (Phase::Reporting, Event::Reply(reply)) => {
                let notice = match expect_success(reply) {
                    Ok(()) => Notice::Reported,
                    Err(_) => Notice::ReportFailed,
                };
                let turned = Worker::turn(tasks, next + 1, config);
                (turned.0, turned.1, notice)
            },
            (Phase::Sleeping, Event::Woke) => {
                let begun = Worker::start(config);
                (begun.0, begun.1, Notice::CycleStarted)
            },
            _ => {
                let slept = Worker::sleep(config);
                (slept.0, slept.1, Notice::Unexpected)
            },
        }
    }
}

/// Every step leaves the worker in a state that it can be in.
pub proof fn law_step_keeps_well_formed<F>(
    worker: WorkerModel,
    config: ConfigModel,
    handlers: Seq<Handler<F>>,
    event: EventModel,
)
    requires
        well_formed(worker),
    ensures
        well_formed(next_step(worker, config, handlers, event).0),
{
}

/// A task has one end in a cycle: a step that leaves the task turns to the
/// task after it, and no step goes back.
pub proof fn law_tasks_go_forward<F>(
    worker: WorkerModel,
    config: ConfigModel,
    handlers: Seq<Handler<F>>,
    event: EventModel,
)
    requires
        well_formed(worker),
        worker.phase != Phase::AwaitingTasks,
        worker.phase != Phase::Sleeping,
    ensures
        ({
            let after = next_step(worker, config, handlers, event).0;
            ||| after.phase == Phase::Sleeping
            ||| after.tasks == worker.tasks && after.next == worker.next
            ||| after.tasks == worker.tasks && after.next == worker.next + 1 && after.phase
                == Phase::Locking
        }),
{
}

/// A lock that is not granted, by a status that is no success or by no
/// answer at all, ends the work on that task only: the worker sends no
/// report and turns to the next task of the cycle.
pub proof fn law_lock_failure_moves_on<F>(
    worker: WorkerModel,
    config: ConfigModel,
    handlers: Seq<Handler<F>>,
    event: EventModel,
)
    requires
        well_formed(worker),
        worker.phase == Phase::Locking,
        event is Failed || (event matches EventModel::Answered { status, .. } && !success_status(
            status,
        )),
    ensures
        next_step(worker, config, handlers, event) == turn_to(
            worker.tasks,
            worker.next + 1,
            config,
        ),
        worker.next + 1 < worker.tasks.len() ==> next_step(worker, config, handlers, event).1
            == ActionModel::Send(
            lock_request(config, worker.tasks[worker.next + 1].id, config.lock_duration),
        ),
{
}

/// A task for whose activity no handler is registered gets no report: the
/// worker turns to the next task of the cycle.
pub proof fn law_missing_handler_moves_on<F>(
    worker: WorkerModel,
    config: ConfigModel,
    handlers: Seq<Handler<F>>,
    event: EventModel,
)
    requires
        well_formed(worker),
        worker.phase == Phase::FetchingVariables,
        event is Failed || event is Answered,
        answering(handlers, worker.tasks[worker.next].activity_id).is_none(),
    ensures
        next_step(worker, config, handlers, event) == turn_to(
            worker.tasks,
            worker.next + 1,
            config,
        ),
        worker.next + 1 < worker.tasks.len() ==> next_step(worker, config, handlers, event).1
            == ActionModel::Send(
            lock_request(config, worker.tasks[worker.next + 1].id, config.lock_duration),
        ),
{
}

/// The variables of a task never stop it: whatever came for them, a task
/// with a handler goes to that handler, with no variables where none could
/// be had.
pub proof fn law_variables_never_fail<F>(
    worker: WorkerModel,
    config: ConfigModel,
    handlers: Seq<Handler<F>>,
    event: EventModel,
)
    requires
        well_formed(worker),
        worker.phase == Phase::FetchingVariables,
        event is Failed || event is Answered,
        answering(handlers, worker.tasks[worker.next].activity_id).is_some(),
    ensures
        next_step(worker, config, handlers, event).1 == (ActionModel::Invoke {
            handler: answering(handlers, worker.tasks[worker.next].activity_id).unwrap(),
            input: reply_variables(event),
        }),
        event is Failed ==> reply_variables(event) == Map::<Seq<char>, VariableModel>::empty(),
{
}

/// What a handler returns is reported once, and by the one request that
/// belongs to it: success by a completion with the handler's variables, a
/// business error by a business error report with its code and message, any
/// other error by a failure report with the error's text and no retries.
pub proof fn law_result_is_reported<F>(
    worker: WorkerModel,
    config: ConfigModel,
    handlers: Seq<Handler<F>>,
    result: Result<Seq<(Seq<char>, OutVariableModel)>, HandlerErrorModel>,
)
    requires
        well_formed(worker),
        worker.phase == Phase::Running,
    ensures
        ({
            let task_id = worker.tasks[worker.next].id;
            let after = next_step(worker, config, handlers, EventModel::Handled(result));
            &&& after.0 == (WorkerModel { phase: Phase::Reporting, ..worker })
            &&& after.1 == ActionModel::Send(
                match result {
                    Ok(variables) => complete_request(config, task_id, variables),
                    Err(HandlerErrorModel::Business { code, message }) => bpmn_error_request(
                        config,
                        task_id,
                        code,
                        message,
                        None,
                    ),
                    Err(HandlerErrorModel::Technical(text)) => failure_request(
                        config,
                        task_id,
                        text,
                        None,
                        0,
                        0,
                    ),
                },
            )
        }),
{
}

/// The three reports go to three different paths, so none can be taken for
/// another.
pub proof fn law_reports_differ(task_id: Seq<char>)
    ensures
        crate::api::task_path(task_id, "complete"@) != crate::api::task_path(task_id, "failure"@),
        crate::api::task_path(task_id, "complete"@) != crate::api::task_path(task_id, "bpmnError"@),
        crate::api::task_path(task_id, "failure"@) != crate::api::task_path(task_id, "bpmnError"@),
{
    reveal_strlit("complete");
    reveal_strlit("failure");
    reveal_strlit("bpmnError");
    let head = "/engine-rest/external-task/"@ + task_id + "/"@;
    assert((head + "complete"@).len() == head.len() + 8);
    assert((head + "failure"@).len() == head.len() + 7);
    assert((head + "bpmnError"@).len() == head.len() + 9);
}

/// A report that fails is not sent again: whatever came of it, the worker
/// turns to the next task.
pub proof fn law_report_is_not_retried<F>(
    worker: WorkerModel,
    config: ConfigModel,
    handlers: Seq<Handler<F>>,
    event: EventModel,
)
    requires
        well_formed(worker),
        worker.phase == Phase::Reporting,
        event is Failed || event is Answered,
    ensures
        next_step(worker, config, handlers, event) == turn_to(
            worker.tasks,
            worker.next + 1,
            config,
        ),
{
}

} // verus!
