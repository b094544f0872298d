//! The tasks that the engine offers.

use vstd::prelude::*;

use crate::json::{
    bool_member, items_model, lemma_model_of_parts, member_value, text_member, Json, JsonModel,
    JsonNumber, NumberModel,
};

pub use crate::settings::ConfigParams;

verus! {

/// An external task as the engine lists it.
#[derive(Debug)]
pub struct ServiceTask {
    id: String,
    activity_id: String,
    process_instance_id: String,
    suspended: bool,
    topic_name: String,
    priority: usize,
    business_key: String,
    worker_id: Option<String>,
}

/// The model of a [`ServiceTask`].
pub struct ServiceTaskModel {
    pub id: Seq<char>,
    pub activity_id: Seq<char>,
    pub process_instance_id: Seq<char>,
    pub suspended: bool,
    pub topic_name: Seq<char>,
    pub priority: usize,
    pub business_key: Seq<char>,
    pub worker_id: Option<Seq<char>>,
}

impl View for ServiceTask {
    type V = ServiceTaskModel;

    closed spec fn view(&self) -> ServiceTaskModel {
        ServiceTaskModel {
            id: self.id@,
            activity_id: self.activity_id@,
            process_instance_id: self.process_instance_id@,
            suspended: self.suspended,
            topic_name: self.topic_name@,
            priority: self.priority,
            business_key: self.business_key@,
            worker_id: match self.worker_id {
                Some(w) => Some(w@),
                None => None,
            },
        }
    }
}

/// The priority that an object gives: a number that is a non-negative
/// integer and fits the machine's word.
pub open spec fn priority_member(members: Seq<(Seq<char>, JsonModel)>) -> Option<usize> {
    match member_value(members, "priority"@) {
        Some(JsonModel::Number(NumberModel::PosInt(p))) if p <= usize::MAX => Some(p as usize),
        _ => None,
    }
}

/// The lock owner that an object gives: none where the member is missing or
/// `null`, the text where it is a string. The outer `None` is for a member
/// of another kind.
pub open spec fn worker_member(members: Seq<(Seq<char>, JsonModel)>) -> Option<
    Option<Seq<char>>,
> {
    match member_value(members, "workerId"@) {
        None => Some(None),
        Some(JsonModel::Null) => Some(None),
        Some(JsonModel::String(w)) => Some(Some(w)),
        Some(_) => None,
    }
}

/// The task that a document describes: an object that has `id`,
/// `activityId`, `processInstanceId`, `topicName` and `businessKey` as
/// strings, `suspended` as a truth value and `priority` as a non-negative
/// integer, and whose `workerId`, if there, is a string or `null`.
pub open spec fn service_task_of(doc: JsonModel) -> Option<ServiceTaskModel> {
    match doc {
        JsonModel::Object(m) => {
            if text_member(m, "id"@).is_some() && text_member(m, "activityId"@).is_some()
                && text_member(m, "processInstanceId"@).is_some() && bool_member(
                m,
                "suspended"@,
            ).is_some() && text_member(m, "topicName"@).is_some() && priority_member(m).is_some()
                && text_member(m, "businessKey"@).is_some() && worker_member(m).is_some() {
                Some(
                    ServiceTaskModel {
                        id: text_member(m, "id"@).unwrap(),
                        activity_id: text_member(m, "activityId"@).unwrap(),
                        process_instance_id: text_member(m, "processInstanceId"@).unwrap(),
                        suspended: bool_member(m, "suspended"@).unwrap(),
                        topic_name: text_member(m, "topicName"@).unwrap(),
                        priority: priority_member(m).unwrap(),
                        business_key: text_member(m, "businessKey"@).unwrap(),
                        worker_id: worker_member(m).unwrap(),
                    },
                )
            } else {
                None
            }
        },
        _ => None,
    }
}

/// The tasks that a document lists: an array in which every item describes a
/// task.
pub open spec fn service_tasks_of(doc: JsonModel) -> Option<Seq<ServiceTaskModel>> {
    match doc {
        JsonModel::Array(items) => {
            if forall|i: int| 0 <= i < items.len() ==> service_task_of(#[trigger] items[i]).is_some() {
                Some(Seq::new(items.len(), |i: int| service_task_of(items[i]).unwrap()))
            } else {
                None
            }
        },
        _ => None,
    }
}

/// The models of tasks.
pub open spec fn tasks_model(tasks: Seq<ServiceTask>) -> Seq<ServiceTaskModel> {
    Seq::new(tasks.len(), |i: int| tasks[i]@)
}

impl ServiceTask {
    /// A task with the given description.
    pub fn new(
        id: String,
        activity_id: String,
        process_instance_id: String,
        suspended: bool,
        topic_name: String,
        priority: usize,
        business_key: String,
        worker_id: Option<String>,
    ) -> (task: Self)
        ensures
            task@ == (ServiceTaskModel {
                id: id@,
                activity_id: activity_id@,
                process_instance_id: process_instance_id@,
                suspended,
                topic_name: topic_name@,
                priority,
                business_key: business_key@,
                worker_id: match worker_id {
                    Some(w) => Some(w@),
                    None => None,
                },
            }),
    {
        ServiceTask {
            id,
            activity_id,
            process_instance_id,
            suspended,
            topic_name,
            priority,
            business_key,
            worker_id,
        }
    }

    /// The id of the external task.
    pub fn id(&self) -> (id: &str)
        ensures
            id@ == self@.id,
    {
        self.id.as_str()
    }

    /// The id of the activity in the process model; handlers are registered
    /// under it.
    pub fn activity_id(&self) -> (id: &str)
        ensures
            id@ == self@.activity_id,
    {
        self.activity_id.as_str()
    }

    /// The id of the process instance that the task belongs to.
    pub fn process_instance_id(&self) -> (id: &str)
        ensures
            id@ == self@.process_instance_id,
    {
        self.process_instance_id.as_str()
    }

    /// Whether the task is suspended.
    pub fn suspended(&self) -> (suspended: bool)
        ensures
            suspended == self@.suspended,
    {
        self.suspended
    }

    /// The topic of the task.
    pub fn topic_name(&self) -> (topic: &str)
        ensures
            topic@ == self@.topic_name,
    {
        self.topic_name.as_str()
    }

    /// The priority of the task.
    pub fn priority(&self) -> (priority: usize)
        ensures
            priority == self@.priority,
    {
        self.priority
    }

    /// The business key of the process instance.
    pub fn business_key(&self) -> (key: &str)
        ensures
            key@ == self@.business_key,
    {
        self.business_key.as_str()
    }

    /// The worker that holds the lock on the task, if one does.
    pub fn worker_id(&self) -> (owner: Option<&String>)
        ensures
            match owner {
                Some(w) => self@.worker_id == Some(w@),
                None => self@.worker_id.is_none(),
            },
    {
        match &self.worker_id {
            Some(w) => Some(w),
            None => None,
        }
    }

    /// Reads a task from a document.
    pub fn from_json(doc: &Json) -> (read: Option<ServiceTask>)
        ensures
            match read {
                Some(task) => service_task_of(doc@) == Some(task@),
                None => service_task_of(doc@).is_none(),
            },
    {
        let id = match doc.text_field("id") {
            Some(t) => t.clone(),
            None => { return None; },
        };
        let activity_id = match doc.text_field("activityId") {
            Some(t) => t.clone(),
            None => { return None; },
        };
        let process_instance_id = match doc.text_field("processInstanceId") {
            Some(t) => t.clone(),
            None => { return None; },
        };
        let suspended = match doc.bool_field("suspended") {
            Some(b) => b,
            None => { return None; },
        };
        let topic_name = match doc.text_field("topicName") {
            Some(t) => t.clone(),
            None => { return None; },
        };
        let priority = match doc.field("priority") {
            Some(Json::Number(JsonNumber::PosInt(p))) => {
                if *p <= usize::MAX as u64 {
                    *p as usize
                } else {
                    return None;
                }
            },
            _ => { return None; },
        };
        let business_key = match doc.text_field("businessKey") {
            Some(t) => t.clone(),
            None => { return None; },
        };
        let worker_id = match doc.field("workerId") {
            None => None,
            Some(Json::Null) => None,
            Some(Json::String(w)) => Some(w.clone()),
            Some(_) => { return None; },
        };
        Some(
            ServiceTask {
                id,
                activity_id,
                process_instance_id,
                suspended,
                topic_name,
                priority,
                business_key,
                worker_id,
            },
        )
    }
}

/// Reads the list of tasks from a document.
pub fn decode_service_tasks(doc: &Json) -> (tasks: Option<Vec<ServiceTask>>)
    ensures
        match tasks {
            Some(list) => service_tasks_of(doc@) == Some(tasks_model(list@)),
            None => service_tasks_of(doc@).is_none(),
        },
{
    proof {
        lemma_model_of_parts(*doc);
    }
    match doc {
        Json::Array(items) => {
            let mut tasks: Vec<ServiceTask> = Vec::new();
            let mut i: usize = 0;
            while i < items.len()
                invariant
                    i <= items@.len(),
                    tasks@.len() == i,
                    doc@ == JsonModel::Array(items_model(items@)),
                    forall|k: int|
                        0 <= k < i ==> service_task_of(#[trigger] items_model(items@)[k]) == Some(
                            tasks@[k]@,
                        ),
                decreases items@.len() - i,
            {
                match ServiceTask::from_json(&items[i]) {
                    Some(task) => {
                        tasks.push(task);
                    },
                    None => {
                        assert(service_task_of(items_model(items@)[i as int]).is_none());
                        return None;
                    },
                }
                i = i + 1;
            }
            assert(tasks_model(tasks@) =~= service_tasks_of(doc@).unwrap());
            Some(tasks)
        },
        _ => None,
    }
}

} // verus!
