//! Task records: how a document of the task store is read, when a task is ready to run, to
//! be retried or to be failed, and how a task is written out for an execution node.

use crate::decimal::{decimal_u32, parse_u32, same_text};
use crate::document::{
    dump, json_dumped, json_member, json_number, json_object, json_read, json_string, json_text,
    json_with_member, member, member_text, number, object, read_json, read_text, string,
    with_member,
};
use crate::timestamp::{moment_read, Moment, Timestamp};
use json::JsonValue;
use vstd::prelude::*;

verus! {

/// The number of attempts after which a task is failed rather than retried.
pub const MAX_ATTEMPTS: u32 = 3;

/// What a task is ready for.
#[derive(Debug, Clone, Copy, PartialEq, Eq, Structural)]
pub enum TaskOperation {
    Run,
    Retry,
    Fail,
}

/// Why a document of the task store is no task.
#[derive(Debug, Clone, Copy, PartialEq, Eq, Structural)]
pub enum ParseError {
    /// The document has no `attempts`.
    MissingAttempts,
    /// The document's `attempts` is not a number that a `u32` holds.
    InvalidAttempts,
}

/// The recurrence of a task, carried through as it came.
#[derive(Debug)]
pub struct Schedule {
    pub interval: String,
}

impl Schedule {
    /// Reads the schedule of a task document.
    pub fn parse(sched: &JsonValue) -> (schedule: Schedule)
        ensures
            schedule.interval@ == member_text(*sched, "interval"@),
    {
        Schedule { interval: read_text(sched, "interval") }
    }
}

/// The texts of a task document, field by field.
pub struct TaskTexts {
    pub id: Seq<char>,
    pub attempts: Seq<char>,
    pub retry_at: Seq<char>,
    pub run_at: Seq<char>,
    pub started_at: Seq<char>,
    pub scheduled_at: Seq<char>,
    pub params: Seq<char>,
    pub owner_id: Seq<char>,
    pub interval: Seq<char>,
    pub task_type: Seq<char>,
    pub scope: Seq<char>,
    pub traceparent: Seq<char>,
    pub state: Seq<char>,
    pub status: Seq<char>,
}

/// What a task record stands for.
pub struct TaskView {
    pub id: Seq<char>,
    pub attempts: u32,
    pub retry_at: Option<Moment>,
    pub run_at: Option<Moment>,
    pub started_at: Option<Moment>,
    pub scheduled_at: Option<Moment>,
    pub params: Seq<char>,
    pub owner_id: Seq<char>,
    pub interval: Seq<char>,
    pub task_type: Seq<char>,
    pub scope: Seq<char>,
    pub traceparent: Seq<char>,
    pub state: Seq<char>,
    pub status: Seq<char>,
}

/// The text that a document of the task store writes for an absent member.
pub open spec fn absent_text() -> Seq<char> {
    "null"@
}

/// The part of a search hit that describes the task.
pub open spec fn task_source(hit: JsonValue) -> JsonValue {
    json_member(json_member(hit, "_source"@), "task"@)
}

/// The texts of the task that a search hit describes.
pub open spec fn document_texts(hit: JsonValue) -> TaskTexts {
    let source = task_source(hit);
    TaskTexts {
        id: json_text(json_member(hit, "_id"@)),
        attempts: member_text(source, "attempts"@),
        retry_at: member_text(source, "retryAt"@),
        run_at: member_text(source, "runAt"@),
        started_at: member_text(source, "startedAt"@),
        scheduled_at: member_text(source, "scheduledAt"@),
        params: member_text(source, "params"@),
        owner_id: member_text(source, "ownerId"@),
        interval: member_text(json_member(source, "schedule"@), "interval"@),
        task_type: member_text(source, "taskType"@),
        scope: member_text(source, "scope"@),
        traceparent: member_text(source, "traceparent"@),
        state: member_text(source, "state"@),
        status: member_text(source, "status"@),
    }
}

/// The task that a document's texts describe. The number of attempts is required; a time
/// that cannot be read counts as absent; every other text is taken as it is.
pub open spec fn task_of_texts(texts: TaskTexts) -> Result<TaskView, ParseError> {
    match decimal_u32(texts.attempts) {
        Some(attempts) => Ok(
            TaskView {
                id: texts.id,
                attempts,
                retry_at: moment_read(texts.retry_at),
                run_at: moment_read(texts.run_at),
                started_at: moment_read(texts.started_at),
                scheduled_at: moment_read(texts.scheduled_at),
                params: texts.params,
                owner_id: texts.owner_id,
                interval: texts.interval,
                task_type: texts.task_type,
                scope: texts.scope,
                traceparent: texts.traceparent,
                state: texts.state,
                status: texts.status,
            },
        ),
        None => if texts.attempts == absent_text() {
            Err(ParseError::MissingAttempts)
        } else {
            Err(ParseError::InvalidAttempts)
        },
    }
}

/// Whether a time is set and still lies ahead of `now`. A time that is not set never does:
/// such a task is due at once.
pub open spec fn lies_ahead(at: Option<Moment>, now: Moment) -> bool {
    at matches Some(moment) && moment.after(now)
}

impl TaskView {
    /// Whether nobody has claimed the task.
    pub open spec fn is_idle(self) -> bool {
        self.status == "idle"@
    }

    /// Whether the task has been failed for good.
    pub open spec fn is_failed(self) -> bool {
        self.status == "failed"@
    }

    /// Whether the task has been attempted as often as a task may be.
    pub open spec fn has_maxxed_attempts(self) -> bool {
        self.attempts >= MAX_ATTEMPTS
    }

    /// The node that holds the task: none for an idle or a failed task.
    pub open spec fn owner(self) -> Option<Seq<char>> {
        if self.is_idle() || self.is_failed() {
            None
        } else {
            Some(self.owner_id)
        }
    }

    /// What the task is ready for at `now`: an idle task is run once its time to run has
    /// come; any other task waits until its time to retry has come, and is then failed if
    /// its attempts are used up and retried if they are not.
    pub open spec fn readiness(self, now: Moment) -> Option<TaskOperation> {
        if self.is_idle() {
            if lies_ahead(self.run_at, now) {
                None
            } else {
                Some(TaskOperation::Run)
            }
        } else if lies_ahead(self.retry_at, now) {
            None
        } else if self.has_maxxed_attempts() {
            Some(TaskOperation::Fail)
        } else {
            Some(TaskOperation::Retry)
        }
    }
}

/// The moment of a time that may be absent.
pub open spec fn moment_of(at: Option<Timestamp>) -> Option<Moment> {
    match at {
        Some(stamp) => Some(stamp@),
        None => None,
    }
}

/// The text under which a time goes into a task's document.
pub open spec fn moment_text(at: Option<Moment>) -> Seq<char> {
    match at {
        Some(moment) => moment.rfc3339(),
        None => absent_text(),
    }
}

/// What a text that is carried through stands for in a document: the JSON that it writes,
/// or, where it is no JSON text that can be read, the text itself as a string.
pub open spec fn carried(text: Seq<char>) -> JsonValue {
    match json_read(text) {
        Some(value) => value,
        None => json_string(text),
    }
}

/// The document that is sent to an execution node for a task. The parameters, the state and
/// the scope are carried through as they are.
pub open spec fn task_document(task: TaskView) -> JsonValue {
    let schedule = json_with_member(json_object(1), "interval"@, json_string(task.interval));
    let with_id = json_with_member(json_object(14), "id"@, json_string(task.id));
    let with_retry_at = json_with_member(
        with_id,
        "retryAt"@,
        json_string(moment_text(task.retry_at)),
    );
    let with_run_at = json_with_member(
        with_retry_at,
        "runAt"@,
        json_string(moment_text(task.run_at)),
    );
    let with_started_at = json_with_member(
        with_run_at,
        "startedAt"@,
        json_string(moment_text(task.started_at)),
    );
    let with_scheduled_at = json_with_member(
        with_started_at,
        "scheduledAt"@,
        json_string(moment_text(task.scheduled_at)),
    );
    let with_params = json_with_member(with_scheduled_at, "params"@, carried(task.params));
    let with_state = json_with_member(with_params, "state"@, carried(task.state));
    let with_scope = json_with_member(with_state, "scope"@, carried(task.scope));
    let with_owner = json_with_member(with_scope, "ownerId"@, json_string(task.owner_id));
    let with_type = json_with_member(with_owner, "taskType"@, json_string(task.task_type));
    let with_trace = json_with_member(with_type, "traceparent"@, json_string(task.traceparent));
    let with_attempts = json_with_member(
        with_trace,
        "attempts"@,
        json_number(task.attempts as u64),
    );
    let with_status = json_with_member(with_attempts, "status"@, json_string(task.status));
    json_with_member(with_status, "schedule"@, schedule)
}

/// The text that is sent to an execution node for a task: its document written out.
pub open spec fn task_text(task: TaskView) -> Seq<char> {
    json_dumped(task_document(task))
}

/// The texts of a task document as they were read, field by field.
#[derive(Debug)]
pub struct TaskFields {
    pub id: String,
    pub attempts: String,
    pub retry_at: String,
    pub run_at: String,
    pub started_at: String,
    pub scheduled_at: String,
    pub params: String,
    pub owner_id: String,
    pub schedule: Schedule,
    pub task_type: String,
    pub scope: String,
    pub traceparent: String,
    pub state: String,
    pub status: String,
}

impl View for TaskFields {
    type V = TaskTexts;

    open spec fn view(&self) -> TaskTexts {
        TaskTexts {
            id: self.id@,
            attempts: self.attempts@,
            retry_at: self.retry_at@,
            run_at: self.run_at@,
            started_at: self.started_at@,
            scheduled_at: self.scheduled_at@,
            params: self.params@,
            owner_id: self.owner_id@,
            interval: self.schedule.interval@,
            task_type: self.task_type@,
            scope: self.scope@,
            traceparent: self.traceparent@,
            state: self.state@,
            status: self.status@,
        }
    }
}

impl TaskFields {
    /// Reads the texts of the task that a search hit describes.
    pub fn read(hit: &JsonValue) -> (fields: TaskFields)
        ensures
            fields@ == document_texts(*hit),
    {
        let source = member(member(hit, "_source"), "task");
        TaskFields {
            id: read_text(hit, "_id"),
            attempts: read_text(source, "attempts"),
            retry_at: read_text(source, "retryAt"),
            run_at: read_text(source, "runAt"),
            started_at: read_text(source, "startedAt"),
            scheduled_at: read_text(source, "scheduledAt"),
            params: read_text(source, "params"),
            owner_id: read_text(source, "ownerId"),
            schedule: Schedule::parse(member(source, "schedule")),
            task_type: read_text(source, "taskType"),
            scope: read_text(source, "scope"),
            traceparent: read_text(source, "traceparent"),
            state: read_text(source, "state"),
            status: read_text(source, "status"),
        }
    }
}

/// One task of the task store.
#[derive(Debug)]
pub struct Task {
    pub id: String,
    pub attempts: u32,
    pub retry_at: Option<Timestamp>,
    pub run_at: Option<Timestamp>,
    pub started_at: Option<Timestamp>,
    pub scheduled_at: Option<Timestamp>,
    pub params: String,
    pub owner_id: String,
    pub schedule: Schedule,
    pub task_type: String,
    pub scope: String,
    pub traceparent: String,
    pub state: String,
    pub status: String,
}

impl View for Task {
    type V = TaskView;

    open spec fn view(&self) -> TaskView {
        TaskView {
            id: self.id@,
            attempts: self.attempts,
            retry_at: moment_of(self.retry_at),
            run_at: moment_of(self.run_at),
            started_at: moment_of(self.started_at),
            scheduled_at: moment_of(self.scheduled_at),
            params: self.params@,
            owner_id: self.owner_id@,
            interval: self.schedule.interval@,
            task_type: self.task_type@,
            scope: self.scope@,
            traceparent: self.traceparent@,
            state: self.state@,
            status: self.status@,
        }
    }
}

/// Reads a text that is carried through as what it stands for in a document.
fn carry(text: &String) -> (value: JsonValue)
    ensures
        value == carried(text@),
{
    match read_json(text.as_str()) {
        Some(value) => value,
        None => string(text.clone()),
    }
}

/// Writes a time that may be absent as it goes into a task's document.
fn stringify_datetime_option(at: &Option<Timestamp>) -> (text: String)
    ensures
        text@ == moment_text(moment_of(*at)),
{
    match at {
        Some(stamp) => stamp.to_rfc3339(),
        None => "null".to_owned(),
    }
}

impl Task {
    /// Makes a task of the texts of its document.
    pub fn from_fields(fields: TaskFields) -> (made: Result<Task, ParseError>)
        ensures
            match made {
                Ok(task) => task_of_texts(fields@) == Ok::<TaskView, ParseError>(task@),
                Err(error) => task_of_texts(fields@) == Err::<TaskView, ParseError>(error),
            },
    {
        let attempts: u32 = match parse_u32(fields.attempts.as_str()) {
            Some(attempts) => attempts,
            None => {
                if same_text(fields.attempts.as_str(), "null") {
                    return Err(ParseError::MissingAttempts);
                }
                return Err(ParseError::InvalidAttempts);
            },
        };
        let retry_at = Timestamp::parse(fields.retry_at.as_str());
        let run_at = Timestamp::parse(fields.run_at.as_str());
        let started_at = Timestamp::parse(fields.started_at.as_str());
        let scheduled_at = Timestamp::parse(fields.scheduled_at.as_str());
        Ok(
            Task {
                id: fields.id,
                attempts,
                retry_at,
                run_at,
                started_at,
                scheduled_at,
                params: fields.params,
                owner_id: fields.owner_id,
                schedule: fields.schedule,
                task_type: fields.task_type,
                scope: fields.scope,
                traceparent: fields.traceparent,
                state: fields.state,
                status: fields.status,
            },
        )
    }

    /// Reads the task that a search hit of the task store describes.
    pub fn parse(hit: &JsonValue) -> (made: Result<Task, ParseError>)
        ensures
            match made {
                Ok(task) => task_of_texts(document_texts(*hit)) == Ok::<TaskView, ParseError>(
                    task@,
                ),
                Err(error) => task_of_texts(document_texts(*hit)) == Err::<TaskView, ParseError>(
                    error,
                ),
            },
    {
        Task::from_fields(TaskFields::read(hit))
    }

    /// Writes the task out as the JSON text that an execution node takes.
    pub fn stringify(&self) -> (text: String)
        ensures
            text@ == task_text(self@),
    {
        let schedule = with_member(object(1), "interval", string(self.schedule.interval.clone()));
        let mut document = with_member(object(14), "id", string(self.id.clone()));
        document = with_member(document, "retryAt", string(stringify_datetime_option(&self.retry_at)));
        document = with_member(document, "runAt", string(stringify_datetime_option(&self.run_at)));
        document = with_member(
            document,
            "startedAt",
            string(stringify_datetime_option(&self.started_at)),
        );
        document = with_member(
            document,
            "scheduledAt",
            string(stringify_datetime_option(&self.scheduled_at)),
        );
        document = with_member(document, "params", carry(&self.params));
        document = with_member(document, "state", carry(&self.state));
        document = with_member(document, "scope", carry(&self.scope));
        document = with_member(document, "ownerId", string(self.owner_id.clone()));
        document = with_member(document, "taskType", string(self.task_type.clone()));
        document = with_member(document, "traceparent", string(self.traceparent.clone()));
        document = with_member(document, "attempts", number(self.attempts as u64));
        document = with_member(document, "status", string(self.status.clone()));
        document = with_member(document, "schedule", schedule);
        dump(document)
    }

    /// The identity of the task in the task store.
    pub fn get_id(&self) -> (id: String)
        ensures
            id@ == self@.id,
    {
        self.id.clone()
    }

    /// The node that holds the task. An idle or a failed task counts for no node.
    pub fn get_owner(&self) -> (owner: Option<String>)
        ensures
            match owner {
                Some(id) => self@.owner() == Some(id@),
                None => self@.owner() is None,
            },
            self@.is_idle() || self@.is_failed() ==> owner is None,
            !self@.is_idle() && !self@.is_failed() ==> (owner matches Some(id) && id@
                == self@.owner_id),
    {
        if self.is_unclaimed() || self.is_failed() {
            return None;
        }
        Some(self.owner_id.clone())
    }

    /// What the task is ready for at `now`.
    pub fn ready_to(&self, now: &Timestamp) -> (operation: Option<TaskOperation>)
        ensures
            operation == self@.readiness(now@),
            self@.is_idle() && !lies_ahead(self@.run_at, now@) ==> operation == Some(
                TaskOperation::Run,
            ),
            self@.is_idle() && lies_ahead(self@.run_at, now@) ==> operation is None,
            !self@.is_idle() && lies_ahead(self@.retry_at, now@) ==> operation is None,
            !self@.is_idle() && !lies_ahead(self@.retry_at, now@) && self@.attempts
                >= MAX_ATTEMPTS ==> operation == Some(TaskOperation::Fail),
            !self@.is_idle() && !lies_ahead(self@.retry_at, now@) && self@.attempts
                < MAX_ATTEMPTS ==> operation == Some(TaskOperation::Retry),
    {
        if self.ready_to_run_now(now) {
            return Some(TaskOperation::Run);
        }
        self.ready_to_retry_or_fail(now)
    }

    fn is_unclaimed(&self) -> (idle: bool)
        ensures
            idle == self@.is_idle(),
    {
        same_text(self.status.as_str(), "idle")
    }

    fn is_failed(&self) -> (failed: bool)
        ensures
            failed == self@.is_failed(),
    {
        same_text(self.status.as_str(), "failed")
    }

    fn has_maxxed_attempts(&self) -> (maxxed: bool)
        ensures
            maxxed == self@.has_maxxed_attempts(),
    {
        self.attempts >= MAX_ATTEMPTS
    }

    fn ready_to_run_now(&self, now: &Timestamp) -> (ready: bool)
        ensures
            ready == (self@.is_idle() && !lies_ahead(self@.run_at, now@)),
    {
        let due: bool = match &self.run_at {
            Some(date) => !date.is_after(now),
            None => true,
        };
        self.is_unclaimed() && due
    }

    fn ready_to_retry_or_fail(&self, now: &Timestamp) -> (operation: Option<TaskOperation>)
        ensures
            operation == if self@.is_idle() || lies_ahead(self@.retry_at, now@) {
                None
            } else if self@.has_maxxed_attempts() {
                Some(TaskOperation::Fail)
            } else {
                Some(TaskOperation::Retry)
            },
    {
        if self.is_unclaimed() {
            return None;
        }
        let waits: bool = match &self.retry_at {
            Some(date) => date.is_after(now),
            None => false,
        };
        if waits {
            return None;
        }
        if self.has_maxxed_attempts() {
            return Some(TaskOperation::Fail);
        }
        Some(TaskOperation::Retry)
    }
}

} // verus!
