//! One cycle of the dispatcher: the tasks of a search are sorted into those that are ready
//! and counted by their owners, and each ready task is failed, claimed for the execution
//! node with the most room, or passed over until the next cycle.
//!
//! Nothing is sent from here. A cycle answers with the requests to send, task by task, and
//! keeps the count of what each node holds up to date as it goes, so that no node is given
//! more than it may hold within one cycle.

use crate::address::{get_update_url_from_id, update_url};
use crate::config::{Config, ConfigView};
use crate::document::{
    dump, element, json_dumped, json_element, json_length, json_member, json_number, json_object,
    json_read, json_string, json_with_member, length, member, number, object, read_json, string,
    with_member,
};
use crate::kibana::{
    choice, choose_free_kibana_node, lemma_selection_is_choice, no_choice, run_request,
    KibanaNode,
};
use crate::ownership::{assigned, count_of, OwnershipMap};
use crate::request::{DispatchError, Request, RequestView};
use crate::task::{
    document_texts, task_of_texts, ParseError, Task, TaskOperation, TaskView,
};
use crate::timestamp::{moment_of_millis, Moment, Timestamp};
use json::JsonValue;
use vstd::prelude::*;

verus! {

/// The time for which a claimed task is left alone before it counts as due for a retry, in
/// milliseconds.
pub const CLAIM_BACKOFF_MILLIS: u32 = 30_000;

/// The document that updates a task in the task store with the given fields.
pub open spec fn update_document(fields: JsonValue) -> JsonValue {
    json_with_member(
        json_object(1),
        "doc"@,
        json_with_member(json_object(1), "task"@, fields),
    )
}

/// The body of the update that claims a task for an owner.
pub open spec fn claim_text(
    scheduled_at: Seq<char>,
    retry_at: Seq<char>,
    attempts: u64,
    owner: Seq<char>,
) -> Seq<char> {
    let with_scheduled_at = json_with_member(
        json_object(5),
        "scheduledAt"@,
        json_string(scheduled_at),
    );
    let with_retry_at = json_with_member(with_scheduled_at, "retryAt"@, json_string(retry_at));
    let with_attempts = json_with_member(with_retry_at, "attempts"@, json_number(attempts));
    let with_status = json_with_member(with_attempts, "status"@, json_string("claiming"@));
    let with_owner = json_with_member(with_status, "ownerId"@, json_string(owner));
    json_dumped(update_document(with_owner))
}

/// The body of the update that marks a task as running.
pub open spec fn run_text(started_at: Seq<char>) -> Seq<char> {
    let with_started_at = json_with_member(
        json_object(2),
        "startedAt"@,
        json_string(started_at),
    );
    let with_status = json_with_member(with_started_at, "status"@, json_string("running"@));
    json_dumped(update_document(with_status))
}

/// The body of the update that marks a task as failed.
pub open spec fn fail_text() -> Seq<char> {
    json_dumped(
        update_document(json_with_member(json_object(1), "status"@, json_string("failed"@))),
    )
}

/// Writes out the document that updates a task with the given fields.
fn update_body(fields: JsonValue) -> (body: String)
    ensures
        body@ == json_dumped(update_document(fields)),
{
    dump(with_member(object(1), "doc", with_member(object(1), "task", fields)))
}

/// Writes the body of the update that claims a task for an owner.
pub fn claim_body(scheduled_at: String, retry_at: String, attempts: u64, owner: &str) -> (body:
    String)
    ensures
        body@ == claim_text(scheduled_at@, retry_at@, attempts, owner@),
{
    let mut fields = with_member(object(5), "scheduledAt", string(scheduled_at));
    fields = with_member(fields, "retryAt", string(retry_at));
    fields = with_member(fields, "attempts", number(attempts));
    fields = with_member(fields, "status", string("claiming".to_owned()));
    fields = with_member(fields, "ownerId", string(owner.to_owned()));
    update_body(fields)
}

/// Writes the body of the update that marks a task as running since `now`.
pub fn run_body(now: &Timestamp) -> (body: String)
    ensures
        body@ == run_text(now@.rfc3339()),
{
    let mut fields = with_member(object(2), "startedAt", string(now.to_rfc3339()));
    fields = with_member(fields, "status", string("running".to_owned()));
    update_body(fields)
}

/// Writes the body of the update that marks a task as failed.
pub fn fail_body() -> (body: String)
    ensures
        body@ == fail_text(),
{
    update_body(with_member(object(1), "status", string("failed".to_owned())))
}

/// The update that marks the task `id` as failed, for a task store at `base`.
pub open spec fn fail_request(base: Seq<char>, id: Seq<char>) -> Result<RequestView, DispatchError> {
    match update_url(base, id) {
        Ok(url) => Ok(RequestView { url, body: fail_text() }),
        Err(error) => Err(DispatchError::StoreAddress(error)),
    }
}

/// The attempts that a task is claimed with: one more than it has for a retry, as many as it
/// has otherwise.
pub open spec fn claimed_attempts(task: TaskView, operation: TaskOperation) -> u64 {
    if operation == TaskOperation::Retry {
        (task.attempts + 1) as u64
    } else {
        task.attempts as u64
    }
}

/// The moment until which a task that is claimed at `now` is left alone: the time of the
/// backoff after the millisecond of `now`.
pub open spec fn retry_moment(now: Moment) -> Moment {
    moment_of_millis(now.millis() + CLAIM_BACKOFF_MILLIS)
}

/// The update that claims a task for `owner` at `now`, for a task store at `base`: the task
/// is scheduled at `now`, is left alone for the time of the backoff, and belongs to `owner`
/// with the attempts that it is claimed with.
pub open spec fn claim_request(
    base: Seq<char>,
    task: TaskView,
    operation: TaskOperation,
    owner: Seq<char>,
    now: Moment,
) -> Result<RequestView, DispatchError> {
    match update_url(base, task.id) {
        Ok(url) => Ok(
            RequestView {
                url,
                body: claim_text(
                    now.rfc3339(),
                    retry_moment(now).rfc3339(),
                    claimed_attempts(task, operation),
                    owner,
                ),
            },
        ),
        Err(error) => Err(DispatchError::StoreAddress(error)),
    }
}

/// The update that marks a claimed task as running since `now`: it goes to the address
/// that the claim went to.
pub open spec fn running_request(claim: RequestView, now: Moment) -> RequestView {
    RequestView { url: claim.url, body: run_text(now.rfc3339()) }
}

/// The updates that go to the task store for one task's turn, in the order in which they
/// go: the claim and then the mark as running for a claimed task, the mark as failed for a
/// failed one, and nothing for any other.
pub open spec fn store_updates(dispatch: DispatchView) -> Seq<RequestView> {
    match dispatch {
        DispatchView::Claim { claim, running, .. } => seq![claim, running],
        DispatchView::Fail { update, .. } => seq![update],
        _ => Seq::empty(),
    }
}

/// What one task's turn in a cycle stands for.
pub enum DispatchView {
    Fail { task_id: Seq<char>, update: RequestView },
    Claim {
        task_id: Seq<char>,
        node: KibanaNode,
        attempts: u64,
        claim: RequestView,
        run: RequestView,
        running: RequestView,
    },
    Skip { task_id: Seq<char> },
    Abandon { task_id: Seq<char>, error: DispatchError },
}

/// What is to be done for one task in a cycle.
#[derive(Debug)]
pub enum Dispatch {
    /// The task has used up its attempts: `update` marks it as failed, and no node is called.
    Fail { task_id: String, update: Request },
    /// The task goes to `node`. Two updates go to the task store, in this order: `claim`
    /// claims the task with `attempts` attempts, and `running` marks it as running since
    /// the moment of the claim. `run` asks the node to run the task.
    Claim {
        task_id: String,
        node: KibanaNode,
        attempts: u64,
        claim: Request,
        run: Request,
        running: Request,
    },
    /// No node has room: the task is left as it is until the next cycle.
    Skip { task_id: String },
    /// A request for the task could not be made: the task is left as it is.
    Abandon { task_id: String, error: DispatchError },
}

impl View for Dispatch {
    type V = DispatchView;

    open spec fn view(&self) -> DispatchView {
        match *self {
            Dispatch::Fail { task_id, update } => DispatchView::Fail {
                task_id: task_id@,
                update: update@,
            },
            Dispatch::Claim { task_id, node, attempts, claim, run, running } => DispatchView::Claim {
                task_id: task_id@,
                node,
                attempts,
                claim: claim@,
                run: run@,
                running: running@,
            },
            Dispatch::Skip { task_id } => DispatchView::Skip { task_id: task_id@ },
            Dispatch::Abandon { task_id, error } => DispatchView::Abandon {
                task_id: task_id@,
                error,
            },
        }
    }
}

/// What is to be done for a task that is ready for `operation`, when `owners` counts what
/// each node holds. A task to fail is failed. Any other task goes to the node with the most
/// room, and is passed over where no node has room. Where a request for the task cannot be
/// made, the task is abandoned for this cycle.
pub open spec fn planned(
    config: ConfigView,
    task: TaskView,
    operation: TaskOperation,
    nodes: Seq<KibanaNode>,
    owners: Map<Seq<char>, nat>,
    now: Moment,
) -> DispatchView {
    if operation == TaskOperation::Fail {
        match fail_request(config.elasticsearch_path, task.id) {
            Ok(update) => DispatchView::Fail { task_id: task.id, update },
            Err(error) => DispatchView::Abandon { task_id: task.id, error },
        }
    } else {
        match choice(nodes, owners, config.kibana_capacity as int) {
            Some(index) => match claim_request(
                config.elasticsearch_path,
                task,
                operation,
                nodes[index].id@,
                now,
            ) {
                Ok(claim) => match run_request(nodes[index].path@, task) {
                    Ok(run) => DispatchView::Claim {
                        task_id: task.id,
                        node: nodes[index],
                        attempts: claimed_attempts(task, operation),
                        claim,
                        run,
                        running: running_request(claim, now),
                    },
                    Err(error) => DispatchView::Abandon { task_id: task.id, error },
                },
                Err(error) => DispatchView::Abandon { task_id: task.id, error },
            },
            None => DispatchView::Skip { task_id: task.id },
        }
    }
}

/// The counts after one task's turn: a claim counts for the node that the task goes to, and
/// nothing else counts.
pub open spec fn owners_after(dispatch: DispatchView, owners: Map<Seq<char>, nat>) -> Map<
    Seq<char>,
    nat,
> {
    match dispatch {
        DispatchView::Claim { node, .. } => assigned(owners, node.id@),
        _ => owners,
    }
}

/// What the tasks of a cycle stand for, each with what it is ready for.
pub open spec fn task_views(tasks: Seq<(Task, TaskOperation)>) -> Seq<(TaskView, TaskOperation)> {
    Seq::new(tasks.len(), |at: int| (tasks[at].0@, tasks[at].1))
}

/// The counts before the turn of the task at `turn`, when the cycle began with `owners`.
pub open spec fn owners_before(
    config: ConfigView,
    tasks: Seq<(TaskView, TaskOperation)>,
    nodes: Seq<KibanaNode>,
    owners: Map<Seq<char>, nat>,
    now: Moment,
    turn: nat,
) -> Map<Seq<char>, nat>
    decreases turn,
{
    if turn == 0 {
        owners
    } else {
        let before = owners_before(config, tasks, nodes, owners, now, (turn - 1) as nat);
        owners_after(
            planned(config, tasks[turn - 1].0, tasks[turn - 1].1, nodes, before, now),
            before,
        )
    }
}

/// A task that is claimed for a retry is claimed with one attempt more than it has, and any
/// other task with the attempts that it has.
pub proof fn lemma_claim_counts_the_attempt(
    config: ConfigView,
    task: TaskView,
    operation: TaskOperation,
    nodes: Seq<KibanaNode>,
    owners: Map<Seq<char>, nat>,
    now: Moment,
)
    ensures
        planned(config, task, operation, nodes, owners, now) matches DispatchView::Claim {
            attempts,
            ..
        } ==> attempts == if operation == TaskOperation::Retry {
            task.attempts + 1
        } else {
            task.attempts as int
        },
{
}

/// A claimed task gets exactly two updates in the task store: the claim, and after it the
/// mark as running since the moment of the claim, at the same address. A failed task gets
/// the mark as failed alone, and any other task gets nothing.
pub proof fn lemma_claimed_task_is_marked_running(
    config: ConfigView,
    task: TaskView,
    operation: TaskOperation,
    nodes: Seq<KibanaNode>,
    owners: Map<Seq<char>, nat>,
    now: Moment,
)
    ensures
        match planned(config, task, operation, nodes, owners, now) {
            DispatchView::Claim { claim, running, .. } => {
                &&& store_updates(planned(config, task, operation, nodes, owners, now)) == seq![
                    claim,
                    running,
                ]
                &&& claim_request(
                    config.elasticsearch_path,
                    task,
                    operation,
                    nodes[choice(nodes, owners, config.kibana_capacity as int)->0].id@,
                    now,
                ) == Ok::<RequestView, DispatchError>(claim)
                &&& running.url == claim.url
                &&& running.body == run_text(now.rfc3339())
            },
            DispatchView::Fail { update, .. } => {
                &&& store_updates(planned(config, task, operation, nodes, owners, now)) == seq![
                    update,
                ]
                &&& update.body == fail_text()
            },
            _ => store_updates(planned(config, task, operation, nodes, owners, now)).len() == 0,
        },
{
}

/// Where no node has room, a task that is to be run or retried is passed over: nothing is
/// sent for it, and the counts stay as they were.
pub proof fn lemma_no_room_passes_over(
    config: ConfigView,
    task: TaskView,
    operation: TaskOperation,
    nodes: Seq<KibanaNode>,
    owners: Map<Seq<char>, nat>,
    now: Moment,
)
    requires
        operation != TaskOperation::Fail,
        no_choice(nodes, owners, config.kibana_capacity as int),
    ensures
        planned(config, task, operation, nodes, owners, now) == (DispatchView::Skip {
            task_id: task.id,
        }),
        owners_after(planned(config, task, operation, nodes, owners, now), owners) == owners,
{
    lemma_selection_is_choice(nodes, owners, config.kibana_capacity as int, None);
}

/// Makes the update that marks the task `id` as failed.
pub fn fail_task(config: &Config, id: &str) -> (update: Result<Request, DispatchError>)
    ensures
        match update {
            Ok(update) => fail_request(config@.elasticsearch_path, id@) == Ok::<
                RequestView,
                DispatchError,
            >(update@),
            Err(error) => fail_request(config@.elasticsearch_path, id@) == Err::<
                RequestView,
                DispatchError,
            >(error),
        },
{
    match get_update_url_from_id(config, id) {
        Ok(url) => Ok(Request { url, body: fail_body() }),
        Err(error) => Err(DispatchError::StoreAddress(error)),
    }
}

/// Makes the update that marks a claimed task as running since `now`. It goes to the
/// address that the claim went to.
pub fn run_update(claim: &Request, now: &Timestamp) -> (update: Request)
    ensures
        update@ == running_request(claim@, now@),
{
    Request { url: claim.url.clone(), body: run_body(now) }
}

/// The attempts that a task is claimed with.
fn new_attempts(task: &Task, operation: TaskOperation) -> (attempts: u64)
    ensures
        attempts == claimed_attempts(task@, operation),
{
    match operation {
        TaskOperation::Retry => task.attempts as u64 + 1,
        _ => task.attempts as u64,
    }
}

/// Makes the update that claims a task for `owner` at `now`.
fn claim_update(
    config: &Config,
    task: &Task,
    operation: TaskOperation,
    owner: &str,
    now: &Timestamp,
) -> (claim: Result<Request, DispatchError>)
    ensures
        match claim {
            Ok(claim) => claim_request(
                config@.elasticsearch_path,
                task@,
                operation,
                owner@,
                now@,
            ) == Ok::<RequestView, DispatchError>(claim@),
            Err(error) => claim_request(
                config@.elasticsearch_path,
                task@,
                operation,
                owner@,
                now@,
            ) == Err::<RequestView, DispatchError>(error),
        },
{
    let url = match get_update_url_from_id(config, task.id.as_str()) {
        Ok(url) => url,
        Err(error) => {
            return Err(DispatchError::StoreAddress(error));
        },
    };
    let body = claim_body(
        now.to_rfc3339(),
        now.rfc3339_after(CLAIM_BACKOFF_MILLIS),
        new_attempts(task, operation),
        owner,
    );
    Ok(Request { url, body })
}

/// Takes one task's turn in a cycle: decides what is to be done for the task, makes the
/// requests for it, and counts a claim for the node that the task goes to.
pub fn claim_task(
    config: &Config,
    task: &Task,
    operation: TaskOperation,
    kibanas: &Vec<KibanaNode>,
    owners: &mut OwnershipMap,
    now: &Timestamp,
) -> (dispatch: Dispatch)
    ensures
        dispatch@ == planned(config@, task@, operation, kibanas@, old(owners)@, now@),
        final(owners)@ == owners_after(dispatch@, old(owners)@),
        dispatch@ matches DispatchView::Claim { attempts, .. } ==> attempts == if operation
            == TaskOperation::Retry {
            task.attempts + 1
        } else {
            task.attempts as int
        },
        operation != TaskOperation::Fail && no_choice(
            kibanas@,
            old(owners)@,
            config.kibana_capacity as int,
        ) ==> dispatch@ == (DispatchView::Skip { task_id: task@.id }) && final(owners)@ == old(
            owners,
        )@,
        dispatch@ matches DispatchView::Claim { node, .. } ==> count_of(final(owners)@, node.id@)
            == count_of(old(owners)@, node.id@) + 1 && count_of(final(owners)@, node.id@)
            <= config.kibana_capacity,
{
    let task_id = task.get_id();
    match operation {
        TaskOperation::Fail => {
            return match fail_task(config, task.id.as_str()) {
                Ok(update) => Dispatch::Fail { task_id, update },
                Err(error) => Dispatch::Abandon { task_id, error },
            };
        },
        _ => {},
    }
    let node = match choose_free_kibana_node(kibanas, owners, config.kibana_capacity) {
        Some(node) => node,
        None => {
            return Dispatch::Skip { task_id };
        },
    };
    let claim = match claim_update(config, task, operation, node.id.as_str(), now) {
        Ok(claim) => claim,
        Err(error) => {
            return Dispatch::Abandon { task_id, error };
        },
    };
    let run = match node.assign(task) {
        Ok(run) => run,
        Err(error) => {
            return Dispatch::Abandon { task_id, error };
        },
    };
    owners.assign(node.id.as_str());
    let running = run_update(&claim, now);
    Dispatch::Claim {
        task_id,
        node,
        attempts: new_attempts(task, operation),
        claim,
        run,
        running,
    }
}

/// What the dispatches of a cycle stand for.
pub open spec fn dispatch_views(plan: Seq<Dispatch>) -> Seq<DispatchView> {
    Seq::new(plan.len(), |at: int| plan[at]@)
}

/// Takes the turn of every ready task of a cycle, in the order in which the search found
/// them, and answers with what is to be done for each.
pub fn claim_tasks(
    config: &Config,
    tasks: &Vec<(Task, TaskOperation)>,
    kibanas: &Vec<KibanaNode>,
    owners: &mut OwnershipMap,
    now: &Timestamp,
) -> (plan: Vec<Dispatch>)
    ensures
        plan@.len() == tasks@.len(),
        forall|at: int|
            0 <= at < tasks@.len() ==> (#[trigger] plan@[at])@ == planned(
                config@,
                tasks@[at].0@,
                tasks@[at].1,
                kibanas@,
                owners_before(
                    config@,
                    task_views(tasks@),
                    kibanas@,
                    old(owners)@,
                    now@,
                    at as nat,
                ),
                now@,
            ),
        final(owners)@ == owners_before(
            config@,
            task_views(tasks@),
            kibanas@,
            old(owners)@,
            now@,
            tasks@.len(),
        ),
{
    let mut plan: Vec<Dispatch> = Vec::new();
    let mut at: usize = 0;
    while at < tasks.len()
        invariant
            at <= tasks.len(),
            plan@.len() == at,
            forall|turn: int|
                0 <= turn < at ==> (#[trigger] plan@[turn])@ == planned(
                    config@,
                    tasks@[turn].0@,
                    tasks@[turn].1,
                    kibanas@,
                    owners_before(
                        config@,
                        task_views(tasks@),
                        kibanas@,
                        old(owners)@,
                        now@,
                        turn as nat,
                    ),
                    now@,
                ),
            owners@ == owners_before(
                config@,
                task_views(tasks@),
                kibanas@,
                old(owners)@,
                now@,
                at as nat,
            ),
        decreases tasks.len() - at,
    {
        let dispatch = claim_task(config, &tasks[at].0, tasks[at].1, kibanas, owners, now);
        plan.push(dispatch);
        at += 1;
    }
    plan
}

/// The hits of a search.
pub open spec fn hits(data: JsonValue) -> JsonValue {
    json_member(json_member(data, "hits"@), "hits"@)
}

/// The task that the hit at `index` of a search describes.
pub open spec fn hit_task(data: JsonValue, index: usize) -> Result<TaskView, ParseError> {
    task_of_texts(document_texts(json_element(hits(data), index)))
}

/// The ready tasks among the first `count` hits of a search, in the order of the hits, each
/// with what it is ready for at `now`. A hit that describes no task is left out.
pub open spec fn ready_tasks(data: JsonValue, now: Moment, count: nat) -> Seq<
    (TaskView, TaskOperation),
>
    decreases count,
{
    if count == 0 {
        Seq::empty()
    } else {
        let before = ready_tasks(data, now, (count - 1) as nat);
        match hit_task(data, (count - 1) as usize) {
            Ok(task) => match task.readiness(now) {
                Some(operation) => before.push((task, operation)),
                None => before,
            },
            Err(_) => before,
        }
    }
}

/// The number of tasks that each owner holds among the first `count` hits of a search. A
/// hit that describes no task is left out.
pub open spec fn scanned_owners(data: JsonValue, count: nat) -> Map<Seq<char>, nat>
    decreases count,
{
    if count == 0 {
        Map::empty()
    } else {
        let before = scanned_owners(data, (count - 1) as nat);
        match hit_task(data, (count - 1) as usize) {
            Ok(task) => match task.owner() {
                Some(owner) => assigned(before, owner),
                None => before,
            },
            Err(_) => before,
        }
    }
}

/// What a search found: the tasks that are ready, and how many tasks each owner holds.
pub struct Scan {
    pub tasks: Vec<(Task, TaskOperation)>,
    pub owners: OwnershipMap,
}

/// Sorts the hits of a search: reads each as a task, counts it for its owner, and keeps it
/// if it is ready for something at `now`.
pub fn classify(data: &JsonValue, now: &Timestamp) -> (scan: Scan)
    ensures
        task_views(scan.tasks@) == ready_tasks(*data, now@, json_length(hits(*data)) as nat),
        scan.owners@ == scanned_owners(*data, json_length(hits(*data)) as nat),
        forall|at: int|
            0 <= at < scan.tasks@.len() ==> Some((#[trigger] scan.tasks@[at]).1)
                == scan.tasks@[at].0@.readiness(now@),
{
    let found = member(member(data, "hits"), "hits");
    let count: usize = length(found);
    let mut tasks: Vec<(Task, TaskOperation)> = Vec::new();
    let mut owners = OwnershipMap::new();
    let mut at: usize = 0;
    assert(task_views(tasks@) =~= ready_tasks(*data, now@, 0));
    while at < count
        invariant
            at <= count,
            *found == hits(*data),
            task_views(tasks@) == ready_tasks(*data, now@, at as nat),
            owners@ == scanned_owners(*data, at as nat),
            forall|owner: Seq<char>| count_of(owners@, owner) <= at,
            forall|seen: int|
                0 <= seen < tasks@.len() ==> Some((#[trigger] tasks@[seen]).1)
                    == tasks@[seen].0@.readiness(now@),
        decreases count - at,
    {
        let hit = element(found, at);
        let ghost before = tasks@;
        let ghost counted = owners@;
        match Task::parse(hit) {
            Ok(task) => {
                match task.get_owner() {
                    Some(owner) => {
                        assert(count_of(counted, owner@) <= at);
                        owners.assign(owner.as_str());
                    },
                    None => {},
                }
                assert forall|other: Seq<char>| count_of(owners@, other) <= at + 1 by {
                    assert(count_of(counted, other) <= at);
                }
                match task.ready_to(now) {
                    Some(operation) => {
                        tasks.push((task, operation));
                        assert(task_views(tasks@) =~= task_views(before).push((task@, operation)));
                    },
                    None => {},
                }
            },
            Err(_) => {},
        }
        at += 1;
    }
    Scan { tasks, owners }
}

/// Reads the answer of a search and sorts its hits. An answer that cannot be read as JSON
/// gives none.
pub fn poll_tasks(response: &str, now: &Timestamp) -> (scan: Option<Scan>)
    ensures
        match scan {
            Some(scan) => json_read(response@) matches Some(data) && task_views(scan.tasks@)
                == ready_tasks(data, now@, json_length(hits(data)) as nat) && scan.owners@
                == scanned_owners(data, json_length(hits(data)) as nat),
            None => json_read(response@) is None,
        },
        scan matches Some(scan) ==> forall|at: int|
            0 <= at < scan.tasks@.len() ==> Some((#[trigger] scan.tasks@[at]).1)
                == scan.tasks@[at].0@.readiness(now@),
{
    match read_json(response) {
        Some(data) => Some(classify(&data, now)),
        None => None,
    }
}

} // verus!
