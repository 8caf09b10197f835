//! Execution nodes and the choice among them by remaining capacity.

use crate::address::{get_run_now_url, run_now_url};
use crate::ownership::{assigned, count_of, OwnershipMap};
use crate::request::{DispatchError, Request, RequestView};
use crate::task::{task_text, Task, TaskView};
use vstd::prelude::*;

verus! {

/// One execution node: where it is reached and the identity under which tasks are
/// attributed to it.
#[derive(Debug)]
pub struct KibanaNode {
    pub id: String,
    pub path: String,
}

impl Clone for KibanaNode {
    fn clone(&self) -> (copy: KibanaNode)
        ensures
            copy == *self,
    {
        KibanaNode { id: self.id.clone(), path: self.path.clone() }
    }
}

/// Draws a random identity: `uuid::Uuid::new_v4`, written out by `to_string`. Nothing is
/// claimed of the text.
#[verifier::external_body]
fn fresh_identity() -> String {
    uuid::Uuid::new_v4().to_string()
}

/// The request that asks the execution node at `path` to run a task: the task written out,
/// posted to the node's operation to run a task.
pub open spec fn run_request(path: Seq<char>, task: TaskView) -> Result<RequestView, DispatchError> {
    match run_now_url(path) {
        Ok(url) => Ok(RequestView { url, body: task_text(task) }),
        Err(error) => Err(DispatchError::NodeAddress(error)),
    }
}

impl KibanaNode {
    /// A node at `path`, under an identity drawn for it.
    pub fn new(path: &str) -> (node: KibanaNode)
        ensures
            node.path@ == path@,
    {
        KibanaNode::with_identity(path, fresh_identity())
    }

    /// A node at `path`, under the identity `id`.
    pub fn with_identity(path: &str, id: String) -> (node: KibanaNode)
        ensures
            node.path@ == path@,
            node.id == id,
    {
        KibanaNode { path: path.to_owned(), id }
    }

    /// The request that asks this node to run a task.
    pub fn assign(&self, task: &Task) -> (request: Result<Request, DispatchError>)
        ensures
            match request {
                Ok(request) => run_request(self.path@, task@) == Ok::<
                    RequestView,
                    DispatchError,
                >(request@),
                Err(error) => run_request(self.path@, task@) == Err::<
                    RequestView,
                    DispatchError,
                >(error),
            },
    {
        run_kibana_task(self.path.as_str(), task)
    }
}

/// The request that asks the execution node at `node_path` to run a task.
fn run_kibana_task(node_path: &str, task: &Task) -> (request: Result<Request, DispatchError>)
    ensures
        match request {
            Ok(request) => run_request(node_path@, task@) == Ok::<RequestView, DispatchError>(
                request@,
            ),
            Err(error) => run_request(node_path@, task@) == Err::<RequestView, DispatchError>(
                error,
            ),
        },
{
    let url = match get_run_now_url(node_path) {
        Ok(url) => url,
        Err(error) => {
            return Err(DispatchError::NodeAddress(error));
        },
    };
    Ok(Request { url, body: task.stringify() })
}

/// The number of tasks that `node` can still take when every node may hold `capacity` tasks.
pub open spec fn remaining(owners: Map<Seq<char>, nat>, capacity: int, node: KibanaNode) -> int {
    capacity - count_of(owners, node.id@)
}

/// Whether the node at `index` is the one to choose: it has room, more room than every node
/// before it, and no node after it has more.
pub open spec fn is_choice(
    nodes: Seq<KibanaNode>,
    owners: Map<Seq<char>, nat>,
    capacity: int,
    index: int,
) -> bool {
    &&& 0 <= index < nodes.len()
    &&& remaining(owners, capacity, nodes[index]) > 0
    &&& forall|earlier: int|
        0 <= earlier < index ==> remaining(owners, capacity, #[trigger] nodes[earlier])
            < remaining(owners, capacity, nodes[index])
    &&& forall|later: int|
        index < later < nodes.len() ==> remaining(owners, capacity, #[trigger] nodes[later])
            <= remaining(owners, capacity, nodes[index])
}

/// Whether no node has room.
pub open spec fn no_choice(nodes: Seq<KibanaNode>, owners: Map<Seq<char>, nat>, capacity: int) -> bool {
    forall|index: int|
        0 <= index < nodes.len() ==> remaining(owners, capacity, #[trigger] nodes[index]) <= 0
}

/// Whether `outcome` is what a selection among `nodes` answers: the position of the node to
/// choose, or nothing where no node has room.
pub open spec fn selects(
    nodes: Seq<KibanaNode>,
    owners: Map<Seq<char>, nat>,
    capacity: int,
    outcome: Option<int>,
) -> bool {
    match outcome {
        Some(index) => is_choice(nodes, owners, capacity, index),
        None => no_choice(nodes, owners, capacity),
    }
}

/// The position that a selection among `nodes` answers.
pub open spec fn choice(nodes: Seq<KibanaNode>, owners: Map<Seq<char>, nat>, capacity: int) -> Option<int> {
    if exists|index: int| is_choice(nodes, owners, capacity, index) {
        Some(choose|index: int| is_choice(nodes, owners, capacity, index))
    } else {
        None
    }
}

/// At most one position is the one to choose.
pub proof fn lemma_choice_unique(
    nodes: Seq<KibanaNode>,
    owners: Map<Seq<char>, nat>,
    capacity: int,
    i: int,
    j: int,
)
    requires
        is_choice(nodes, owners, capacity, i),
        is_choice(nodes, owners, capacity, j),
    ensures
        i == j,
{
    if i < j {
        assert(remaining(owners, capacity, nodes[i]) < remaining(owners, capacity, nodes[j]));
        assert(remaining(owners, capacity, nodes[j]) <= remaining(owners, capacity, nodes[i]));
    } else if j < i {
        assert(remaining(owners, capacity, nodes[j]) < remaining(owners, capacity, nodes[i]));
        assert(remaining(owners, capacity, nodes[i]) <= remaining(owners, capacity, nodes[j]));
    }
}

/// Selection is idempotent: whatever two selections among the same nodes, with the same
/// counts and the same capacity, answer, they answer the same, and that is the position
/// that `choice` names.
pub proof fn lemma_selection_idempotent(
    nodes: Seq<KibanaNode>,
    owners: Map<Seq<char>, nat>,
    capacity: int,
    first: Option<int>,
    second: Option<int>,
)
    requires
        selects(nodes, owners, capacity, first),
        selects(nodes, owners, capacity, second),
    ensures
        first == second,
        first == choice(nodes, owners, capacity),
{
    lemma_selection_is_choice(nodes, owners, capacity, first);
    lemma_selection_is_choice(nodes, owners, capacity, second);
}

/// What a selection answers is the position that `choice` names.
pub proof fn lemma_selection_is_choice(
    nodes: Seq<KibanaNode>,
    owners: Map<Seq<char>, nat>,
    capacity: int,
    outcome: Option<int>,
)
    requires
        selects(nodes, owners, capacity, outcome),
    ensures
        outcome == choice(nodes, owners, capacity),
{
    match (outcome, choice(nodes, owners, capacity)) {
        (Some(index), Some(named)) => {
            lemma_choice_unique(nodes, owners, capacity, index, named);
        },
        (None, Some(named)) => {
            assert(remaining(owners, capacity, nodes[named]) <= 0);
        },
        _ => {},
    }
}

/// Assigning a task to the node at `taken` lowers what remains of that node, and of the nodes
/// that share its identity, by one and leaves the other nodes as they were. A selection made
/// after that passes the node over as soon as another node has more room left.
pub proof fn lemma_assignment_is_monotonic(
    nodes: Seq<KibanaNode>,
    owners: Map<Seq<char>, nat>,
    capacity: int,
    taken: int,
    next: Option<int>,
)
    requires
        0 <= taken < nodes.len(),
        selects(nodes, assigned(owners, nodes[taken].id@), capacity, next),
    ensures
        remaining(assigned(owners, nodes[taken].id@), capacity, nodes[taken]) == remaining(
            owners,
            capacity,
            nodes[taken],
        ) - 1,
        forall|other: int|
            0 <= other < nodes.len() ==> remaining(
                assigned(owners, nodes[taken].id@),
                capacity,
                #[trigger] nodes[other],
            ) == remaining(owners, capacity, nodes[other]) - if nodes[other].id@
                == nodes[taken].id@ {
                1int
            } else {
                0int
            },
        forall|other: int|
            0 <= other < nodes.len() && remaining(
                assigned(owners, nodes[taken].id@),
                capacity,
                #[trigger] nodes[other],
            ) > remaining(assigned(owners, nodes[taken].id@), capacity, nodes[taken]) ==> next
                != Some(taken),
{
    let after = assigned(owners, nodes[taken].id@);
    assert forall|other: int|
        0 <= other < nodes.len() && remaining(after, capacity, #[trigger] nodes[other])
            > remaining(after, capacity, nodes[taken]) implies next != Some(taken) by {
        if next == Some(taken) {
            if other < taken {
                assert(remaining(after, capacity, nodes[other]) < remaining(
                    after,
                    capacity,
                    nodes[taken],
                ));
            } else if other > taken {
                assert(remaining(after, capacity, nodes[other]) <= remaining(
                    after,
                    capacity,
                    nodes[taken],
                ));
            }
        }
    }
}

/// The position of the node to choose, if any node has room.
fn free_node_index(kibanas: &Vec<KibanaNode>, owners: &OwnershipMap, capacity: isize) -> (found:
    Option<usize>)
    ensures
        match found {
            Some(index) => is_choice(kibanas@, owners@, capacity as int, index as int),
            None => no_choice(kibanas@, owners@, capacity as int),
        },
{
    let mut best: Option<usize> = None;
    let mut most: i128 = 0;
    let mut at: usize = 0;
    while at < kibanas.len()
        invariant
            at <= kibanas.len(),
            match best {
                Some(index) => {
                    &&& index < at
                    &&& most == remaining(owners@, capacity as int, kibanas@[index as int])
                    &&& most > 0
                    &&& forall|earlier: int|
                        0 <= earlier < index ==> remaining(
                            owners@,
                            capacity as int,
                            #[trigger] kibanas@[earlier],
                        ) < most
                    &&& forall|later: int|
                        index < later < at ==> remaining(
                            owners@,
                            capacity as int,
                            #[trigger] kibanas@[later],
                        ) <= most
                },
                None => {
                    &&& most == 0
                    &&& forall|seen: int|
                        0 <= seen < at ==> remaining(
                            owners@,
                            capacity as int,
                            #[trigger] kibanas@[seen],
                        ) <= 0
                },
            },
        decreases kibanas.len() - at,
    {
        let owned: usize = owners.count(kibanas[at].id.as_str());
        let room: i128 = capacity as i128 - owned as i128;
        if room > most {
            most = room;
            best = Some(at);
        }
        at += 1;
    }
    best
}

/// Chooses the node with the most room for another task, where every node may hold
/// `capacity` tasks and `owners` counts what each holds already. Of several nodes with the
/// same room the first one is chosen; where no node has room, none is.
pub fn choose_free_kibana_node(
    kibanas: &Vec<KibanaNode>,
    owners: &OwnershipMap,
    capacity: isize,
) -> (chosen: Option<KibanaNode>)
    ensures
        match chosen {
            Some(node) => exists|index: int|
                is_choice(kibanas@, owners@, capacity as int, index) && node == kibanas@[index],
            None => no_choice(kibanas@, owners@, capacity as int),
        },
        chosen matches Some(node) ==> choice(kibanas@, owners@, capacity as int) is Some && node
            == kibanas@[choice(kibanas@, owners@, capacity as int)->0],
        chosen is None <==> choice(kibanas@, owners@, capacity as int) is None,
        no_choice(kibanas@, owners@, capacity as int) ==> chosen is None,
{
    match free_node_index(kibanas, owners, capacity) {
        Some(index) => {
            proof {
                lemma_selection_is_choice(kibanas@, owners@, capacity as int, Some(index as int));
            }
            Some(kibanas[index].clone())
        },
        None => {
            proof {
                lemma_selection_is_choice(kibanas@, owners@, capacity as int, None);
            }
            None
        },
    }
}

} // verus!
