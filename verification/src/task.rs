//! The task record and its mathematical model.

use vstd::prelude::*;

verus! {

/// One to-do record.
#[derive(Debug)]
pub struct Task {
    /// Stable identifier, given at creation and never changed afterwards.
    pub id: String,
    /// Free text.
    pub description: String,
    /// Whether the task is done.
    pub completed: bool,
}

/// What a task is, with its texts as sequences of characters.
pub ghost struct TaskView {
    pub id: Seq<char>,
    pub description: Seq<char>,
    pub completed: bool,
}

impl View for Task {
    type V = TaskView;

    open spec fn view(&self) -> TaskView {
        TaskView { id: self.id@, description: self.description@, completed: self.completed }
    }
}

impl DeepView for Task {
    type V = TaskView;

    open spec fn deep_view(&self) -> TaskView {
        self@
    }
}

impl Clone for Task {
    fn clone(&self) -> (copy: Self)
        ensures
            copy == *self,
    {
        Task {
            id: self.id.clone(),
            description: self.description.clone(),
            completed: self.completed,
        }
    }
}

/// Whether some task of the collection carries `id`.
pub open spec fn has_id(tasks: Seq<TaskView>, id: Seq<char>) -> bool {
    exists|i: int| 0 <= i < tasks.len() && (#[trigger] tasks[i]).id == id
}

/// Whether no two tasks of the collection carry the same identifier.
pub open spec fn unique_ids(tasks: Seq<TaskView>) -> bool {
    forall|i: int, j: int|
        0 <= i < j < tasks.len() ==> (#[trigger] tasks[i]).id != (#[trigger] tasks[j]).id
}

/// The identifiers that occur in the collection.
pub open spec fn id_set(tasks: Seq<TaskView>) -> Set<Seq<char>> {
    Set::new(|id: Seq<char>| has_id(tasks, id))
}

/// The place of the first task that carries `id`, counted from 0; the length
/// of the collection where no task carries it.
pub open spec fn position(tasks: Seq<TaskView>, id: Seq<char>) -> int
    decreases tasks.len(),
{
    if tasks.len() == 0 {
        0
    } else if tasks[0].id == id {
        0
    } else {
        1 + position(tasks.drop_first(), id)
    }
}

/// `position` is the least place at which `id` stands, and the length exactly
/// when it stands nowhere.
pub proof fn lemma_position(tasks: Seq<TaskView>, id: Seq<char>)
    ensures
        0 <= position(tasks, id) <= tasks.len(),
        position(tasks, id) < tasks.len() <==> has_id(tasks, id),
        position(tasks, id) < tasks.len() ==> tasks[position(tasks, id)].id == id,
        forall|j: int| 0 <= j < position(tasks, id) ==> (#[trigger] tasks[j]).id != id,
    decreases tasks.len(),
{
    if tasks.len() == 0 {
    } else if tasks[0].id == id {
    } else {
        let rest = tasks.drop_first();
        lemma_position(rest, id);
        let p = position(rest, id);
        assert forall|j: int| 0 <= j < p + 1 implies (#[trigger] tasks[j]).id != id by {
            if j > 0 {
                assert(rest[j - 1] == tasks[j]);
            }
        }
        if p < rest.len() {
            assert(tasks[p + 1] == rest[p]);
        }
        if has_id(tasks, id) {
            let k = choose|k: int| 0 <= k < tasks.len() && (#[trigger] tasks[k]).id == id;
            assert(rest[k - 1] == tasks[k]);
        }
    }
}

/// A place that carries `id` and has no such place before it is `position`.
pub proof fn lemma_position_is(tasks: Seq<TaskView>, id: Seq<char>, at: int)
    requires
        0 <= at <= tasks.len(),
        at < tasks.len() ==> tasks[at].id == id,
        forall|j: int| 0 <= j < at ==> (#[trigger] tasks[j]).id != id,
    ensures
        position(tasks, id) == at,
{
    lemma_position(tasks, id);
    let p = position(tasks, id);
    if p < at {
        assert(tasks[p].id == id);
    } else if at < p {
        assert(tasks[at].id != id);
    }
}

} // verus!
