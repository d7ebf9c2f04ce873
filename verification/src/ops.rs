//! The operations on a collection of tasks.

use crate::error::TodoError;
use crate::ident::{fresh, fresh_id, generate_id, random_token, usable};
use crate::laws::{
    law_add_appends_one, law_delete_removes_exactly, law_edit_keeps_the_rest,
    law_flag_keeps_the_rest,
};
use crate::task::{
    has_id, lemma_position, lemma_position_is, position, unique_ids, Task, TaskView,
};
use vstd::prelude::*;

verus! {

/// The collection with the completion flag of the first task that carries
/// `id` set to `flag`; the collection itself where no task carries `id`.
pub open spec fn with_completed(tasks: Seq<TaskView>, id: Seq<char>, flag: bool) -> Seq<TaskView> {
    let at = position(tasks, id);
    if at < tasks.len() {
        tasks.update(at, TaskView { completed: flag, ..tasks[at] })
    } else {
        tasks
    }
}

/// The collection with the description of the first task that carries `id`
/// replaced by `text`; the collection itself where no task carries `id`.
pub open spec fn with_description(tasks: Seq<TaskView>, id: Seq<char>, text: Seq<char>) -> Seq<
    TaskView,
> {
    let at = position(tasks, id);
    if at < tasks.len() {
        tasks.update(at, TaskView { description: text, ..tasks[at] })
    } else {
        tasks
    }
}

/// The collection without the first task that carries `id`, the others in
/// their order; the collection itself where no task carries `id`.
pub open spec fn without(tasks: Seq<TaskView>, id: Seq<char>) -> Seq<TaskView> {
    let at = position(tasks, id);
    if at < tasks.len() {
        tasks.remove(at)
    } else {
        tasks
    }
}

/// The collection with one more task at its end: not done, under `id`, with
/// `text` as its description.
pub open spec fn with_new(tasks: Seq<TaskView>, id: Seq<char>, text: Seq<char>) -> Seq<TaskView> {
    tasks.push(TaskView { id, description: text, completed: false })
}

/// Looks for the first task that carries `id`, scanning from the front.
pub fn find_task(tasks: &Vec<Task>, id: &String) -> (found: Option<usize>)
    ensures
        match found {
            Some(at) => at < tasks.len() && at == position(tasks.deep_view(), id@),
            None => !has_id(tasks.deep_view(), id@),
        },
{
    let mut at: usize = 0;
    while at < tasks.len()
        invariant
            at <= tasks.len(),
            forall|j: int| 0 <= j < at ==> (#[trigger] tasks.deep_view()[j]).id != id@,
        decreases tasks.len() - at,
    {
        if tasks[at].id == *id {
            proof {
                lemma_position_is(tasks.deep_view(), id@, at as int);
            }
            return Some(at);
        }
        at += 1;
    }
    None
}

/// Appends a task that is not done, under the identifier that `fresh` makes
/// from `seed`.
pub fn add_task_seeded(tasks: &mut Vec<Task>, seed: String, description: String)
    ensures
        final(tasks).deep_view() == with_new(
            old(tasks).deep_view(),
            fresh(old(tasks).deep_view(), seed@),
            description@,
        ),
        usable(old(tasks).deep_view(), fresh(old(tasks).deep_view(), seed@)),
        usable(old(tasks).deep_view(), seed@) ==> fresh(old(tasks).deep_view(), seed@) == seed@,
        unique_ids(old(tasks).deep_view()) ==> unique_ids(final(tasks).deep_view()),
{
    let id = fresh_id(tasks, seed);
    proof {
        law_add_appends_one(old(tasks).deep_view(), id@, description@);
    }
    tasks.push(Task { id, description, completed: false });
    assert(tasks.deep_view() =~= with_new(old(tasks).deep_view(), id@, description@));
}

/// Appends a new task that is not done, under a random identifier that is
/// not empty and that no task of the collection carries yet.
pub fn add_task(tasks: &mut Vec<Task>, description: String)
    ensures
        final(tasks).deep_view().len() == old(tasks).deep_view().len() + 1,
        final(tasks).deep_view().drop_last() == old(tasks).deep_view(),
        final(tasks).deep_view().last().description == description@,
        !final(tasks).deep_view().last().completed,
        usable(old(tasks).deep_view(), final(tasks).deep_view().last().id),
        unique_ids(old(tasks).deep_view()) ==> unique_ids(final(tasks).deep_view()),
{
    let seed = random_token();
    add_task_seeded(tasks, seed, description);
    proof {
        law_add_appends_one(
            old(tasks).deep_view(),
            fresh(old(tasks).deep_view(), seed@),
            description@,
        );
    }
}

/// Appends a task as it was stored. It keeps the identifier it was stored
/// with; one that was stored without gets a random identifier that is not
/// empty and that no task of the collection carries yet.
pub fn restore_task(
    tasks: &mut Vec<Task>,
    id: Option<String>,
    description: String,
    completed: bool,
)
    ensures
        final(tasks).deep_view().len() == old(tasks).deep_view().len() + 1,
        final(tasks).deep_view().drop_last() == old(tasks).deep_view(),
        final(tasks).deep_view().last().description == description@,
        final(tasks).deep_view().last().completed == completed,
        match id {
            Some(stored) => final(tasks).deep_view().last().id == stored@,
            None => usable(old(tasks).deep_view(), final(tasks).deep_view().last().id),
        },
{
    let id = match id {
        Some(stored) => stored,
        None => generate_id(tasks),
    };
    tasks.push(Task { id, description, completed });
    assert(final(tasks).deep_view().drop_last() =~= old(tasks).deep_view());
}

/// Marks the first task that carries `id` as done.
pub fn complete_task(tasks: &mut Vec<Task>, id: String) -> (result: Result<(), TodoError>)
    ensures
        match result {
            Ok(()) => has_id(old(tasks).deep_view(), id@) && final(tasks).deep_view()
                == with_completed(old(tasks).deep_view(), id@, true),
            Err(error) => !has_id(old(tasks).deep_view(), id@) && final(tasks).deep_view() == old(
                tasks,
            ).deep_view() && (error matches TodoError::TaskNotFound(missing) && missing@ == id@),
        },
        unique_ids(old(tasks).deep_view()) ==> unique_ids(final(tasks).deep_view()),
{
    match find_task(tasks, &id) {
        Some(at) => {
            proof {
                lemma_position(tasks.deep_view(), id@);
            }
            tasks[at].completed = true;
            assert(tasks.deep_view() =~= with_completed(old(tasks).deep_view(), id@, true));
            proof {
                law_flag_keeps_the_rest(old(tasks).deep_view(), id@, true);
            }
            Ok(())
        },
        None => Err(TodoError::TaskNotFound(id)),
    }
}

/// Marks the first task that carries `id` as not done.
pub fn uncomplete_task(tasks: &mut Vec<Task>, id: String) -> (result: Result<(), TodoError>)
    ensures
        match result {
            Ok(()) => has_id(old(tasks).deep_view(), id@) && final(tasks).deep_view()
                == with_completed(old(tasks).deep_view(), id@, false),
            Err(error) => !has_id(old(tasks).deep_view(), id@) && final(tasks).deep_view() == old(
                tasks,
            ).deep_view() && (error matches TodoError::TaskNotFound(missing) && missing@ == id@),
        },
        unique_ids(old(tasks).deep_view()) ==> unique_ids(final(tasks).deep_view()),
{
    match find_task(tasks, &id) {
        Some(at) => {
            proof {
                lemma_position(tasks.deep_view(), id@);
            }
            tasks[at].completed = false;
            assert(tasks.deep_view() =~= with_completed(old(tasks).deep_view(), id@, false));
            proof {
                law_flag_keeps_the_rest(old(tasks).deep_view(), id@, false);
            }
            Ok(())
        },
        None => Err(TodoError::TaskNotFound(id)),
    }
}

/// Removes the first task that carries `id`. The tasks that stay keep their
/// order.
pub fn delete_task(tasks: &mut Vec<Task>, id: String) -> (result: Result<(), TodoError>)
    ensures
        match result {
            Ok(()) => has_id(old(tasks).deep_view(), id@) && final(tasks).deep_view() == without(
                old(tasks).deep_view(),
                id@,
            ),
            Err(error) => !has_id(old(tasks).deep_view(), id@) && final(tasks).deep_view() == old(
                tasks,
            ).deep_view() && (error matches TodoError::TaskNotFound(missing) && missing@ == id@),
        },
        unique_ids(old(tasks).deep_view()) ==> unique_ids(final(tasks).deep_view()),
{
    match find_task(tasks, &id) {
        Some(at) => {
            proof {
                lemma_position(tasks.deep_view(), id@);
            }
            tasks.remove(at);
            assert(tasks.deep_view() =~= without(old(tasks).deep_view(), id@));
            proof {
                if unique_ids(old(tasks).deep_view()) { law_delete_removes_exactly(old(tasks).deep_view(), id@); };
            }
            Ok(())
        },
        None => Err(TodoError::TaskNotFound(id)),
    }
}

/// Replaces the description of the first task that carries `id`.
pub fn edit_task(tasks: &mut Vec<Task>, id: String, description: String) -> (result: Result<
    (),
    TodoError,
>)
    ensures
        match result {
            Ok(()) => has_id(old(tasks).deep_view(), id@) && final(tasks).deep_view()
                == with_description(old(tasks).deep_view(), id@, description@),
            Err(error) => !has_id(old(tasks).deep_view(), id@) && final(tasks).deep_view() == old(
                tasks,
            ).deep_view() && (error matches TodoError::TaskNotFound(missing) && missing@ == id@),
        },
        unique_ids(old(tasks).deep_view()) ==> unique_ids(final(tasks).deep_view()),
{
    match find_task(tasks, &id) {
        Some(at) => {
            proof {
                lemma_position(tasks.deep_view(), id@);
            }
            tasks[at].description = description;
            assert(tasks.deep_view() =~= with_description(
                old(tasks).deep_view(),
                id@,
                description@,
            ));
            proof {
                law_edit_keeps_the_rest(old(tasks).deep_view(), id@, description@);
            }
            Ok(())
        },
        None => Err(TodoError::TaskNotFound(id)),
    }
}

} // verus!
