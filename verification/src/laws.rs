//! What holds of the operations on a collection, whatever the collection.

use crate::ident::usable;
use crate::ops::{with_completed, with_description, with_new, without};
use crate::state::{handled, Machine, OutcomeView, StateView};
use crate::task::{has_id, id_set, lemma_position, position, unique_ids, TaskView};
use vstd::prelude::*;

verus! {

/// Setting a completion flag changes nothing else: the collection keeps its
/// length, and every task its identifier and its description.
pub proof fn law_flag_keeps_the_rest(tasks: Seq<TaskView>, id: Seq<char>, flag: bool)
    ensures
        with_completed(tasks, id, flag).len() == tasks.len(),
        forall|i: int|
            0 <= i < tasks.len() ==> {
                &&& (#[trigger] with_completed(tasks, id, flag)[i]).id == tasks[i].id
                &&& with_completed(tasks, id, flag)[i].description == tasks[i].description
                &&& i != position(tasks, id) ==> with_completed(tasks, id, flag)[i] == tasks[i]
            },
        has_id(tasks, id) ==> with_completed(tasks, id, flag)[position(tasks, id)].completed
            == flag,
        position(with_completed(tasks, id, flag), id) == position(tasks, id),
        unique_ids(tasks) ==> unique_ids(with_completed(tasks, id, flag)),
        id_set(with_completed(tasks, id, flag)) == id_set(tasks),
{
    lemma_position(tasks, id);
    let after = with_completed(tasks, id, flag);
    lemma_same_ids(tasks, after);
    lemma_position_of_same_ids(tasks, after, id);
}

/// Replacing a description changes nothing else: the collection keeps its
/// length, and every task its identifier and its completion flag.
pub proof fn law_edit_keeps_the_rest(tasks: Seq<TaskView>, id: Seq<char>, text: Seq<char>)
    ensures
        with_description(tasks, id, text).len() == tasks.len(),
        forall|i: int|
            0 <= i < tasks.len() ==> {
                &&& (#[trigger] with_description(tasks, id, text)[i]).id == tasks[i].id
                &&& with_description(tasks, id, text)[i].completed == tasks[i].completed
                &&& i != position(tasks, id) ==> with_description(tasks, id, text)[i] == tasks[i]
            },
        has_id(tasks, id) ==> with_description(tasks, id, text)[position(tasks, id)].description
            == text,
        position(with_description(tasks, id, text), id) == position(tasks, id),
        unique_ids(tasks) ==> unique_ids(with_description(tasks, id, text)),
        id_set(with_description(tasks, id, text)) == id_set(tasks),
{
    lemma_position(tasks, id);
    let after = with_description(tasks, id, text);
    lemma_same_ids(tasks, after);
    lemma_position_of_same_ids(tasks, after, id);
}

/// Marking a task that is not done as done, and then as not done again,
/// gives back the collection as it was.
pub proof fn law_complete_then_uncomplete(tasks: Seq<TaskView>, id: Seq<char>)
    requires
        has_id(tasks, id),
        !tasks[position(tasks, id)].completed,
    ensures
        with_completed(with_completed(tasks, id, true), id, false) == tasks,
{
    law_flag_keeps_the_rest(tasks, id, true);
    lemma_position(tasks, id);
    assert(with_completed(with_completed(tasks, id, true), id, false) =~= tasks);
}

/// Whatever the flag of a task was, marking it as done and then as not done
/// leaves it not done, and the other tasks as they were.
pub proof fn law_uncomplete_undoes_complete(tasks: Seq<TaskView>, id: Seq<char>)
    ensures
        with_completed(with_completed(tasks, id, true), id, false) == with_completed(
            tasks,
            id,
            false,
        ),
{
    law_flag_keeps_the_rest(tasks, id, true);
    lemma_position(tasks, id);
    assert(with_completed(with_completed(tasks, id, true), id, false) =~= with_completed(
        tasks,
        id,
        false,
    ));
}

/// An operation on an identifier that no task carries leaves the collection
/// as it is.
pub proof fn law_absent_id_changes_nothing(
    tasks: Seq<TaskView>,
    id: Seq<char>,
    flag: bool,
    text: Seq<char>,
)
    requires
        !has_id(tasks, id),
    ensures
        with_completed(tasks, id, flag) == tasks,
        with_description(tasks, id, text) == tasks,
        without(tasks, id) == tasks,
{
    lemma_position(tasks, id);
}

/// Deleting by an identifier that no two tasks share removes the one task
/// that carries it and no other: the identifiers that stay are the former
/// ones but `id`, and the tasks that stay are the former ones in their order.
pub proof fn law_delete_removes_exactly(tasks: Seq<TaskView>, id: Seq<char>)
    requires
        unique_ids(tasks),
    ensures
        id_set(without(tasks, id)) == id_set(tasks).remove(id),
        !has_id(without(tasks, id), id),
        unique_ids(without(tasks, id)),
        has_id(tasks, id) ==> without(tasks, id) == tasks.remove(position(tasks, id)),
        has_id(tasks, id) ==> without(tasks, id).len() == tasks.len() - 1,
        forall|i: int|
            0 <= i < tasks.len() && i != position(tasks, id) ==> without(tasks, id).contains(
                #[trigger] tasks[i],
            ),
{
    lemma_position(tasks, id);
    let at = position(tasks, id);
    let after = without(tasks, id);
    if at < tasks.len() {
        assert forall|k: int| 0 <= k < after.len() implies (#[trigger] after[k]) == tasks[if k
            < at {
            k
        } else {
            k + 1
        }] by {}
        assert forall|i: int| 0 <= i < tasks.len() && i != at implies after.contains(
            #[trigger] tasks[i],
        ) by {
            if i < at {
                assert(after[i] == tasks[i]);
            } else {
                assert(after[i - 1] == tasks[i]);
            }
        }
        assert forall|other: Seq<char>| #[trigger]
            id_set(after).contains(other) == id_set(tasks).remove(id).contains(other) by {
            if has_id(after, other) {
                let k = choose|k: int| 0 <= k < after.len() && (#[trigger] after[k]).id == other;
                let source = if k < at {
                    k
                } else {
                    k + 1
                };
                assert(tasks[source].id == other);
                assert(other != id) by {
                    if source < at {
                        assert(tasks[source].id != tasks[at].id);
                    } else {
                        assert(tasks[at].id != tasks[source].id);
                    }
                }
            }
            if has_id(tasks, other) && other != id {
                let i = choose|i: int| 0 <= i < tasks.len() && (#[trigger] tasks[i]).id == other;
                assert(after.contains(tasks[i]));
                let k = choose|k: int| 0 <= k < after.len() && after[k] == tasks[i];
                assert(after[k].id == other);
            }
        }
        assert(id_set(after) =~= id_set(tasks).remove(id));
        assert(!has_id(after, id)) by {
            assert(!id_set(tasks).remove(id).contains(id));
            assert(!id_set(after).contains(id));
        }
        assert forall|i: int, j: int| 0 <= i < j < after.len() implies (#[trigger] after[i]).id != (
        #[trigger] after[j]).id by {
            let si = if i < at {
                i
            } else {
                i + 1
            };
            let sj = if j < at {
                j
            } else {
                j + 1
            };
            assert(tasks[si].id != tasks[sj].id);
        }
    } else {
        assert(id_set(after) =~= id_set(tasks).remove(id));
    }
}

/// A new task under a usable identifier makes the collection longer by one,
/// stands at its end, is not done, and shares its identifier with no other.
pub proof fn law_add_appends_one(tasks: Seq<TaskView>, id: Seq<char>, text: Seq<char>)
    requires
        usable(tasks, id),
    ensures
        with_new(tasks, id, text).len() == tasks.len() + 1,
        with_new(tasks, id, text).drop_last() == tasks,
        with_new(tasks, id, text).last() == (TaskView { id, description: text, completed: false }),
        position(with_new(tasks, id, text), id) == tasks.len(),
        unique_ids(tasks) ==> unique_ids(with_new(tasks, id, text)),
        id_set(with_new(tasks, id, text)) == id_set(tasks).insert(id),
{
    let after = with_new(tasks, id, text);
    assert(after.drop_last() =~= tasks);
    crate::task::lemma_position_is(after, id, tasks.len() as int);
    assert forall|other: Seq<char>| #[trigger]
        id_set(after).contains(other) == id_set(tasks).insert(id).contains(other) by {
        if has_id(after, other) && other != id {
            let k = choose|k: int| 0 <= k < after.len() && (#[trigger] after[k]).id == other;
            assert(tasks[k].id == other);
        }
        if has_id(tasks, other) {
            let k = choose|k: int| 0 <= k < tasks.len() && (#[trigger] tasks[k]).id == other;
            assert(after[k].id == other);
        }
        if other == id {
            assert(after[tasks.len() as int].id == id);
        }
    }
    assert(id_set(after) =~= id_set(tasks).insert(id));
    if unique_ids(tasks) {
        assert forall|i: int, j: int| 0 <= i < j < after.len() implies (#[trigger] after[i]).id != (
        #[trigger] after[j]).id by {
            assert(after[i] == tasks[i]);
            if j < tasks.len() {
                assert(after[j] == tasks[j]);
            }
        }
    }
}

/// No step of the machine hands out a result for a collection that still has
/// to be stored: a step that changed the collection leaves the machine in
/// `Saving` and hands out nothing, and a step that hands out a result left
/// the collection as it was. The states that only read always hand out a
/// result, and no step makes two tasks share an identifier.
pub proof fn law_changes_wait_for_the_store(
    state: StateView,
    before: Machine,
    after: Machine,
    outcome: OutcomeView,
)
    requires
        handled(state, before, after, outcome),
    ensures
        outcome is Some ==> after.tasks == before.tasks,
        after.tasks != before.tasks ==> after.state is Saving && outcome is None,
        outcome is None ==> after.state is Saving,
        outcome is Some && state !is Idle && state !is Completed ==> after.state is Completed,
        state is List || state is Version || state is Idle || state is Completed ==> outcome
            is Some,
        state is Saving ==> after.tasks == before.tasks,
        unique_ids(before.tasks) ==> unique_ids(after.tasks),
{
    let tasks = before.tasks;
    match state {
        StateView::Add(description) => {
            law_add_appends_one(tasks, after.tasks.last().id, description);
        },
        StateView::Complete(id) => {
            law_flag_keeps_the_rest(tasks, id, true);
        },
        StateView::Uncomplete(id) => {
            law_flag_keeps_the_rest(tasks, id, false);
        },
        StateView::Delete(id) => {
            if unique_ids(tasks) {
                law_delete_removes_exactly(tasks, id);
            }
        },
        StateView::Edit(id, description) => {
            law_edit_keeps_the_rest(tasks, id, description);
        },
        _ => {},
    }
}

/// Two collections that carry the same identifiers at the same places have
/// the same set of identifiers, and are both free of repetitions or neither.
proof fn lemma_same_ids(before: Seq<TaskView>, after: Seq<TaskView>)
    requires
        before.len() == after.len(),
        forall|i: int| 0 <= i < before.len() ==> (#[trigger] after[i]).id == before[i].id,
    ensures
        id_set(after) == id_set(before),
        unique_ids(before) ==> unique_ids(after),
{
    assert forall|other: Seq<char>| #[trigger]
        id_set(after).contains(other) == id_set(before).contains(other) by {
        if has_id(after, other) {
            let k = choose|k: int| 0 <= k < after.len() && (#[trigger] after[k]).id == other;
            assert(before[k].id == other);
        }
        if has_id(before, other) {
            let k = choose|k: int| 0 <= k < before.len() && (#[trigger] before[k]).id == other;
            assert(after[k].id == other);
        }
    }
    assert(id_set(after) =~= id_set(before));
    if unique_ids(before) {
        assert forall|i: int, j: int| 0 <= i < j < after.len() implies (#[trigger] after[i]).id != (
        #[trigger] after[j]).id by {
            assert(before[i].id != before[j].id);
        }
    }
}

/// In two collections that carry the same identifiers at the same places an
/// identifier is first found at the same place.
proof fn lemma_position_of_same_ids(before: Seq<TaskView>, after: Seq<TaskView>, id: Seq<char>)
    requires
        before.len() == after.len(),
        forall|i: int| 0 <= i < before.len() ==> (#[trigger] after[i]).id == before[i].id,
    ensures
        position(after, id) == position(before, id),
{
    lemma_position(before, id);
    let at = position(before, id);
    assert forall|j: int| 0 <= j < at implies (#[trigger] after[j]).id != id by {
        assert(before[j].id != id);
    }
    crate::task::lemma_position_is(after, id, at);
}

} // verus!
