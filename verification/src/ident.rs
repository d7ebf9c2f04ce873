//! Identifiers for new tasks: a random token, lengthened until no task of the
//! collection carries it.

use crate::ops::find_task;
use crate::task::{has_id, lemma_position, Task, TaskView};
use vstd::prelude::*;
use vstd::string::StringExecFns;

verus! {

/// Whether a new task of the collection may carry `id`: it is not empty and
/// no task carries it yet.
pub open spec fn usable(tasks: Seq<TaskView>, id: Seq<char>) -> bool {
    id.len() > 0 && !has_id(tasks, id)
}

/// `seed` followed by `count` zeros.
pub open spec fn padded(seed: Seq<char>, count: nat) -> Seq<char> {
    seed + Seq::new(count, |i: int| '0')
}

/// Whether `count` is the least number of zeros that make `seed` usable.
pub open spec fn is_least_padding(tasks: Seq<TaskView>, seed: Seq<char>, count: nat) -> bool {
    &&& usable(tasks, padded(seed, count))
    &&& forall|fewer: nat| fewer < count ==> !usable(tasks, #[trigger] padded(seed, fewer))
}

/// The identifier that a new task gets from `seed`: the seed itself where it
/// is usable, else the seed followed by the fewest zeros that make it so.
pub open spec fn fresh(tasks: Seq<TaskView>, seed: Seq<char>) -> Seq<char> {
    padded(seed, choose|count: nat| is_least_padding(tasks, seed, count))
}

/// The length of the longest identifier in the collection.
pub open spec fn longest_id(tasks: Seq<TaskView>) -> nat
    decreases tasks.len(),
{
    if tasks.len() == 0 {
        0
    } else {
        let rest = longest_id(tasks.drop_last());
        if tasks.last().id.len() > rest {
            tasks.last().id.len()
        } else {
            rest
        }
    }
}

/// No identifier of the collection is longer than `longest_id`, so a longer
/// text is carried by no task.
pub proof fn lemma_longer_is_absent(tasks: Seq<TaskView>, id: Seq<char>)
    requires
        id.len() > longest_id(tasks),
    ensures
        !has_id(tasks, id),
    decreases tasks.len(),
{
    if tasks.len() > 0 {
        let front = tasks.drop_last();
        lemma_longer_is_absent(front, id);
        if has_id(tasks, id) {
            let at = choose|at: int| 0 <= at < tasks.len() && (#[trigger] tasks[at]).id == id;
            if at < tasks.len() - 1 {
                assert(front[at] == tasks[at]);
            }
        }
    }
}

/// There is only one least padding, so `fresh` is the text that it gives.
pub proof fn lemma_fresh_is(tasks: Seq<TaskView>, seed: Seq<char>, count: nat)
    requires
        is_least_padding(tasks, seed, count),
    ensures
        fresh(tasks, seed) == padded(seed, count),
{
    let chosen = choose|count: nat| is_least_padding(tasks, seed, count);
    if chosen < count {
        assert(!usable(tasks, padded(seed, chosen)));
    } else if count < chosen {
        assert(!usable(tasks, padded(seed, count)));
    }
}

/// Asks `uuid::Uuid::new_v4` for a random identifier and hands back its text
/// as `Display` prints it. The text differs from call to call, so nothing is
/// claimed of it. The call panics where the operating system gives out no
/// random bytes.
#[verifier::external_body]
pub(crate) fn random_token() -> String {
    uuid::Uuid::new_v4().to_string()
}

/// An identifier that no task of the collection carries, made from `seed`.
pub fn fresh_id(tasks: &Vec<Task>, seed: String) -> (id: String)
    ensures
        id@ == fresh(tasks.deep_view(), seed@),
        usable(tasks.deep_view(), id@),
        usable(tasks.deep_view(), seed@) ==> id@ == seed@,
{
    let ghost model = tasks.deep_view();
    let ghost mut count: nat = 0;
    let mut id = seed;
    assert(id@ =~= padded(seed@, 0));
    loop
        invariant
            model == tasks.deep_view(),
            id@ == padded(seed@, count),
            forall|fewer: nat| fewer < count ==> !usable(model, #[trigger] padded(seed@, fewer)),
        ensures
            is_least_padding(model, seed@, count),
            id@ == padded(seed@, count),
        decreases longest_id(model) + 1 - id@.len(),
    {
        if !id.as_str().is_empty() {
            if find_task(tasks, &id).is_none() {
                break ;
            }
        }
        proof {
            lemma_position(model, id@);
            if id@.len() > longest_id(model) {
                lemma_longer_is_absent(model, id@);
            }
            reveal_strlit("0");
            assert(padded(seed@, count) + "0"@ =~= padded(seed@, count + 1));
            count = count + 1;
        }
        id.append("0");
    }
    proof {
        lemma_fresh_is(model, seed@, count);
        if usable(model, seed@) {
            assert(padded(seed@, 0) =~= seed@);
            assert(count == 0);
        }
    }
    id
}

/// An identifier for a new task of the collection, from a random token.
pub fn generate_id(tasks: &Vec<Task>) -> (id: String)
    ensures
        usable(tasks.deep_view(), id@),
{
    fresh_id(tasks, random_token())
}

} // verus!
