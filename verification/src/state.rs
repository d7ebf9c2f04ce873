//! The state machine that runs one command: it changes the collection, asks
//! for the collection to be written out after every change, and ends with a
//! result.
//!
//! The machine does not write anything itself. Where the collection has to be
//! stored it stops in `Saving`; its caller does the writing and hands the
//! outcome to `AppContext::resume`.

use crate::command::{Command, CommandResult, CommandResultView, CommandView};
use crate::error::{TodoError, TodoErrorView};
use crate::ident::usable;
use crate::ops::{
    add_task, complete_task, delete_task, edit_task, uncomplete_task, with_completed,
    with_description, with_new, without,
};
use crate::task::{has_id, unique_ids, Task, TaskView};
use vstd::prelude::*;

verus! {

/// The version that the `Version` command reports.
pub const VERSION: &'static str = "0.1.0";

/// The state before any command. Nothing leads here but `AppContext::new`.
pub struct IdleState;

/// Shows the collection.
pub struct ListState;

/// Adds a task.
pub struct AddState {
    pub description: String,
}

/// Marks a task as done.
pub struct CompleteState {
    pub id: String,
}

/// Marks a task as not done.
pub struct UncompleteState {
    pub id: String,
}

/// Removes a task.
pub struct DeleteState {
    pub id: String,
}

/// Gives a task a new description.
pub struct EditState {
    pub id: String,
    pub description: String,
}

/// Waits for the collection to be written out; `message` is what the command
/// confirms once it has been.
pub struct SavingState {
    pub message: String,
}

/// The end of a run.
pub struct CompletedState;

/// Reports the version.
pub struct VersionState;

/// The state that a machine is in.
pub enum State {
    Idle(IdleState),
    List(ListState),
    Add(AddState),
    Complete(CompleteState),
    Uncomplete(UncompleteState),
    Delete(DeleteState),
    Edit(EditState),
    Saving(SavingState),
    Completed(CompletedState),
    Version(VersionState),
}

/// A state with its texts as sequences of characters.
pub ghost enum StateView {
    Idle,
    List,
    Add(Seq<char>),
    Complete(Seq<char>),
    Uncomplete(Seq<char>),
    Delete(Seq<char>),
    Edit(Seq<char>, Seq<char>),
    Saving(Seq<char>),
    Completed,
    Version,
}

impl View for State {
    type V = StateView;

    open spec fn view(&self) -> StateView {
        match self {
            State::Idle(_) => StateView::Idle,
            State::List(_) => StateView::List,
            State::Add(state) => StateView::Add(state.description@),
            State::Complete(state) => StateView::Complete(state.id@),
            State::Uncomplete(state) => StateView::Uncomplete(state.id@),
            State::Delete(state) => StateView::Delete(state.id@),
            State::Edit(state) => StateView::Edit(state.id@, state.description@),
            State::Saving(state) => StateView::Saving(state.message@),
            State::Completed(_) => StateView::Completed,
            State::Version(_) => StateView::Version,
        }
    }
}

/// The machine as the contracts see it: the collection and the state.
pub ghost struct Machine {
    pub tasks: Seq<TaskView>,
    pub state: StateView,
}

/// What a step hands to the caller: nothing yet, or the result of the run.
pub type Outcome = Option<Result<CommandResult, TodoError>>;

/// An outcome with its texts as sequences of characters.
pub type OutcomeView = Option<Result<CommandResultView, TodoErrorView>>;

/// The view of an outcome.
pub open spec fn outcome_view(outcome: Outcome) -> OutcomeView {
    match outcome {
        None => None,
        Some(Ok(result)) => Some(Ok(result@)),
        Some(Err(error)) => Some(Err(error@)),
    }
}

impl StateView {
    /// The name of the state.
    pub open spec fn name(self) -> Seq<char> {
        match self {
            StateView::Idle => "Idle"@,
            StateView::List => "List"@,
            StateView::Add(_) => "Add"@,
            StateView::Complete(_) => "Complete"@,
            StateView::Uncomplete(_) => "Uncomplete"@,
            StateView::Delete(_) => "Delete"@,
            StateView::Edit(_, _) => "Edit"@,
            StateView::Saving(_) => "Saving"@,
            StateView::Completed => "Completed"@,
            StateView::Version => "Version"@,
        }
    }

    /// The state in which the run of a command begins.
    pub open spec fn entry(command: CommandView) -> StateView {
        match command {
            CommandView::List => StateView::List,
            CommandView::Add(description) => StateView::Add(description),
            CommandView::Complete(id) => StateView::Complete(id),
            CommandView::Uncomplete(id) => StateView::Uncomplete(id),
            CommandView::Delete(id) => StateView::Delete(id),
            CommandView::Edit(id, description) => StateView::Edit(id, description),
            CommandView::Version => StateView::Version,
        }
    }
}

/// A machine on `tasks` that is through with a run: what the next run starts
/// from, whatever state the last one left.
pub open spec fn at_rest(tasks: Seq<TaskView>) -> Machine {
    Machine { tasks, state: StateView::Completed }
}

/// A machine that changed its collection to `tasks` and now waits for it to
/// be written out, to confirm with `message` afterwards.
pub open spec fn saving(tasks: Seq<TaskView>, message: Seq<char>) -> (Machine, OutcomeView) {
    (Machine { tasks, state: StateView::Saving(message) }, None)
}

/// A machine that ended its run on `tasks` with `outcome`.
pub open spec fn ended(tasks: Seq<TaskView>, outcome: Result<CommandResultView, TodoErrorView>) -> (
    Machine,
    OutcomeView,
) {
    (at_rest(tasks), Some(outcome))
}

/// A machine that found no task under `id` and ended its run on the
/// collection as it was.
pub open spec fn not_found(tasks: Seq<TaskView>, id: Seq<char>) -> (Machine, OutcomeView) {
    ended(tasks, Err(TodoErrorView::TaskNotFound(id)))
}

/// The transition table: whether a machine in `before`, handled by `state`,
/// may come to `after` and hand out `outcome`.
///
/// A state that changes the collection leads to `Saving` and hands out
/// nothing; where the task it names is missing it ends the run with the
/// error and the collection as it was. `Saving` itself waits. The states
/// that only read end the run at once. `Idle` and `Completed` do nothing.
pub open spec fn handled(
    state: StateView,
    before: Machine,
    after: Machine,
    outcome: OutcomeView,
) -> bool {
    let tasks = before.tasks;
    match state {
        StateView::Idle | StateView::Completed => {
            (after, outcome) == (
                before,
                Some(Ok::<_, TodoErrorView>(CommandResultView::Message(Seq::empty()))),
            )
        },
        StateView::List => (after, outcome) == ended(tasks, Ok(CommandResultView::Tasks(tasks))),
        StateView::Version => (after, outcome) == ended(
            tasks,
            Ok(CommandResultView::Message(VERSION@)),
        ),
        StateView::Add(description) => {
            &&& after.tasks.len() > 0
            &&& usable(tasks, after.tasks.last().id)
            &&& (after, outcome) == saving(
                with_new(tasks, after.tasks.last().id, description),
                "Task added."@,
            )
        },
        StateView::Complete(id) => (after, outcome) == if has_id(tasks, id) {
            saving(with_completed(tasks, id, true), "Task marked as complete."@)
        } else {
            not_found(tasks, id)
        },
        StateView::Uncomplete(id) => (after, outcome) == if has_id(tasks, id) {
            saving(with_completed(tasks, id, false), "Task marked as incomplete."@)
        } else {
            not_found(tasks, id)
        },
        StateView::Delete(id) => (after, outcome) == if has_id(tasks, id) {
            saving(without(tasks, id), "Task deleted."@)
        } else {
            not_found(tasks, id)
        },
        StateView::Edit(id, description) => (after, outcome) == if has_id(tasks, id) {
            saving(with_description(tasks, id, description), "Task updated."@)
        } else {
            not_found(tasks, id)
        },
        StateView::Saving(message) => (after, outcome) == saving(tasks, message),
    }
}

/// The collection and the state of one run.
pub struct AppContext {
    pub tasks: Vec<Task>,
    pub state: State,
}

impl View for AppContext {
    type V = Machine;

    open spec fn view(&self) -> Machine {
        Machine { tasks: self.tasks.deep_view(), state: self.state@ }
    }
}

/// What every state of the machine can do.
pub trait AppState: Send {
    /// The state as the contracts see it.
    spec fn model(&self) -> StateView;

    /// Does the work of this state on `context` and moves it on, as the
    /// transition table says.
    fn handle(&self, context: &mut AppContext) -> (outcome: Outcome)
        ensures
            handled(self.model(), old(context)@, final(context)@, outcome_view(outcome)),
            unique_ids(old(context)@.tasks) ==> unique_ids(final(context)@.tasks),
    ;

    /// The name of the state.
    fn name(&self) -> (name: &str)
        ensures
            name@ == self.model().name(),
    ;
}

impl AppContext {
    /// A machine on `tasks` that has not run anything yet.
    pub fn new(tasks: Vec<Task>) -> (context: Self)
        ensures
            context.tasks == tasks,
            context@ == (Machine { tasks: tasks.deep_view(), state: StateView::Idle }),
    {
        AppContext { tasks, state: State::Idle(IdleState) }
    }

    /// Puts the machine into `state`.
    pub fn transition_to(&mut self, state: State)
        ensures
            final(self).state == state,
            final(self).tasks == old(self).tasks,
    {
        self.state = state
    }

    /// The collection, to change it in place.
    pub fn tasks_mut(&mut self) -> (tasks: &mut Vec<Task>)
        ensures
            *tasks == old(self).tasks,
            final(self).tasks == *final(tasks),
            final(self).state == old(self).state,
    {
        &mut self.tasks
    }
}

impl State {
    /// The state in which the run of `command` begins.
    pub fn entry(command: Command) -> (state: State)
        ensures
            state@ == StateView::entry(command@),
    {
        match command {
            Command::List => State::List(ListState),
            Command::Add(description) => State::Add(AddState { description }),
            Command::Complete(id) => State::Complete(CompleteState { id }),
            Command::Uncomplete(id) => State::Uncomplete(UncompleteState { id }),
            Command::Delete(id) => State::Delete(DeleteState { id }),
            Command::Edit(id, description) => State::Edit(EditState { id, description }),
            Command::Version => State::Version(VersionState),
        }
    }
}

impl AppContext {
    /// Runs `command` as far as the machine can go by itself.
    ///
    /// The run begins in the state that belongs to the command, whatever
    /// state the machine was left in. A command that only reads ends with
    /// its result, and so does one that names a task that is missing: the
    /// collection is then as it was and nothing has to be stored. A command
    /// that changed the collection hands out nothing and leaves the machine
    /// in `Saving`: the collection now has to be written out, and `resume`
    /// takes the outcome of that.
    pub fn execute(&mut self, command: Command) -> (outcome: Outcome)
        ensures
            handled(
                StateView::entry(command@),
                at_rest(old(self)@.tasks),
                final(self)@,
                outcome_view(outcome),
            ),
            outcome is None <==> final(self)@.state is Saving,
            outcome is Some ==> final(self)@.state is Completed && final(self)@.tasks == old(
                self,
            )@.tasks,
            unique_ids(old(self)@.tasks) ==> unique_ids(final(self)@.tasks),
    {
        let entry = State::entry(command);
        self.transition_to(State::Completed(CompletedState));
        entry.handle(self)
    }

    /// Ends a run that waits in `Saving`, given the outcome of writing the
    /// collection out: the confirmation of the command where it was
    /// written, the error of the store where it was not. The collection
    /// stays as the command left it either way. A machine that does not
    /// wait is left as it is and answers with an empty message.
    pub fn resume(&mut self, saved: Result<(), std::io::Error>) -> (outcome: Result<
        CommandResult,
        TodoError,
    >)
        ensures
            final(self).tasks == old(self).tasks,
            match old(self)@.state {
                StateView::Saving(message) => {
                    &&& final(self)@.state is Completed
                    &&& match saved {
                        Ok(()) => outcome matches Ok(CommandResult::Message(text)) && text@
                            == message,
                        Err(failure) => outcome matches Err(TodoError::IoError(cause)) && cause
                            == failure,
                    }
                },
                _ => {
                    &&& final(self)@.state == old(self)@.state
                    &&& outcome matches Ok(CommandResult::Message(text)) && text@.len() == 0
                },
            },
    {
        let mut state = State::Completed(CompletedState);
        std::mem::swap(&mut self.state, &mut state);
        match state {
            State::Saving(saving) => saving.finish(self, saved),
            other => {
                self.transition_to(other);
                Ok(CommandResult::Message(String::new()))
            },
        }
    }
}

impl AppState for IdleState {
    open spec fn model(&self) -> StateView {
        StateView::Idle
    }

    fn handle(&self, context: &mut AppContext) -> (outcome: Outcome) {
        Some(Ok(CommandResult::Message(String::new())))
    }

    fn name(&self) -> (name: &str) {
        "Idle"
    }
}

impl AppState for ListState {
    open spec fn model(&self) -> StateView {
        StateView::List
    }

    fn handle(&self, context: &mut AppContext) -> (outcome: Outcome) {
        let tasks = context.tasks.clone();
        assert(tasks.deep_view() =~= context.tasks.deep_view());
        context.transition_to(State::Completed(CompletedState));
        Some(Ok(CommandResult::Tasks(tasks)))
    }

    fn name(&self) -> (name: &str) {
        "List"
    }
}

impl AppState for AddState {
    open spec fn model(&self) -> StateView {
        StateView::Add(self.description@)
    }

    fn handle(&self, context: &mut AppContext) -> (outcome: Outcome) {
        add_task(context.tasks_mut(), self.description.clone());
        context.transition_to(State::Saving(SavingState { message: "Task added.".to_owned() }));
        assert(context@.tasks =~= with_new(
            old(context)@.tasks,
            context@.tasks.last().id,
            self.description@,
        ));
        None
    }

    fn name(&self) -> (name: &str) {
        "Add"
    }
}

impl AppState for CompleteState {
    open spec fn model(&self) -> StateView {
        StateView::Complete(self.id@)
    }

    fn handle(&self, context: &mut AppContext) -> (outcome: Outcome) {
        match complete_task(context.tasks_mut(), self.id.clone()) {
            Ok(()) => {
                context.transition_to(
                    State::Saving(SavingState { message: "Task marked as complete.".to_owned() }),
                );
                None
            },
            Err(error) => {
                context.transition_to(State::Completed(CompletedState));
                Some(Err(error))
            },
        }
    }

    fn name(&self) -> (name: &str) {
        "Complete"
    }
}

impl AppState for UncompleteState {
    open spec fn model(&self) -> StateView {
        StateView::Uncomplete(self.id@)
    }

    fn handle(&self, context: &mut AppContext) -> (outcome: Outcome) {
        match uncomplete_task(context.tasks_mut(), self.id.clone()) {
            Ok(()) => {
                context.transition_to(
                    State::Saving(SavingState { message: "Task marked as incomplete.".to_owned() }),
                );
                None
            },
            Err(error) => {
                context.transition_to(State::Completed(CompletedState));
                Some(Err(error))
            },
        }
    }

    fn name(&self) -> (name: &str) {
        "Uncomplete"
    }
}

impl AppState for DeleteState {
    open spec fn model(&self) -> StateView {
        StateView::Delete(self.id@)
    }

    fn handle(&self, context: &mut AppContext) -> (outcome: Outcome) {
        match delete_task(context.tasks_mut(), self.id.clone()) {
            Ok(()) => {
                context.transition_to(
                    State::Saving(SavingState { message: "Task deleted.".to_owned() }),
                );
                None
            },
            Err(error) => {
                context.transition_to(State::Completed(CompletedState));
                Some(Err(error))
            },
        }
    }

    fn name(&self) -> (name: &str) {
        "Delete"
    }
}

impl AppState for EditState {
    open spec fn model(&self) -> StateView {
        StateView::Edit(self.id@, self.description@)
    }

    fn handle(&self, context: &mut AppContext) -> (outcome: Outcome) {
        match edit_task(context.tasks_mut(), self.id.clone(), self.description.clone()) {
            Ok(()) => {
                context.transition_to(
                    State::Saving(SavingState { message: "Task updated.".to_owned() }),
                );
                None
            },
            Err(error) => {
                context.transition_to(State::Completed(CompletedState));
                Some(Err(error))
            },
        }
    }

    fn name(&self) -> (name: &str) {
        "Edit"
    }
}

impl AppState for SavingState {
    open spec fn model(&self) -> StateView {
        StateView::Saving(self.message@)
    }

    fn handle(&self, context: &mut AppContext) -> (outcome: Outcome) {
        context.transition_to(State::Saving(SavingState { message: self.message.clone() }));
        None
    }

    fn name(&self) -> (name: &str) {
        "Saving"
    }
}

impl SavingState {
    /// Ends the run once the store has answered: with the confirmation
    /// where the collection was written, with the store's error where it
    /// was not. The collection stays as it is either way.
    pub fn finish(&self, context: &mut AppContext, saved: Result<(), std::io::Error>) -> (outcome:
        Result<CommandResult, TodoError>)
        ensures
            final(context)@ == at_rest(old(context)@.tasks),
            final(context).tasks == old(context).tasks,
            match saved {
                Ok(()) => outcome matches Ok(CommandResult::Message(text)) && text@
                    == self.message@,
                Err(failure) => outcome matches Err(TodoError::IoError(cause)) && cause == failure,
            },
    {
        context.transition_to(State::Completed(CompletedState));
        match saved {
            Ok(()) => Ok(CommandResult::Message(self.message.clone())),
            Err(failure) => Err(TodoError::from(failure)),
        }
    }
}

impl AppState for CompletedState {
    open spec fn model(&self) -> StateView {
        StateView::Completed
    }

    fn handle(&self, context: &mut AppContext) -> (outcome: Outcome) {
        Some(Ok(CommandResult::Message(String::new())))
    }

    fn name(&self) -> (name: &str) {
        "Completed"
    }
}

impl AppState for VersionState {
    open spec fn model(&self) -> StateView {
        StateView::Version
    }

    fn handle(&self, context: &mut AppContext) -> (outcome: Outcome) {
        let version = VERSION.to_owned();
        context.transition_to(State::Completed(CompletedState));
        Some(Ok(CommandResult::Message(version)))
    }

    fn name(&self) -> (name: &str) {
        "Version"
    }
}

impl AppState for State {
    open spec fn model(&self) -> StateView {
        self@
    }

    fn handle(&self, context: &mut AppContext) -> (outcome: Outcome) {
        match self {
            State::Idle(state) => state.handle(context),
            State::List(state) => state.handle(context),
            State::Add(state) => state.handle(context),
            State::Complete(state) => state.handle(context),
            State::Uncomplete(state) => state.handle(context),
            State::Delete(state) => state.handle(context),
            State::Edit(state) => state.handle(context),
            State::Saving(state) => state.handle(context),
            State::Completed(state) => state.handle(context),
            State::Version(state) => state.handle(context),
        }
    }

    fn name(&self) -> (name: &str) {
        match self {
            State::Idle(state) => state.name(),
            State::List(state) => state.name(),
            State::Add(state) => state.name(),
            State::Complete(state) => state.name(),
            State::Uncomplete(state) => state.name(),
            State::Delete(state) => state.name(),
            State::Edit(state) => state.name(),
            State::Saving(state) => state.name(),
            State::Completed(state) => state.name(),
            State::Version(state) => state.name(),
        }
    }
}

} // verus!
