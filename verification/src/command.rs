//! The commands of the task list, what each one yields, and how a command
//! line is read into a command.

use crate::text::{framed, is_word};
use crate::task::{Task, TaskView};
use vstd::prelude::*;

verus! {

/// What a user can ask for.
pub enum Command {
    /// Show every task.
    List,
    /// Add a task with this description.
    Add(String),
    /// Mark the task with this identifier as done.
    Complete(String),
    /// Mark the task with this identifier as not done.
    Uncomplete(String),
    /// Remove the task with this identifier.
    Delete(String),
    /// Give the task with this identifier a new description.
    Edit(String, String),
    /// Report the version.
    Version,
}

/// A command with its texts as sequences of characters.
pub ghost enum CommandView {
    List,
    Add(Seq<char>),
    Complete(Seq<char>),
    Uncomplete(Seq<char>),
    Delete(Seq<char>),
    Edit(Seq<char>, Seq<char>),
    Version,
}

impl View for Command {
    type V = CommandView;

    open spec fn view(&self) -> CommandView {
        match self {
            Command::List => CommandView::List,
            Command::Add(description) => CommandView::Add(description@),
            Command::Complete(id) => CommandView::Complete(id@),
            Command::Uncomplete(id) => CommandView::Uncomplete(id@),
            Command::Delete(id) => CommandView::Delete(id@),
            Command::Edit(id, description) => CommandView::Edit(id@, description@),
            Command::Version => CommandView::Version,
        }
    }
}

/// What running a command yields.
pub enum CommandResult {
    /// A line to show.
    Message(String),
    /// The tasks as they stood when the command ran.
    Tasks(Vec<Task>),
}

/// A result with its texts as sequences of characters.
pub ghost enum CommandResultView {
    Message(Seq<char>),
    Tasks(Seq<TaskView>),
}

impl View for CommandResult {
    type V = CommandResultView;

    open spec fn view(&self) -> CommandResultView {
        match self {
            CommandResult::Message(text) => CommandResultView::Message(text@),
            CommandResult::Tasks(tasks) => CommandResultView::Tasks(tasks.deep_view()),
        }
    }
}

/// The argument at place `at`, or the complaint `missing` where the command
/// line is too short to have one.
pub open spec fn argument(args: Seq<Seq<char>>, at: int, missing: Seq<char>) -> Result<
    Seq<char>,
    Seq<char>,
> {
    if at < args.len() {
        Ok(args[at])
    } else {
        Err(missing)
    }
}

/// The command that a command line stands for, or the complaint about it.
/// The program's own name comes first, the command word second, and what the
/// command needs after it; further arguments are ignored.
pub open spec fn parsed(args: Seq<Seq<char>>) -> Result<CommandView, Seq<char>> {
    if args.len() < 2 {
        Err("Invalid command."@)
    } else if args[1] == "list"@ {
        Ok(CommandView::List)
    } else if args[1] == "version"@ || args[1] == "-v"@ || args[1] == "--version"@ {
        Ok(CommandView::Version)
    } else if args[1] == "add"@ {
        match argument(args, 2, "Error: 'add' command requires a description."@) {
            Ok(description) => Ok(CommandView::Add(description)),
            Err(complaint) => Err(complaint),
        }
    } else if args[1] == "done"@ {
        match argument(args, 2, "Error: 'done' command requires a task ID."@) {
            Ok(id) => Ok(CommandView::Complete(id)),
            Err(complaint) => Err(complaint),
        }
    } else if args[1] == "undone"@ {
        match argument(args, 2, "Error: 'undone' command requires a task ID."@) {
            Ok(id) => Ok(CommandView::Uncomplete(id)),
            Err(complaint) => Err(complaint),
        }
    } else if args[1] == "delete"@ {
        match argument(args, 2, "Error: 'delete' command requires a task ID."@) {
            Ok(id) => Ok(CommandView::Delete(id)),
            Err(complaint) => Err(complaint),
        }
    } else if args[1] == "edit"@ {
        match argument(args, 2, "Error: 'edit' command requires a task ID."@) {
            Ok(id) => match argument(
                args,
                3,
                "Error: 'edit' command requires a new description."@,
            ) {
                Ok(description) => Ok(CommandView::Edit(id, description)),
                Err(complaint) => Err(complaint),
            },
            Err(complaint) => Err(complaint),
        }
    } else {
        Err("Error: Unknown command '"@ + args[1] + "'"@)
    }
}

/// The argument at place `at`, or the complaint `missing`.
fn take_argument(args: &[String], at: usize, missing: &str) -> (taken: Result<String, String>)
    ensures
        match (taken, argument(args.deep_view(), at as int, missing@)) {
            (Ok(text), Ok(expected)) => text@ == expected,
            (Err(text), Err(expected)) => text@ == expected,
            _ => false,
        },
{
    if at < args.len() {
        Ok(args[at].clone())
    } else {
        Err(missing.to_owned())
    }
}

/// Whether an outcome of reading a command line is the expected one.
pub open spec fn reads_as(
    outcome: Result<Command, String>,
    expected: Result<CommandView, Seq<char>>,
) -> bool {
    match (outcome, expected) {
        (Ok(command), Ok(view)) => command@ == view,
        (Err(complaint), Err(text)) => complaint@ == text,
        _ => false,
    }
}

/// Reads a command line into a command.
pub fn parse_args(args: &[String]) -> (outcome: Result<Command, String>)
    ensures
        reads_as(outcome, parsed(args.deep_view())),
{
    if args.len() < 2 {
        return Err("Invalid command.".to_owned());
    }
    let word = &args[1];
    assert(word@ == args.deep_view()[1]);
    if is_word(word, "list") {
        Ok(Command::List)
    } else if is_word(word, "version") || is_word(word, "-v") || is_word(word, "--version") {
        Ok(Command::Version)
    } else if is_word(word, "add") {
        match take_argument(args, 2, "Error: 'add' command requires a description.") {
            Ok(description) => Ok(Command::Add(description)),
            Err(complaint) => Err(complaint),
        }
    } else if is_word(word, "done") {
        match take_argument(args, 2, "Error: 'done' command requires a task ID.") {
            Ok(id) => Ok(Command::Complete(id)),
            Err(complaint) => Err(complaint),
        }
    } else if is_word(word, "undone") {
        match take_argument(args, 2, "Error: 'undone' command requires a task ID.") {
            Ok(id) => Ok(Command::Uncomplete(id)),
            Err(complaint) => Err(complaint),
        }
    } else if is_word(word, "delete") {
        match take_argument(args, 2, "Error: 'delete' command requires a task ID.") {
            Ok(id) => Ok(Command::Delete(id)),
            Err(complaint) => Err(complaint),
        }
    } else if is_word(word, "edit") {
        match take_argument(args, 2, "Error: 'edit' command requires a task ID.") {
            Ok(id) => match take_argument(
                args,
                3,
                "Error: 'edit' command requires a new description.",
            ) {
                Ok(description) => Ok(Command::Edit(id, description)),
                Err(complaint) => Err(complaint),
            },
            Err(complaint) => Err(complaint),
        }
    } else {
        Err(framed("Error: Unknown command '", word.as_str(), "'"))
    }
}

} // verus!
