//! The lines in which results are shown.

use crate::command::{CommandResult, CommandResultView};
use crate::task::{Task, TaskView};
use vstd::prelude::*;
use vstd::string::StringExecFns;

verus! {

/// The character of a decimal digit.
pub open spec fn digit(value: nat) -> char {
    if value == 0 {
        '0'
    } else if value == 1 {
        '1'
    } else if value == 2 {
        '2'
    } else if value == 3 {
        '3'
    } else if value == 4 {
        '4'
    } else if value == 5 {
        '5'
    } else if value == 6 {
        '6'
    } else if value == 7 {
        '7'
    } else if value == 8 {
        '8'
    } else {
        '9'
    }
}

/// A number in decimal digits, without leading zeros.
pub open spec fn decimal(number: nat) -> Seq<char>
    decreases number,
{
    if number < 10 {
        seq![digit(number)]
    } else {
        decimal(number / 10).push(digit(number % 10))
    }
}

/// The mark of a task that is done, or of one that is not.
pub open spec fn mark(completed: bool) -> Seq<char> {
    if completed {
        "[x]"@
    } else {
        "[ ]"@
    }
}

/// The line of a task: its number in the list, its mark and its description.
pub open spec fn task_line(number: nat, task: TaskView) -> Seq<char> {
    decimal(number) + " "@ + mark(task.completed) + ": "@ + task.description
}

/// The lines in which a collection is shown: an invitation where it is
/// empty, else a heading and one line for each task, numbered from 1.
pub open spec fn listing(tasks: Seq<TaskView>) -> Seq<Seq<char>> {
    if tasks.len() == 0 {
        seq!["No tasks yet! Add one with the 'add' command."@]
    } else {
        seq!["--- Your Tasks ---"@] + Seq::new(
            tasks.len(),
            |i: int| task_line((i + 1) as nat, tasks[i]),
        )
    }
}

/// The lines in which a result is shown: a message as it is, a collection as
/// its listing.
pub open spec fn result_lines(result: CommandResultView) -> Seq<Seq<char>> {
    match result {
        CommandResultView::Message(text) => seq![text],
        CommandResultView::Tasks(tasks) => listing(tasks),
    }
}

/// One decimal digit as a text.
fn digit_text(value: usize) -> (text: &'static str)
    requires
        value < 10,
    ensures
        text@ == seq![digit(value as nat)],
{
    proof {
        reveal_strlit("0");
        reveal_strlit("1");
        reveal_strlit("2");
        reveal_strlit("3");
        reveal_strlit("4");
        reveal_strlit("5");
        reveal_strlit("6");
        reveal_strlit("7");
        reveal_strlit("8");
        reveal_strlit("9");
    }
    let text = if value == 0 {
        "0"
    } else if value == 1 {
        "1"
    } else if value == 2 {
        "2"
    } else if value == 3 {
        "3"
    } else if value == 4 {
        "4"
    } else if value == 5 {
        "5"
    } else if value == 6 {
        "6"
    } else if value == 7 {
        "7"
    } else if value == 8 {
        "8"
    } else {
        "9"
    };
    assert(text@ =~= seq![digit(value as nat)]);
    text
}

/// A number in decimal digits.
pub fn decimal_text(number: usize) -> (text: String)
    ensures
        text@ == decimal(number as nat),
    decreases number,
{
    if number < 10 {
        digit_text(number).to_owned()
    } else {
        let mut text = decimal_text(number / 10);
        let last = digit_text(number % 10);
        text.append(last);
        assert(text@ =~= decimal(number as nat));
        text
    }
}

/// The line of the task that stands at place `number` of the list, counted
/// from 1.
pub fn line_of(number: usize, task: &Task) -> (line: String)
    ensures
        line@ == task_line(number as nat, task@),
{
    let mut line = decimal_text(number);
    line.append(" ");
    line.append(if task.completed {
        "[x]"
    } else {
        "[ ]"
    });
    line.append(": ");
    line.append(task.description.as_str());
    line
}

/// The lines in which the collection is shown.
pub fn list_tasks(tasks: &Vec<Task>) -> (lines: Vec<String>)
    ensures
        lines.deep_view() == listing(tasks.deep_view()),
{
    let mut lines: Vec<String> = Vec::new();
    if tasks.is_empty() {
        lines.push("No tasks yet! Add one with the 'add' command.".to_owned());
        assert(lines.deep_view() =~= listing(tasks.deep_view()));
        return lines;
    }
    lines.push("--- Your Tasks ---".to_owned());
    let mut at: usize = 0;
    while at < tasks.len()
        invariant
            at <= tasks.len(),
            lines.len() == at + 1,
            lines[0]@ == "--- Your Tasks ---"@,
            forall|i: int|
                0 <= i < at ==> (#[trigger] lines[i + 1])@ == task_line(
                    (i + 1) as nat,
                    tasks[i]@,
                ),
        decreases tasks.len() - at,
    {
        let line = line_of(at + 1, &tasks[at]);
        lines.push(line);
        at += 1;
    }
    assert(lines.deep_view() =~= listing(tasks.deep_view()));
    lines
}

/// The lines in which a result is shown.
pub fn render_result(result: &CommandResult) -> (lines: Vec<String>)
    ensures
        lines.deep_view() == result_lines(result@),
{
    match result {
        CommandResult::Message(text) => {
            let mut lines: Vec<String> = Vec::new();
            lines.push(text.clone());
            assert(lines.deep_view() =~= result_lines(result@));
            lines
        },
        CommandResult::Tasks(tasks) => list_tasks(tasks),
    }
}

} // verus!
