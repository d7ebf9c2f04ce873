//! A single-user task list: the tasks, the operations on a collection of
//! them, and the state machine that runs one command at a time.

pub mod command;
pub mod error;
pub mod ident;
pub mod laws;
pub mod ops;
pub mod render;
pub mod state;
pub mod task;
pub mod text;

pub use command::{parse_args, Command, CommandResult};
pub use error::TodoError;
pub use ops::{
    add_task, add_task_seeded, complete_task, delete_task, edit_task, find_task, uncomplete_task,
};
pub use state::AppContext;
pub use task::Task;
