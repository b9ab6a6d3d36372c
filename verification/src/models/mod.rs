//! The models behind the interface.

pub mod calendar_model;
pub mod list;
pub mod task_model;
pub mod todo_model;

pub use calendar_model::CalendarModel;
pub use task_model::{TaskItem, TaskModel};
pub use todo_model::{TodoItem, TodoModel};
