//! The todo records and the two enumerations that are stored as integers.

use vstd::prelude::*;

use crate::datetime::Timestamp;

verus! {

/// An integer read from the store that stands for no variant.
#[derive(Debug, Copy, Clone, PartialEq, Eq, Structural)]
pub struct UnrecognizedVariant {
    pub value: i32,
}

impl UnrecognizedVariant {
    pub fn message(&self) -> (r: &'static str)
        ensures
            r@ == "Unrecognized variant"@,
    {
        "Unrecognized variant"
    }
}

/// Represents the status of a todo item.
#[derive(Debug, Copy, Clone, PartialEq, Eq, Structural, PartialOrd, Ord, Hash)]
pub enum TodoStatus {
    /// The task has not been started.
    ToDo,
    /// The task is actively being worked on.
    InProgress,
    /// The task has been completed.
    Done,
    /// The task is blocked by another issue.
    Blocked,
    /// The task is on hold.
    OnHold,
    /// The task has been cancelled.
    Cancelled,
}

impl TodoStatus {
    /// The integer under which the status is stored, and by which statuses
    /// are ordered.
    pub open spec fn ordinal(self) -> int {
        match self {
            TodoStatus::ToDo => 0,
            TodoStatus::InProgress => 1,
            TodoStatus::Done => 2,
            TodoStatus::Blocked => 3,
            TodoStatus::OnHold => 4,
            TodoStatus::Cancelled => 5,
        }
    }

    /// The status that `value` stands for, if any.
    pub open spec fn decode(value: int) -> Option<TodoStatus> {
        if value == 0 {
            Some(TodoStatus::ToDo)
        } else if value == 1 {
            Some(TodoStatus::InProgress)
        } else if value == 2 {
            Some(TodoStatus::Done)
        } else if value == 3 {
            Some(TodoStatus::Blocked)
        } else if value == 4 {
            Some(TodoStatus::OnHold)
        } else if value == 5 {
            Some(TodoStatus::Cancelled)
        } else {
            None
        }
    }

    /// The name of the status.
    pub open spec fn name_text(self) -> Seq<char> {
        match self {
            TodoStatus::ToDo => "ToDo"@,
            TodoStatus::InProgress => "InProgress"@,
            TodoStatus::Done => "Done"@,
            TodoStatus::Blocked => "Blocked"@,
            TodoStatus::OnHold => "OnHold"@,
            TodoStatus::Cancelled => "Cancelled"@,
        }
    }

    /// The name of the status.
    pub fn name(&self) -> (text: &'static str)
        ensures
            text@ == self.name_text(),
    {
        match self {
            TodoStatus::ToDo => "ToDo",
            TodoStatus::InProgress => "InProgress",
            TodoStatus::Done => "Done",
            TodoStatus::Blocked => "Blocked",
            TodoStatus::OnHold => "OnHold",
            TodoStatus::Cancelled => "Cancelled",
        }
    }

    /// A status that ends the work on a todo.
    pub open spec fn is_closing(self) -> bool {
        self == TodoStatus::Done || self == TodoStatus::Cancelled
    }

    /// Decodes a stored integer; an integer outside `0..=5` is an error.
    pub fn from_sql(value: i32) -> (r: Result<TodoStatus, UnrecognizedVariant>)
        ensures
            match r {
                Ok(status) => Self::decode(value as int) == Some(status),
                Err(e) => Self::decode(value as int) is None && e.value == value,
            },
    {
        match value {
            0 => Ok(TodoStatus::ToDo),
            1 => Ok(TodoStatus::InProgress),
            2 => Ok(TodoStatus::Done),
            3 => Ok(TodoStatus::Blocked),
            4 => Ok(TodoStatus::OnHold),
            5 => Ok(TodoStatus::Cancelled),
            _ => Err(UnrecognizedVariant { value }),
        }
    }

    /// The integer under which the status is stored.
    pub fn to_sql(&self) -> (r: i32)
        ensures
            r == self.ordinal(),
    {
        match self {
            TodoStatus::ToDo => 0,
            TodoStatus::InProgress => 1,
            TodoStatus::Done => 2,
            TodoStatus::Blocked => 3,
            TodoStatus::OnHold => 4,
            TodoStatus::Cancelled => 5,
        }
    }
}

impl Default for TodoStatus {
    fn default() -> (r: Self)
        ensures
            r == TodoStatus::ToDo,
    {
        TodoStatus::ToDo
    }
}

/// Represents the priority level of a todo item.
#[derive(Debug, Copy, Clone, PartialEq, Eq, Structural, PartialOrd, Ord, Hash)]
pub enum TodoPriority {
    /// Low priority.
    Low,
    /// Medium priority.
    Medium,
    /// High priority.
    High,
    /// Urgent priority, requires immediate attention.
    Urgent,
}

impl TodoPriority {
    /// The integer under which the priority is stored, and by which
    /// priorities are ordered.
    pub open spec fn ordinal(self) -> int {
        match self {
            TodoPriority::Low => 0,
            TodoPriority::Medium => 1,
            TodoPriority::High => 2,
            TodoPriority::Urgent => 3,
        }
    }

    /// The name of the priority.
    pub open spec fn name_text(self) -> Seq<char> {
        match self {
            TodoPriority::Low => "Low"@,
            TodoPriority::Medium => "Medium"@,
            TodoPriority::High => "High"@,
            TodoPriority::Urgent => "Urgent"@,
        }
    }

    /// The name of the priority.
    pub fn name(&self) -> (text: &'static str)
        ensures
            text@ == self.name_text(),
    {
        match self {
            TodoPriority::Low => "Low",
            TodoPriority::Medium => "Medium",
            TodoPriority::High => "High",
            TodoPriority::Urgent => "Urgent",
        }
    }

    /// The priority that `value` stands for, if any.
    pub open spec fn decode(value: int) -> Option<TodoPriority> {
        if value == 0 {
            Some(TodoPriority::Low)
        } else if value == 1 {
            Some(TodoPriority::Medium)
        } else if value == 2 {
            Some(TodoPriority::High)
        } else if value == 3 {
            Some(TodoPriority::Urgent)
        } else {
            None
        }
    }

    /// Decodes a stored integer; an integer outside `0..=3` is an error.
    pub fn from_sql(value: i32) -> (r: Result<TodoPriority, UnrecognizedVariant>)
        ensures
            match r {
                Ok(priority) => Self::decode(value as int) == Some(priority),
                Err(e) => Self::decode(value as int) is None && e.value == value,
            },
    {
        match value {
            0 => Ok(TodoPriority::Low),
            1 => Ok(TodoPriority::Medium),
            2 => Ok(TodoPriority::High),
            3 => Ok(TodoPriority::Urgent),
            _ => Err(UnrecognizedVariant { value }),
        }
    }

    /// The integer under which the priority is stored.
    pub fn to_sql(&self) -> (r: i32)
        ensures
            r == self.ordinal(),
    {
        match self {
            TodoPriority::Low => 0,
            TodoPriority::Medium => 1,
            TodoPriority::High => 2,
            TodoPriority::Urgent => 3,
        }
    }
}

impl Default for TodoPriority {
    fn default() -> (r: Self)
        ensures
            r == TodoPriority::Medium,
    {
        TodoPriority::Medium
    }
}

/// Encoding and decoding are inverse to each other: every status decodes
/// from its own ordinal, and an integer that decodes to a status is that
/// status's ordinal.
pub proof fn lemma_status_codec(status: TodoStatus, value: int)
    ensures
        TodoStatus::decode(status.ordinal()) == Some(status),
        0 <= status.ordinal() <= 5,
        TodoStatus::decode(value) is Some <==> 0 <= value <= 5,
        TodoStatus::decode(value) matches Some(s) ==> s.ordinal() == value,
{
}

/// Encoding and decoding are inverse to each other: every priority decodes
/// from its own ordinal, and an integer that decodes to a priority is that
/// priority's ordinal.
pub proof fn lemma_priority_codec(priority: TodoPriority, value: int)
    ensures
        TodoPriority::decode(priority.ordinal()) == Some(priority),
        0 <= priority.ordinal() <= 3,
        TodoPriority::decode(value) is Some <==> 0 <= value <= 3,
        TodoPriority::decode(value) matches Some(p) ==> p.ordinal() == value,
{
}

/// Represents a new todo item to be inserted into the store.
#[derive(Debug, Clone)]
pub struct NewTodo {
    /// The ID of the project this todo belongs to.
    pub project_id: i32,
    /// The ID of the parent todo, if this is a sub-task.
    pub parent_id: Option<i32>,
    /// The title of the todo.
    pub title: String,
    /// An optional detailed description of the todo.
    pub description: Option<String>,
    /// The current status of the todo.
    pub status: TodoStatus,
    /// The priority level of the todo.
    pub priority: TodoPriority,
    /// The optional due date for the todo.
    pub due_date: Option<Timestamp>,
    /// An optional estimation of time to complete, in minutes.
    pub estimated_minutes: Option<i32>,
    /// An optional location associated with the todo.
    pub location: Option<String>,
    /// An optional URL for more information.
    pub url: Option<String>,
    /// The timestamp when the todo was created.
    pub created_at: Option<Timestamp>,
    /// The timestamp when the todo was last updated.
    pub updated_at: Option<Timestamp>,
    /// The timestamp when the todo was completed.
    pub completed_at: Option<Timestamp>,
}

/// Represents the changes to be applied to an existing todo item.
#[derive(Debug, Clone)]
pub struct UpdateTodo {
    /// The unique identifier of the todo to update.
    pub id: i32,
    /// The new project ID, if moving the todo.
    pub project_id: Option<i32>,
    /// The new parent ID, if changing its hierarchy.
    pub parent_id: Option<i32>,
    /// The new title for the todo.
    pub title: Option<String>,
    /// The new description for the todo.
    pub description: Option<String>,
    /// The new status for the todo.
    pub status: Option<TodoStatus>,
    /// The new priority for the todo.
    pub priority: Option<TodoPriority>,
    /// The new due date for the todo.
    pub due_date: Option<Timestamp>,
    /// The new estimated time to complete, in minutes.
    pub estimated_minutes: Option<i32>,
    /// The new location for the todo.
    pub location: Option<String>,
    /// The new URL for the todo.
    pub url: Option<String>,
    /// The timestamp when the todo was last updated.
    pub updated_at: Timestamp,
    /// The timestamp when the todo was completed.
    pub completed_at: Option<Timestamp>,
}

/// A struct used to mark a todo as closed/completed.
#[derive(Debug, Copy, Clone, PartialEq, Eq, Structural)]
pub struct CloseTodo {
    /// The unique identifier of the todo to close.
    pub id: i32,
    /// The timestamp when the todo was last updated.
    pub updated_at: Timestamp,
    /// The timestamp when the todo was completed.
    pub completed_at: Timestamp,
    /// The final status to set for the closed todo (e.g., `Done`).
    pub status: TodoStatus,
}

/// Represents a todo item retrieved from the store.
#[derive(Debug, Clone)]
pub struct Todo {
    /// The unique identifier for the todo.
    pub id: i32,
    /// The ID of the project this todo belongs to.
    pub project_id: i32,
    /// The ID of the parent todo, if this is a sub-task.
    pub parent_id: Option<i32>,
    /// The title of the todo.
    pub title: String,
    /// An optional detailed description of the todo.
    pub description: Option<String>,
    /// The current status of the todo.
    pub status: TodoStatus,
    /// The priority level of the todo.
    pub priority: TodoPriority,
    /// The optional due date for the todo.
    pub due_date: Option<Timestamp>,
    /// An optional estimation of time to complete, in minutes.
    pub estimated_minutes: Option<i32>,
    /// An optional location associated with the todo.
    pub location: Option<String>,
    /// An optional URL for more information.
    pub url: Option<String>,
    /// The timestamp when the todo was created.
    pub created_at: Option<Timestamp>,
    /// The timestamp when the todo was last updated.
    pub updated_at: Option<Timestamp>,
    /// The timestamp when the todo was completed.
    pub completed_at: Option<Timestamp>,
}

impl Todo {
    /// A main todo has no parent.
    pub open spec fn is_main(self) -> bool {
        self.parent_id is None
    }

    /// A todo is a child of `parent` when its parent reference is `parent`.
    pub open spec fn is_child_of(self, parent: i32) -> bool {
        self.parent_id == Some(parent)
    }
}

} // verus!
