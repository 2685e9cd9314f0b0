//! What the todo commands make of their arguments, and the rule that keeps
//! the hierarchy of todos one level deep.

use vstd::prelude::*;

use crate::arg::{parse_required_project_id, ValidDateTime, ValidMinutes, ValidUrl};
use crate::datetime::Timestamp;
use crate::error::{TuduError, TuduResult};
use crate::todo::filter::ListTodoFilters;
use crate::todo::sql::{CloseTodo, NewTodo, Todo, TodoPriority, TodoStatus, UpdateTodo};

verus! {

/// The date and time, if one is given.
pub open spec fn time_of(due_date: Option<ValidDateTime>) -> Option<Timestamp> {
    match due_date {
        Some(due_date) => Some(due_date.0),
        None => None,
    }
}

/// The minutes of an estimate, if one is given.
pub open spec fn minutes_of(estimate: Option<ValidMinutes>) -> Option<i32> {
    match estimate {
        Some(estimate) => Some(estimate.value()),
        None => None,
    }
}

/// The text of a URL, if one is given.
pub open spec fn url_text(url: Option<ValidUrl>) -> Option<Seq<char>> {
    match url {
        Some(url) => Some(url.0@),
        None => None,
    }
}

/// The text, if one is given.
pub open spec fn text_of(text: Option<String>) -> Option<Seq<char>> {
    match text {
        Some(text) => Some(text@),
        None => None,
    }
}

/// What the command line of `new todo` holds.
#[derive(Debug, Clone)]
pub struct NewTodoArgs {
    pub project_id: Option<i32>,
    pub title: Option<String>,
    pub parent_id: Option<i32>,
    pub description: Option<String>,
    pub priority: Option<TodoPriority>,
    pub due_date: Option<ValidDateTime>,
    pub estimated_minutes: Option<ValidMinutes>,
    pub location: Option<String>,
    pub url: Option<ValidUrl>,
}

/// What the command line of `update todo` holds.
#[derive(Debug, Clone)]
pub struct UpdateTodoArgs {
    pub id: Option<i32>,
    pub project_id: Option<i32>,
    pub parent_id: Option<i32>,
    pub title: Option<String>,
    pub description: Option<String>,
    pub status: Option<TodoStatus>,
    pub priority: Option<TodoPriority>,
    pub due_date: Option<ValidDateTime>,
    pub estimated_minutes: Option<ValidMinutes>,
    pub location: Option<String>,
    pub url: Option<ValidUrl>,
}

/// The todo that a `new todo` command asks for. The project is the one given
/// or, where none is given, the configured one; it and the title are
/// required. A new todo is not started, has the default priority where none
/// is given, and carries no timestamps: those are the store's to set. Its
/// estimate, if it has one, is not negative.
pub fn parse_new_todo_command_matches(args: NewTodoArgs, configured: Option<i32>) -> (result:
    TuduResult<NewTodo>)
    ensures
        match result {
            Ok(todo) => {
                &&& args.project_id == Some(todo.project_id) || (args.project_id is None
                    && configured == Some(todo.project_id))
                &&& args.title == Some(todo.title)
                &&& todo.parent_id == args.parent_id
                &&& todo.description == args.description
                &&& todo.priority == (match args.priority {
                    Some(priority) => priority,
                    None => TodoPriority::Medium,
                })
                &&& todo.due_date == time_of(args.due_date)
                &&& todo.estimated_minutes == minutes_of(args.estimated_minutes)
                &&& todo.estimated_minutes matches Some(minutes) ==> minutes >= 0
                &&& todo.location == args.location
                &&& text_of(todo.url) == url_text(args.url)
                &&& todo.status == TodoStatus::ToDo
                &&& todo.created_at is None
                &&& todo.updated_at is None
                &&& todo.completed_at is None
            },
            Err(error) => {
                &&& (args.project_id is None && configured is None) || args.title is None
                &&& error == TuduError::RequiredArgumentError
            },
        },
{
    let project_id = match parse_required_project_id(args.project_id, configured) {
        Ok(project_id) => project_id,
        Err(error) => {
            return Err(error);
        },
    };
    let title = match args.title {
        Some(title) => title,
        None => {
            return Err(TuduError::RequiredArgumentError);
        },
    };
    Ok(
        NewTodo {
            project_id,
            title,
            parent_id: args.parent_id,
            description: args.description,
            priority: match args.priority {
                Some(priority) => priority,
                None => TodoPriority::default(),
            },
            due_date: match args.due_date {
                Some(due_date) => Some(due_date.0),
                None => None,
            },
            estimated_minutes: match args.estimated_minutes {
                Some(estimate) => Some(estimate.get()),
                None => None,
            },
            location: args.location,
            url: match args.url {
                Some(url) => Some(url.0),
                None => None,
            },
            status: TodoStatus::default(),
            created_at: None,
            updated_at: None,
            completed_at: None,
        },
    )
}

/// The time at which a todo that takes on `status` at `now` is completed:
/// `now` where the status ends the work on it, else none.
pub open spec fn completion_time(status: Option<TodoStatus>, now: Timestamp) -> Option<Timestamp> {
    match status {
        Some(status) => if status.is_closing() {
            Some(now)
        } else {
            None
        },
        None => None,
    }
}

/// The changes that an `update todo` command asks for, made at `now`. The
/// identifier of the todo is required. The todo is completed at `now` where
/// its new status is `Done` or `Cancelled`. A new estimate is not negative.
pub fn parse_update_todo_command_matches(args: UpdateTodoArgs, now: Timestamp) -> (result:
    TuduResult<UpdateTodo>)
    ensures
        match result {
            Ok(update) => {
                &&& args.id == Some(update.id)
                &&& update.project_id == args.project_id
                &&& update.parent_id == args.parent_id
                &&& update.title == args.title
                &&& update.description == args.description
                &&& update.status == args.status
                &&& update.priority == args.priority
                &&& update.due_date == time_of(args.due_date)
                &&& update.estimated_minutes == minutes_of(args.estimated_minutes)
                &&& update.estimated_minutes matches Some(minutes) ==> minutes >= 0
                &&& update.location == args.location
                &&& text_of(update.url) == url_text(args.url)
                &&& update.updated_at == now
                &&& update.completed_at == completion_time(args.status, now)
            },
            Err(error) => args.id is None && error == TuduError::RequiredArgumentError,
        },
{
    let id = match args.id {
        Some(id) => id,
        None => {
            return Err(TuduError::RequiredArgumentError);
        },
    };
    Ok(
        UpdateTodo {
            id,
            project_id: args.project_id,
            title: args.title,
            parent_id: args.parent_id,
            description: args.description,
            priority: args.priority,
            due_date: match args.due_date {
                Some(due_date) => Some(due_date.0),
                None => None,
            },
            estimated_minutes: match args.estimated_minutes {
                Some(estimate) => Some(estimate.get()),
                None => None,
            },
            location: args.location,
            url: match args.url {
                Some(url) => Some(url.0),
                None => None,
            },
            status: args.status,
            updated_at: now,
            completed_at: match args.status {
                Some(status) => match status {
                    TodoStatus::Done => Some(now),
                    TodoStatus::Cancelled => Some(now),
                    _ => None,
                },
                None => None,
            },
        },
    )
}

/// The change that a `close todo` command asks for, made at `now`: the todo
/// is done, and it is completed and updated at `now`. The identifier of the
/// todo is required.
pub fn parse_close_todo_command_matches(id: Option<i32>, now: Timestamp) -> (result: TuduResult<
    CloseTodo,
>)
    ensures
        match result {
            Ok(close) => id == Some(close.id) && close.status == TodoStatus::Done
                && close.completed_at == now && close.updated_at == now,
            Err(error) => id is None && error == TuduError::RequiredArgumentError,
        },
{
    match id {
        Some(id) => Ok(CloseTodo { id, updated_at: now, status: TodoStatus::Done, completed_at: now }),
        None => Err(TuduError::RequiredArgumentError),
    }
}

/// The todo that a `view todo` command shows. The identifier is required.
pub fn parse_view_todo_command_matches(id: Option<i32>) -> (result: TuduResult<i32>)
    ensures
        match result {
            Ok(found) => id == Some(found),
            Err(error) => id is None && error == TuduError::RequiredArgumentError,
        },
{
    match id {
        Some(id) => Ok(id),
        None => Err(TuduError::RequiredArgumentError),
    }
}

/// The filter that an overview of todos asks for: a priority threshold, the
/// default priority where none is given, and whether done todos are shown.
pub fn parse_list_todo_command_matches(priority: Option<TodoPriority>, include_done: bool) -> (result:
    TuduResult<ListTodoFilters>)
    ensures
        result is Ok,
        result->Ok_0.include_done == include_done,
        result->Ok_0.priority == (match priority {
            Some(priority) => priority,
            None => TodoPriority::Medium,
        }),
{
    Ok(ListTodoFilters::new(priority, include_done))
}

/// What is said where a todo is refused because its parent has a parent.
pub open spec fn depth_complaint() -> Seq<char> {
    "Sub sub todos are not supported."@
}

/// A new todo would stand two levels below a main todo: it names a parent,
/// and that parent names a parent of its own.
pub open spec fn too_deep(new_todo: NewTodo, parents_parent_id: Option<i32>) -> bool {
    new_todo.parent_id is Some && parents_parent_id is Some
}

/// Decides whether a new todo may be written. `parents_parent_id` is the
/// parent reference that the store holds for the todo that the new one names
/// as its parent; it counts only where the new todo names a parent. A todo
/// that would stand two levels deep is refused, and refused with nothing to
/// write: only what is admitted comes back.
pub fn admit_new_todo(new_todo: NewTodo, parents_parent_id: Option<i32>) -> (result: TuduResult<
    NewTodo,
>)
    ensures
        match result {
            Ok(admitted) => !too_deep(new_todo, parents_parent_id) && admitted == new_todo,
            Err(error) => too_deep(new_todo, parents_parent_id) && error is UnSupportedError
                && error.detail() == Some(depth_complaint()),
        },
{
    if new_todo.parent_id.is_some() && parents_parent_id.is_some() {
        Err(TuduError::UnSupportedError("Sub sub todos are not supported.".to_string()))
    } else {
        Ok(new_todo)
    }
}

/// The hierarchy of `todos` is one level deep: a todo that is named as a
/// parent has no parent itself.
pub open spec fn one_level_deep(todos: Seq<Todo>) -> bool {
    forall|child: int, parent: int|
        #![trigger todos[child], todos[parent]]
        0 <= child < todos.len() && 0 <= parent < todos.len() && todos[child].is_child_of(
            todos[parent].id,
        ) ==> todos[parent].is_main()
}

/// No two todos of `todos` share an identifier.
pub open spec fn distinct_ids(todos: Seq<Todo>) -> bool {
    forall|first: int, second: int|
        #![trigger todos[first], todos[second]]
        0 <= first < second < todos.len() ==> todos[first].id != todos[second].id
}

/// `row` is new to `todos`: no todo has its identifier, and none names it as
/// its parent.
pub open spec fn is_new_to(row: Todo, todos: Seq<Todo>) -> bool {
    forall|at: int|
        0 <= at < todos.len() ==> (#[trigger] todos[at]).id != row.id && !todos[at].is_child_of(
            row.id,
        )
}

/// A store that writes only the todos that are admitted stays one level
/// deep. Here `todos` are the todos of the store, `parent_at` is where the
/// parent that the new todo names stands among them, if it names one, and
/// `row` is what the store writes for the new todo.
pub proof fn lemma_admitted_todo_keeps_depth(
    todos: Seq<Todo>,
    new_todo: NewTodo,
    parent_at: int,
    row: Todo,
)
    requires
        one_level_deep(todos),
        distinct_ids(todos),
        is_new_to(row, todos),
        row.parent_id == new_todo.parent_id,
        new_todo.parent_id matches Some(parent) ==> 0 <= parent_at < todos.len()
            && todos[parent_at].id == parent && !too_deep(new_todo, todos[parent_at].parent_id),
    ensures
        one_level_deep(todos.push(row)),
        distinct_ids(todos.push(row)),
{
    let after = todos.push(row);
    assert forall|child: int, parent: int|
        #![trigger after[child], after[parent]]
        0 <= child < after.len() && 0 <= parent < after.len() && after[child].is_child_of(
            after[parent].id,
        ) implies after[parent].is_main() by {
        if child < todos.len() && parent < todos.len() {
            assert(todos[child].is_child_of(todos[parent].id));
        } else if child < todos.len() {
            assert(!todos[child].is_child_of(row.id));
        } else if parent < todos.len() {
            assert(todos[parent_at].id == todos[parent].id);
            if parent_at < parent {
                assert(todos[parent_at].id != todos[parent].id);
            } else if parent < parent_at {
                assert(todos[parent].id != todos[parent_at].id);
            }
        } else {
            assert(todos[parent_at].id != row.id);
        }
    }
    assert forall|first: int, second: int|
        #![trigger after[first], after[second]]
        0 <= first < second < after.len() implies after[first].id != after[second].id by {
        if second < todos.len() {
            assert(todos[first].id != todos[second].id);
        } else {
            assert(todos[first].id != row.id);
        }
    }
}

} // verus!
