//! What the project commands make of their arguments.

use vstd::prelude::*;

use crate::arg::{parse_required_project_id, ValidHexColor};
use crate::datetime::Timestamp;
use crate::error::{TuduError, TuduResult};
use crate::project::sql::{NewProject, UpdateProject};
use crate::todo::group::{group_views, organize_todos_hierarchically, organized, TodoGroup};
use crate::todo::sql::{Todo, TodoStatus};

verus! {

/// The text of a color, if one is given.
pub open spec fn color_text(color: Option<ValidHexColor>) -> Option<Seq<char>> {
    match color {
        Some(color) => Some(color.0@),
        None => None,
    }
}

/// The text, if one is given.
pub open spec fn text_of(text: Option<String>) -> Option<Seq<char>> {
    match text {
        Some(text) => Some(text@),
        None => None,
    }
}

/// The project that a `new project` command asks for. The name is required.
pub fn parse_new_project_command_matches(
    name: Option<String>,
    description: Option<String>,
    color: Option<ValidHexColor>,
) -> (result: TuduResult<NewProject>)
    ensures
        match result {
            Ok(project) => name == Some(project.name) && project.description == description
                && text_of(project.color) == color_text(color),
            Err(error) => name is None && error == TuduError::RequiredArgumentError,
        },
{
    match name {
        Some(name) => Ok(
            NewProject {
                name,
                description,
                color: match color {
                    Some(color) => Some(color.0),
                    None => None,
                },
            },
        ),
        None => Err(TuduError::RequiredArgumentError),
    }
}

/// The changes that an `update project` command asks for, made at `now`. The
/// project is the one given or, where none is given, the configured one.
pub fn parse_update_project_command_matches(
    given: Option<i32>,
    configured: Option<i32>,
    name: Option<String>,
    description: Option<String>,
    color: Option<ValidHexColor>,
    now: Timestamp,
) -> (result: TuduResult<UpdateProject>)
    ensures
        match result {
            Ok(update) => {
                &&& given == Some(update.id) || (given is None && configured == Some(update.id))
                &&& update.name == name
                &&& update.description == description
                &&& text_of(update.color) == color_text(color)
                &&& update.updated_at == now
            },
            Err(error) => given is None && configured is None && error
                == TuduError::RequiredArgumentError,
        },
{
    match parse_required_project_id(given, configured) {
        Ok(id) => Ok(
            UpdateProject {
                id,
                name,
                description,
                color: match color {
                    Some(color) => Some(color.0),
                    None => None,
                },
                updated_at: now,
            },
        ),
        Err(error) => Err(error),
    }
}

/// The project that a `close project` command closes.
pub fn parse_close_project_command_matches(given: Option<i32>, configured: Option<i32>) -> (result:
    TuduResult<i32>)
    ensures
        match result {
            Ok(id) => given == Some(id) || (given is None && configured == Some(id)),
            Err(error) => given is None && configured is None && error
                == TuduError::RequiredArgumentError,
        },
{
    parse_required_project_id(given, configured)
}

/// The project that a `view project` command shows.
pub fn parse_view_project_command_matches(given: Option<i32>, configured: Option<i32>) -> (result:
    TuduResult<i32>)
    ensures
        match result {
            Ok(id) => given == Some(id) || (given is None && configured == Some(id)),
            Err(error) => given is None && configured is None && error
                == TuduError::RequiredArgumentError,
        },
{
    parse_required_project_id(given, configured)
}

/// The todos that the view of a project shows: those of the project that are
/// not done.
pub open spec fn is_shown_in(project_id: i32) -> spec_fn(Todo) -> bool {
    |todo: Todo| todo.project_id == project_id && todo.status != TodoStatus::Done
}

/// The view of a project: its todos that are not done, organized into
/// groups.
pub fn project_view(project_id: i32, todos: Vec<Todo>) -> (groups: Vec<TodoGroup>)
    ensures
        group_views(groups@) == organized(todos@.filter(is_shown_in(project_id))),
{
    let ghost input = todos@;
    let mut shown: Vec<Todo> = Vec::new();
    proof {
        reveal(Seq::filter);
        assert(input.take(0) =~= Seq::<Todo>::empty());
    }
    for todo in it: todos
        invariant
            it.seq() == input,
            shown@ == input.take(it.index() as int).filter(is_shown_in(project_id)),
    {
        proof {
            assert(input.take(it.index() + 1) =~= input.take(it.index() as int).push(todo));
            input.take(it.index() as int).lemma_filter_push(todo, is_shown_in(project_id));
        }
        if todo.project_id == project_id && todo.status != TodoStatus::Done {
            shown.push(todo);
        }
    }
    proof {
        assert(input.take(input.len() as int) =~= input);
    }
    organize_todos_hierarchically(shown)
}

} // verus!
