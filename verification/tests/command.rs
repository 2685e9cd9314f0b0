use tudu::arg::{ValidDateTime, ValidHexColor, ValidMinutes, ValidUrl};
use tudu::datetime::Timestamp;
use tudu::error::TuduError;
use tudu::project::command::{
    parse_close_project_command_matches, parse_new_project_command_matches,
    parse_update_project_command_matches, parse_view_project_command_matches, project_view,
};
use tudu::todo::command::{
    admit_new_todo, parse_close_todo_command_matches, parse_list_todo_command_matches,
    parse_new_todo_command_matches, parse_update_todo_command_matches,
    parse_view_todo_command_matches, NewTodoArgs, UpdateTodoArgs,
};
use tudu::todo::sql::{NewTodo, Todo, TodoPriority, TodoStatus};

fn new_args() -> NewTodoArgs {
    NewTodoArgs {
        project_id: Some(3),
        title: Some("Write the report".to_string()),
        parent_id: None,
        description: None,
        priority: None,
        due_date: None,
        estimated_minutes: None,
        location: None,
        url: None,
    }
}

fn update_args() -> UpdateTodoArgs {
    UpdateTodoArgs {
        id: Some(8),
        project_id: None,
        parent_id: None,
        title: None,
        description: None,
        status: None,
        priority: None,
        due_date: None,
        estimated_minutes: None,
        location: None,
        url: None,
    }
}

fn new_todo(parent_id: Option<i32>) -> NewTodo {
    let mut args = new_args();
    args.parent_id = parent_id;
    parse_new_todo_command_matches(args, None).unwrap()
}

fn stored(id: i32, project_id: i32, parent_id: Option<i32>, status: TodoStatus) -> Todo {
    Todo {
        id,
        project_id,
        parent_id,
        title: format!("todo {}", id),
        description: None,
        status,
        priority: TodoPriority::Medium,
        due_date: None,
        estimated_minutes: None,
        location: None,
        url: None,
        created_at: None,
        updated_at: None,
        completed_at: None,
    }
}

#[test]
fn new_todo_takes_its_defaults() {
    let todo = parse_new_todo_command_matches(new_args(), Some(9)).unwrap();
    assert_eq!(todo.project_id, 3);
    assert_eq!(todo.title, "Write the report");
    assert_eq!(todo.parent_id, None);
    assert_eq!(todo.description, None);
    assert_eq!(todo.status, TodoStatus::ToDo);
    assert_eq!(todo.priority, TodoPriority::Medium);
    assert_eq!(todo.due_date, None);
    assert_eq!(todo.estimated_minutes, None);
    assert_eq!(todo.location, None);
    assert_eq!(todo.url, None);
    assert_eq!(todo.created_at, None);
    assert_eq!(todo.updated_at, None);
    assert_eq!(todo.completed_at, None);
}

#[test]
fn new_todo_keeps_what_is_given() {
    let args = NewTodoArgs {
        project_id: None,
        title: Some("Call".to_string()),
        parent_id: Some(4),
        description: Some("about the offer".to_string()),
        priority: Some(TodoPriority::Urgent),
        due_date: Some(ValidDateTime(Timestamp::new(1_705_314_600, 0))),
        estimated_minutes: ValidMinutes::new(15),
        location: Some("Office".to_string()),
        url: Some(ValidUrl("https://example.com/offer".to_string())),
    };
    let todo = parse_new_todo_command_matches(args, Some(9)).unwrap();
    assert_eq!(todo.project_id, 9);
    assert_eq!(todo.title, "Call");
    assert_eq!(todo.parent_id, Some(4));
    assert_eq!(todo.description.as_deref(), Some("about the offer"));
    assert_eq!(todo.priority, TodoPriority::Urgent);
    assert_eq!(todo.due_date, Some(Timestamp::new(1_705_314_600, 0)));
    assert_eq!(todo.estimated_minutes, Some(15));
    assert_eq!(todo.location.as_deref(), Some("Office"));
    assert_eq!(todo.url.as_deref(), Some("https://example.com/offer"));
    assert_eq!(todo.status, TodoStatus::ToDo);
}

#[test]
fn new_todo_requires_project_and_title() {
    let mut without_project = new_args();
    without_project.project_id = None;
    assert!(matches!(
        parse_new_todo_command_matches(without_project, None),
        Err(TuduError::RequiredArgumentError)
    ));
    let mut without_title = new_args();
    without_title.title = None;
    assert!(matches!(
        parse_new_todo_command_matches(without_title, Some(1)),
        Err(TuduError::RequiredArgumentError)
    ));
}

#[test]
fn update_todo_completes_where_the_status_ends_the_work() {
    let now = Timestamp::new(1_700_000_000, 42);
    for (status, completed) in [
        (Some(TodoStatus::Done), Some(now)),
        (Some(TodoStatus::Cancelled), Some(now)),
        (Some(TodoStatus::ToDo), None),
        (Some(TodoStatus::InProgress), None),
        (Some(TodoStatus::Blocked), None),
        (Some(TodoStatus::OnHold), None),
        (None, None),
    ] {
        let mut args = update_args();
        args.status = status;
        let update = parse_update_todo_command_matches(args, now).unwrap();
        assert_eq!(update.id, 8);
        assert_eq!(update.status, status);
        assert_eq!(update.updated_at, now);
        assert_eq!(update.completed_at, completed);
    }
}

#[test]
fn update_todo_keeps_what_is_given() {
    let now = Timestamp::new(50, 0);
    let args = UpdateTodoArgs {
        id: Some(2),
        project_id: Some(5),
        parent_id: Some(1),
        title: Some("t".to_string()),
        description: Some("d".to_string()),
        status: Some(TodoStatus::Blocked),
        priority: Some(TodoPriority::Low),
        due_date: Some(ValidDateTime(Timestamp::new(60, 7))),
        estimated_minutes: ValidMinutes::new(90),
        location: Some("Home".to_string()),
        url: Some(ValidUrl("https://example.org/".to_string())),
    };
    let update = parse_update_todo_command_matches(args, now).unwrap();
    assert_eq!(update.id, 2);
    assert_eq!(update.project_id, Some(5));
    assert_eq!(update.parent_id, Some(1));
    assert_eq!(update.title.as_deref(), Some("t"));
    assert_eq!(update.description.as_deref(), Some("d"));
    assert_eq!(update.status, Some(TodoStatus::Blocked));
    assert_eq!(update.priority, Some(TodoPriority::Low));
    assert_eq!(update.due_date, Some(Timestamp::new(60, 7)));
    assert_eq!(update.estimated_minutes, Some(90));
    assert_eq!(update.location.as_deref(), Some("Home"));
    assert_eq!(update.url.as_deref(), Some("https://example.org/"));
    assert_eq!(update.completed_at, None);
}

#[test]
fn update_todo_requires_the_identifier() {
    let mut args = update_args();
    args.id = None;
    assert!(matches!(
        parse_update_todo_command_matches(args, Timestamp::new(0, 0)),
        Err(TuduError::RequiredArgumentError)
    ));
}

#[test]
fn closing_a_todo_sets_done_and_both_times() {
    let now = Timestamp::new(1_705_314_600, 123_456_789);
    let close = parse_close_todo_command_matches(Some(12), now).unwrap();
    assert_eq!(close.id, 12);
    assert_eq!(close.status, TodoStatus::Done);
    assert_eq!(close.completed_at, now);
    assert_eq!(close.updated_at, now);
    assert!(matches!(
        parse_close_todo_command_matches(None, now),
        Err(TuduError::RequiredArgumentError)
    ));
}

#[test]
fn view_todo_requires_the_identifier() {
    assert_eq!(parse_view_todo_command_matches(Some(5)).unwrap(), 5);
    assert!(matches!(
        parse_view_todo_command_matches(None),
        Err(TuduError::RequiredArgumentError)
    ));
}

#[test]
fn list_todo_filters_default_to_medium() {
    let filters = parse_list_todo_command_matches(None, true).unwrap();
    assert_eq!(filters.priority, TodoPriority::Medium);
    assert!(filters.include_done);
    let filters = parse_list_todo_command_matches(Some(TodoPriority::Low), false).unwrap();
    assert_eq!(filters.priority, TodoPriority::Low);
    assert!(!filters.include_done);
}

#[test]
fn a_todo_under_a_child_is_refused() {
    match admit_new_todo(new_todo(Some(4)), Some(1)) {
        Err(TuduError::UnSupportedError(message)) => {
            assert_eq!(message, "Sub sub todos are not supported.")
        }
        other => panic!("admitted or refused otherwise: {:?}", other),
    }
}

#[test]
fn a_todo_under_a_main_todo_is_admitted() {
    let admitted = admit_new_todo(new_todo(Some(4)), None).unwrap();
    assert_eq!(admitted.parent_id, Some(4));
    assert_eq!(admitted.title, "Write the report");
}

#[test]
fn a_main_todo_is_admitted_whatever_the_store_says() {
    assert_eq!(admit_new_todo(new_todo(None), None).unwrap().parent_id, None);
    assert_eq!(admit_new_todo(new_todo(None), Some(7)).unwrap().parent_id, None);
}

#[test]
fn new_project_requires_the_name() {
    let project = parse_new_project_command_matches(
        Some("Home".to_string()),
        Some("chores".to_string()),
        Some(ValidHexColor("#ff0000".to_string())),
    )
    .unwrap();
    assert_eq!(project.name, "Home");
    assert_eq!(project.description.as_deref(), Some("chores"));
    assert_eq!(project.color.as_deref(), Some("#ff0000"));
    let bare = parse_new_project_command_matches(Some("Work".to_string()), None, None).unwrap();
    assert_eq!(bare.name, "Work");
    assert_eq!(bare.description, None);
    assert_eq!(bare.color, None);
    assert!(matches!(
        parse_new_project_command_matches(None, Some("chores".to_string()), None),
        Err(TuduError::RequiredArgumentError)
    ));
}

#[test]
fn update_project_takes_the_given_or_the_configured_project() {
    let now = Timestamp::new(77, 1);
    let update = parse_update_project_command_matches(
        Some(2),
        Some(9),
        Some("n".to_string()),
        None,
        Some(ValidHexColor("#abc".to_string())),
        now,
    )
    .unwrap();
    assert_eq!(update.id, 2);
    assert_eq!(update.name.as_deref(), Some("n"));
    assert_eq!(update.description, None);
    assert_eq!(update.color.as_deref(), Some("#abc"));
    assert_eq!(update.updated_at, now);
    let configured =
        parse_update_project_command_matches(None, Some(9), None, None, None, now).unwrap();
    assert_eq!(configured.id, 9);
    assert!(matches!(
        parse_update_project_command_matches(None, None, None, None, None, now),
        Err(TuduError::RequiredArgumentError)
    ));
}

#[test]
fn close_and_view_project_need_a_project() {
    assert_eq!(parse_close_project_command_matches(Some(1), None).unwrap(), 1);
    assert_eq!(parse_close_project_command_matches(None, Some(4)).unwrap(), 4);
    assert!(matches!(
        parse_close_project_command_matches(None, None),
        Err(TuduError::RequiredArgumentError)
    ));
    assert_eq!(parse_view_project_command_matches(Some(1), Some(2)).unwrap(), 1);
    assert_eq!(parse_view_project_command_matches(None, Some(2)).unwrap(), 2);
    assert!(matches!(
        parse_view_project_command_matches(None, None),
        Err(TuduError::RequiredArgumentError)
    ));
}

#[test]
fn project_view_shows_the_open_todos_of_the_project() {
    let todos = vec![
        stored(1, 1, None, TodoStatus::ToDo),
        stored(2, 1, Some(1), TodoStatus::Done),
        stored(3, 1, Some(1), TodoStatus::InProgress),
        stored(4, 2, None, TodoStatus::ToDo),
        stored(5, 1, None, TodoStatus::Done),
        stored(6, 1, Some(5), TodoStatus::ToDo),
        stored(7, 1, None, TodoStatus::Cancelled),
    ];
    let groups = project_view(1, todos);
    let shape: Vec<(i32, Vec<i32>)> = groups
        .iter()
        .map(|group| (group.main_todo.id, group.subtodos.iter().map(|todo| todo.id).collect()))
        .collect();
    assert_eq!(shape, vec![(1, vec![3]), (7, vec![])]);
}

#[test]
fn an_estimate_reaches_a_todo_only_where_it_is_not_negative() {
    let mut args = new_args();
    args.estimated_minutes = ValidMinutes::new(-5);
    assert_eq!(parse_new_todo_command_matches(args, None).unwrap().estimated_minutes, None);
    let mut args = new_args();
    args.estimated_minutes = ValidMinutes::parse("0").ok();
    assert_eq!(parse_new_todo_command_matches(args, None).unwrap().estimated_minutes, Some(0));
    let mut args = update_args();
    args.estimated_minutes = ValidMinutes::parse("-5").ok();
    let update = parse_update_todo_command_matches(args, Timestamp::new(0, 0)).unwrap();
    assert_eq!(update.estimated_minutes, None);
}
