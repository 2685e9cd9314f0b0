use tudu::datetime::Timestamp;
use tudu::todo::filter::{list, overview, Comparison, DueDateFilter, ListTodoFilters, TodoFilter};
use tudu::todo::sql::{Todo, TodoPriority, TodoStatus};

fn todo(
    id: i32,
    project_id: i32,
    priority: TodoPriority,
    status: TodoStatus,
    due: Option<i64>,
) -> Todo {
    Todo {
        id,
        project_id,
        parent_id: None,
        title: format!("todo {}", id),
        description: None,
        status,
        priority,
        due_date: due.map(|secs| Timestamp::new(secs, 0)),
        estimated_minutes: None,
        location: None,
        url: None,
        created_at: None,
        updated_at: None,
        completed_at: None,
    }
}

fn sample() -> Vec<Todo> {
    vec![
        todo(1, 1, TodoPriority::Low, TodoStatus::ToDo, Some(100)),
        todo(2, 1, TodoPriority::High, TodoStatus::Done, Some(200)),
        todo(3, 2, TodoPriority::High, TodoStatus::ToDo, Some(300)),
        todo(4, 1, TodoPriority::Medium, TodoStatus::Blocked, None),
        todo(5, 2, TodoPriority::Urgent, TodoStatus::Done, Some(200)),
        todo(6, 1, TodoPriority::High, TodoStatus::ToDo, Some(201)),
    ]
}

fn ids(todos: &[Todo]) -> Vec<i32> {
    todos.iter().map(|todo| todo.id).collect()
}

#[test]
fn greater_than_takes_precedence() {
    assert_eq!(Comparison::resolve(true, false), Comparison::GreaterThan);
    assert_eq!(Comparison::resolve(true, true), Comparison::GreaterThan);
    assert_eq!(Comparison::resolve(false, true), Comparison::LessThan);
    assert_eq!(Comparison::resolve(false, false), Comparison::Equal);
}

#[test]
fn comparison_orders_by_seconds_then_nanoseconds() {
    let early = Timestamp::new(10, 999_999_999);
    let late = Timestamp::new(11, 0);
    let later = Timestamp::new(11, 1);
    assert!(Comparison::GreaterThan.test(&late, &early));
    assert!(Comparison::GreaterThan.test(&later, &late));
    assert!(!Comparison::GreaterThan.test(&late, &late));
    assert!(!Comparison::GreaterThan.test(&early, &late));
    assert!(Comparison::LessThan.test(&early, &late));
    assert!(!Comparison::LessThan.test(&later, &late));
    assert!(Comparison::Equal.test(&late, &Timestamp::new(11, 0)));
    assert!(!Comparison::Equal.test(&late, &later));
}

#[test]
fn filter_is_built_from_the_options() {
    let filter = TodoFilter::new(
        Some(7),
        Some(Timestamp::new(5, 6)),
        true,
        true,
        Some(TodoPriority::High),
        Some(TodoStatus::Blocked),
    );
    assert_eq!(
        filter,
        TodoFilter {
            project_id: Some(7),
            due_date: Some(DueDateFilter {
                date: Timestamp::new(5, 6),
                mode: Comparison::GreaterThan
            }),
            priority: Some(TodoPriority::High),
            status: Some(TodoStatus::Blocked),
        }
    );
    let bare = TodoFilter::new(None, None, true, false, None, None);
    assert_eq!(
        bare,
        TodoFilter { project_id: None, due_date: None, priority: None, status: None }
    );
}

#[test]
fn list_without_constraints_returns_everything_in_scope() {
    let everywhere = TodoFilter::new(None, None, false, false, None, None);
    assert_eq!(ids(&list(sample(), &everywhere)), vec![1, 2, 3, 4, 5, 6]);
    let in_project = TodoFilter::new(Some(1), None, false, false, None, None);
    assert_eq!(ids(&list(sample(), &in_project)), vec![1, 2, 4, 6]);
    let nowhere = TodoFilter::new(Some(3), None, false, false, None, None);
    assert_eq!(ids(&list(sample(), &nowhere)), Vec::<i32>::new());
    assert_eq!(list(Vec::new(), &everywhere).len(), 0);
}

#[test]
fn list_with_greater_than_returns_the_todos_due_later() {
    let date = Some(Timestamp::new(200, 0));
    let later = TodoFilter::new(None, date, true, false, None, None);
    assert_eq!(ids(&list(sample(), &later)), vec![3, 6]);
    let both_flags = TodoFilter::new(None, date, true, true, None, None);
    assert_eq!(ids(&list(sample(), &both_flags)), vec![3, 6]);
    let later_and_high_in_project =
        TodoFilter::new(Some(1), date, true, false, Some(TodoPriority::High), None);
    assert_eq!(ids(&list(sample(), &later_and_high_in_project)), vec![6]);
}

#[test]
fn list_with_less_than_and_with_equality() {
    let date = Some(Timestamp::new(200, 0));
    let earlier = TodoFilter::new(None, date, false, true, None, None);
    assert_eq!(ids(&list(sample(), &earlier)), vec![1]);
    let on_the_date = TodoFilter::new(None, date, false, false, None, None);
    assert_eq!(ids(&list(sample(), &on_the_date)), vec![2, 5]);
}

#[test]
fn list_combines_constraints_with_and() {
    let high = TodoFilter::new(None, None, false, false, Some(TodoPriority::High), None);
    assert_eq!(ids(&list(sample(), &high)), vec![2, 3, 6]);
    let done = TodoFilter::new(None, None, false, false, None, Some(TodoStatus::Done));
    assert_eq!(ids(&list(sample(), &done)), vec![2, 5]);
    let high_and_done =
        TodoFilter::new(None, None, false, false, Some(TodoPriority::High), Some(TodoStatus::Done));
    assert_eq!(ids(&list(sample(), &high_and_done)), vec![2]);
}

#[test]
fn a_todo_without_a_due_date_meets_no_constraint_on_it() {
    let undated = todo(4, 1, TodoPriority::Medium, TodoStatus::Blocked, None);
    for (greater_than, less_than) in [(true, false), (false, true), (false, false)] {
        let filter =
            TodoFilter::new(None, Some(Timestamp::new(0, 0)), greater_than, less_than, None, None);
        assert!(!filter.matches(&undated));
    }
    assert!(TodoFilter::new(None, None, true, true, None, None).matches(&undated));
}

#[test]
fn overview_leaves_out_done_todos_at_the_threshold_only() {
    let filters = ListTodoFilters::new(Some(TodoPriority::High), false);
    assert_eq!(ids(&overview(sample(), &filters)), vec![3, 5, 6]);
    let with_done = ListTodoFilters::new(Some(TodoPriority::High), true);
    assert_eq!(ids(&overview(sample(), &with_done)), vec![2, 3, 5, 6]);
}

#[test]
fn overview_threshold_defaults_to_medium() {
    let filters = ListTodoFilters::new(None, false);
    assert_eq!(filters, ListTodoFilters { priority: TodoPriority::Medium, include_done: false });
    assert_eq!(ids(&overview(sample(), &filters)), vec![2, 3, 4, 5, 6]);
    let low = ListTodoFilters::new(Some(TodoPriority::Low), false);
    assert_eq!(ids(&overview(sample(), &low)), vec![1, 2, 3, 4, 5, 6]);
    let urgent = ListTodoFilters::new(Some(TodoPriority::Urgent), false);
    assert_eq!(ids(&overview(sample(), &urgent)), Vec::<i32>::new());
}
