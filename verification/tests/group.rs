use tudu::todo::group::{organize_todos_hierarchically, TodoGroup};
use tudu::todo::order::{rank_of, sort_for_display};
use tudu::todo::sql::{Todo, TodoPriority, TodoStatus};

fn create_test_todo(id: i32, parent_id: Option<i32>, title: &str, priority: TodoPriority) -> Todo {
    Todo {
        id,
        project_id: 1,
        parent_id,
        title: title.to_string(),
        description: None,
        status: TodoStatus::ToDo,
        priority,
        due_date: None,
        estimated_minutes: None,
        location: None,
        url: None,
        created_at: None,
        updated_at: None,
        completed_at: None,
    }
}

fn with_status(mut todo: Todo, status: TodoStatus) -> Todo {
    todo.status = status;
    todo
}

fn ids(todos: &[Todo]) -> Vec<i32> {
    todos.iter().map(|todo| todo.id).collect()
}

fn shape(groups: &[TodoGroup]) -> Vec<(i32, Vec<i32>)> {
    groups.iter().map(|group| (group.main_todo.id, ids(&group.subtodos))).collect()
}

#[test]
fn test_organize_todos_hierarchically() {
    // Create test data
    let todos = vec![
        create_test_todo(1, None, "Main Task 1", TodoPriority::High),
        create_test_todo(2, Some(1), "Subtask 1.1", TodoPriority::Medium),
        create_test_todo(3, Some(1), "Subtask 1.2", TodoPriority::Low),
        create_test_todo(4, None, "Main Task 2", TodoPriority::Medium),
        create_test_todo(5, Some(4), "Subtask 2.1", TodoPriority::High),
        create_test_todo(6, None, "Main Task 3", TodoPriority::Low),
    ];

    let result = organize_todos_hierarchically(todos);

    // Should have 3 main todo groups
    assert_eq!(result.len(), 3);

    // Check first group (Main Task 1 - High priority should be first)
    assert_eq!(result[0].main_todo.title, "Main Task 1");
    assert_eq!(result[0].subtodos.len(), 2);
    assert_eq!(result[0].subtodos[0].title, "Subtask 1.1"); // Medium priority first
    assert_eq!(result[0].subtodos[1].title, "Subtask 1.2"); // Low priority second

    // Check second group (Main Task 2 - Medium priority)
    assert_eq!(result[1].main_todo.title, "Main Task 2");
    assert_eq!(result[1].subtodos.len(), 1);
    assert_eq!(result[1].subtodos[0].title, "Subtask 2.1");

    // Check third group (Main Task 3 - Low priority should be last)
    assert_eq!(result[2].main_todo.title, "Main Task 3");
    assert_eq!(result[2].subtodos.len(), 0);
}

#[test]
fn test_organize_todos_hierarchically_empty() {
    let todos = vec![];
    let result = organize_todos_hierarchically(todos);
    assert_eq!(result.len(), 0);
}

#[test]
fn test_organize_todos_hierarchically_only_main_todos() {
    let todos = vec![
        create_test_todo(1, None, "Main Task 1", TodoPriority::High),
        create_test_todo(2, None, "Main Task 2", TodoPriority::Low),
    ];

    let result = organize_todos_hierarchically(todos);

    assert_eq!(result.len(), 2);
    assert_eq!(result[0].main_todo.title, "Main Task 1"); // High priority first
    assert_eq!(result[0].subtodos.len(), 0);
    assert_eq!(result[1].main_todo.title, "Main Task 2"); // Low priority second
    assert_eq!(result[1].subtodos.len(), 0);
}

#[test]
fn organize_groups_children_under_their_main_todos() {
    let todos = vec![
        create_test_todo(1, None, "a", TodoPriority::High),
        create_test_todo(2, Some(1), "b", TodoPriority::Medium),
        create_test_todo(3, Some(1), "c", TodoPriority::Low),
        create_test_todo(4, None, "d", TodoPriority::Medium),
    ];
    let result = organize_todos_hierarchically(todos);
    assert_eq!(shape(&result), vec![(1, vec![2, 3]), (4, vec![])]);
}

#[test]
fn organize_orders_mains_by_priority_then_status() {
    let todos = vec![
        with_status(create_test_todo(1, None, "a", TodoPriority::Low), TodoStatus::ToDo),
        with_status(create_test_todo(2, None, "b", TodoPriority::High), TodoStatus::Cancelled),
        with_status(create_test_todo(3, None, "c", TodoPriority::Urgent), TodoStatus::Done),
        with_status(create_test_todo(4, None, "d", TodoPriority::High), TodoStatus::InProgress),
        with_status(create_test_todo(5, None, "e", TodoPriority::Urgent), TodoStatus::ToDo),
        with_status(create_test_todo(6, None, "f", TodoPriority::High), TodoStatus::Blocked),
        with_status(create_test_todo(7, None, "g", TodoPriority::Medium), TodoStatus::OnHold),
    ];
    let result = organize_todos_hierarchically(todos);
    let order: Vec<i32> = result.iter().map(|group| group.main_todo.id).collect();
    assert_eq!(order, vec![5, 3, 4, 6, 2, 7, 1]);
}

#[test]
fn organize_keeps_arrival_order_among_equals() {
    let todos = vec![
        create_test_todo(9, None, "first", TodoPriority::Medium),
        create_test_todo(3, None, "second", TodoPriority::Medium),
        create_test_todo(7, None, "third", TodoPriority::Medium),
        create_test_todo(12, Some(3), "x", TodoPriority::Low),
        create_test_todo(11, Some(3), "y", TodoPriority::Low),
        create_test_todo(10, Some(3), "z", TodoPriority::High),
    ];
    let result = organize_todos_hierarchically(todos);
    assert_eq!(shape(&result), vec![(9, vec![]), (3, vec![10, 12, 11]), (7, vec![])]);
}

#[test]
fn organize_drops_orphaned_children() {
    let todos = vec![
        create_test_todo(1, None, "main", TodoPriority::Low),
        create_test_todo(2, Some(99), "orphan", TodoPriority::Urgent),
        create_test_todo(3, Some(2), "child of a child", TodoPriority::Urgent),
        create_test_todo(4, Some(1), "child", TodoPriority::Low),
    ];
    let result = organize_todos_hierarchically(todos);
    assert_eq!(shape(&result), vec![(1, vec![4])]);
}

#[test]
fn organize_gives_children_to_the_first_of_two_mains_with_one_id() {
    let todos = vec![
        create_test_todo(1, None, "low", TodoPriority::Low),
        create_test_todo(2, Some(1), "child", TodoPriority::Low),
        create_test_todo(1, None, "high", TodoPriority::High),
    ];
    let result = organize_todos_hierarchically(todos);
    assert_eq!(result.len(), 2);
    assert_eq!(result[0].main_todo.title, "high");
    assert_eq!(ids(&result[0].subtodos), vec![2]);
    assert_eq!(result[1].main_todo.title, "low");
    assert_eq!(result[1].subtodos.len(), 0);
}

#[test]
fn organize_loses_and_adds_nothing() {
    let todos = vec![
        create_test_todo(1, None, "a", TodoPriority::High),
        create_test_todo(2, Some(1), "b", TodoPriority::Medium),
        create_test_todo(3, Some(8), "c", TodoPriority::Low),
        create_test_todo(4, None, "d", TodoPriority::Urgent),
        create_test_todo(5, Some(4), "e", TodoPriority::Medium),
        create_test_todo(6, Some(4), "f", TodoPriority::Urgent),
    ];
    let result = organize_todos_hierarchically(todos);
    let mut seen: Vec<i32> = Vec::new();
    for group in &result {
        seen.push(group.main_todo.id);
        seen.extend(ids(&group.subtodos));
    }
    seen.sort();
    assert_eq!(seen, vec![1, 2, 4, 5, 6]);
}

#[test]
fn organize_again_yields_the_same_groups() {
    let todos = vec![
        create_test_todo(1, None, "a", TodoPriority::Low),
        create_test_todo(2, Some(1), "b", TodoPriority::Medium),
        create_test_todo(3, Some(1), "c", TodoPriority::Urgent),
        create_test_todo(4, None, "d", TodoPriority::Urgent),
        create_test_todo(5, Some(4), "e", TodoPriority::Medium),
    ];
    let first = organize_todos_hierarchically(todos);
    let mut flat: Vec<Todo> = Vec::new();
    for group in &first {
        flat.push(group.main_todo.clone());
        flat.extend(group.subtodos.iter().cloned());
    }
    assert_eq!(ids(&flat), vec![4, 5, 1, 3, 2]);
    let second = organize_todos_hierarchically(flat);
    assert_eq!(shape(&second), shape(&first));
}

#[test]
fn todo_group_collects_subtodos_in_the_order_added() {
    let mut group = TodoGroup::new(create_test_todo(1, None, "main", TodoPriority::Low));
    assert_eq!(group.subtodos.len(), 0);
    group.add_subtodo(create_test_todo(3, Some(1), "x", TodoPriority::Low));
    group.add_subtodo(create_test_todo(2, Some(1), "y", TodoPriority::Urgent));
    assert_eq!(group.main_todo.id, 1);
    assert_eq!(ids(&group.subtodos), vec![3, 2]);
}

#[test]
fn rank_is_priority_descending_then_status_ascending() {
    let urgent_todo = with_status(create_test_todo(1, None, "a", TodoPriority::Urgent), TodoStatus::ToDo);
    let low_cancelled = with_status(create_test_todo(2, None, "b", TodoPriority::Low), TodoStatus::Cancelled);
    let medium_done = with_status(create_test_todo(3, None, "c", TodoPriority::Medium), TodoStatus::Done);
    assert_eq!(rank_of(&urgent_todo), 0);
    assert_eq!(rank_of(&low_cancelled), 23);
    assert_eq!(rank_of(&medium_done), 14);
}

#[test]
fn sort_for_display_is_stable() {
    let todos = vec![
        create_test_todo(1, None, "a", TodoPriority::Low),
        create_test_todo(2, None, "b", TodoPriority::High),
        create_test_todo(3, None, "c", TodoPriority::Low),
        create_test_todo(4, None, "d", TodoPriority::High),
        with_status(create_test_todo(5, None, "e", TodoPriority::High), TodoStatus::InProgress),
    ];
    assert_eq!(ids(&sort_for_display(todos)), vec![2, 4, 5, 1, 3]);
    assert_eq!(sort_for_display(Vec::new()).len(), 0);
}
