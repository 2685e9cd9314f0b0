//! The filters that select todos: optional constraints, all of which a todo
//! must meet.

use vstd::prelude::*;

use crate::datetime::Timestamp;
use crate::seq_facts::{lemma_filter_agree, lemma_filter_all_or_none};
use crate::todo::sql::{Todo, TodoPriority, TodoStatus};

verus! {

/// How a due date is compared with the date of a filter.
#[derive(Debug, Copy, Clone, PartialEq, Eq, Structural)]
pub enum Comparison {
    Equal,
    GreaterThan,
    LessThan,
}

impl Comparison {
    /// The comparison that the two flags ask for: greater-than if its flag
    /// is set, whatever the other says; else less-than if its flag is set;
    /// else equality.
    pub open spec fn resolved(greater_than: bool, less_than: bool) -> Comparison {
        if greater_than {
            Comparison::GreaterThan
        } else if less_than {
            Comparison::LessThan
        } else {
            Comparison::Equal
        }
    }

    /// `value` compares with `bound` as the comparison asks.
    pub open spec fn holds(self, value: Timestamp, bound: Timestamp) -> bool {
        match self {
            Comparison::Equal => value == bound,
            Comparison::GreaterThan => bound.before(value),
            Comparison::LessThan => value.before(bound),
        }
    }

    /// Resolves the two comparison flags of a command.
    pub fn resolve(greater_than: bool, less_than: bool) -> (mode: Comparison)
        ensures
            mode == Self::resolved(greater_than, less_than),
    {
        if greater_than {
            Comparison::GreaterThan
        } else if less_than {
            Comparison::LessThan
        } else {
            Comparison::Equal
        }
    }

    /// Whether `value` compares with `bound` as the comparison asks.
    pub fn test(&self, value: &Timestamp, bound: &Timestamp) -> (r: bool)
        ensures
            r == self.holds(*value, *bound),
    {
        match self {
            Comparison::Equal => value.secs == bound.secs && value.nanos == bound.nanos,
            Comparison::GreaterThan => value.is_after(bound),
            Comparison::LessThan => value.is_before(bound),
        }
    }
}

/// A constraint on the due date of a todo.
#[derive(Debug, Copy, Clone, PartialEq, Eq, Structural)]
pub struct DueDateFilter {
    pub date: Timestamp,
    pub mode: Comparison,
}

impl DueDateFilter {
    /// A todo without a due date meets no constraint on it.
    pub open spec fn admits(self, due_date: Option<Timestamp>) -> bool {
        due_date matches Some(value) && self.mode.holds(value, self.date)
    }

    pub fn matches(&self, due_date: &Option<Timestamp>) -> (r: bool)
        ensures
            r == self.admits(*due_date),
    {
        match due_date {
            Some(value) => self.mode.test(value, &self.date),
            None => false,
        }
    }
}

/// The constraints of a listing. A constraint that is absent constrains
/// nothing; those that are present must all be met.
#[derive(Debug, Copy, Clone, PartialEq, Eq, Structural)]
pub struct TodoFilter {
    /// The project to which the listing is confined, if it is.
    pub project_id: Option<i32>,
    pub due_date: Option<DueDateFilter>,
    pub priority: Option<TodoPriority>,
    pub status: Option<TodoStatus>,
}

impl TodoFilter {
    /// The filter admits `todo`: the todo is in scope and meets every
    /// constraint that the filter holds.
    pub open spec fn admits(self, todo: Todo) -> bool {
        &&& self.project_id matches Some(project_id) ==> todo.project_id == project_id
        &&& self.due_date matches Some(due_date) ==> due_date.admits(todo.due_date)
        &&& self.priority matches Some(priority) ==> todo.priority == priority
        &&& self.status matches Some(status) ==> todo.status == status
    }

    /// The todos that the filter admits.
    pub open spec fn admitted(self) -> spec_fn(Todo) -> bool {
        |todo: Todo| self.admits(todo)
    }

    /// The filter that the options of a listing ask for. The two flags
    /// matter only where a due date is given.
    pub open spec fn built(
        project_id: Option<i32>,
        due_date: Option<Timestamp>,
        greater_than: bool,
        less_than: bool,
        priority: Option<TodoPriority>,
        status: Option<TodoStatus>,
    ) -> TodoFilter {
        TodoFilter {
            project_id,
            due_date: match due_date {
                Some(date) => Some(
                    DueDateFilter { date, mode: Comparison::resolved(greater_than, less_than) },
                ),
                None => None,
            },
            priority,
            status,
        }
    }

    /// Builds the filter of a listing from the options of its command.
    pub fn new(
        project_id: Option<i32>,
        due_date: Option<Timestamp>,
        greater_than: bool,
        less_than: bool,
        priority: Option<TodoPriority>,
        status: Option<TodoStatus>,
    ) -> (filter: TodoFilter)
        ensures
            filter == Self::built(project_id, due_date, greater_than, less_than, priority, status),
    {
        let due_date = match due_date {
            Some(date) => Some(
                DueDateFilter { date, mode: Comparison::resolve(greater_than, less_than) },
            ),
            None => None,
        };
        TodoFilter { project_id, due_date, priority, status }
    }

    /// Whether the filter admits `todo`.
    pub fn matches(&self, todo: &Todo) -> (r: bool)
        ensures
            r == self.admits(*todo),
    {
        let in_scope = match self.project_id {
            Some(project_id) => todo.project_id == project_id,
            None => true,
        };
        let due = match &self.due_date {
            Some(due_date) => due_date.matches(&todo.due_date),
            None => true,
        };
        let priority = match self.priority {
            Some(priority) => todo.priority == priority,
            None => true,
        };
        let status = match self.status {
            Some(status) => todo.status == status,
            None => true,
        };
        in_scope && due && priority && status
    }
}

/// The todos of `todos` that `filter` admits, in the order in which they
/// stand in `todos`.
pub fn list(todos: Vec<Todo>, filter: &TodoFilter) -> (listed: Vec<Todo>)
    ensures
        listed@ == todos@.filter(filter.admitted()),
{
    let ghost input = todos@;
    let mut listed: Vec<Todo> = Vec::new();
    proof {
        reveal(Seq::filter);
        assert(input.take(0) =~= Seq::<Todo>::empty());
    }
    for todo in it: todos
        invariant
            it.seq() == input,
            listed@ == input.take(it.index() as int).filter(filter.admitted()),
    {
        proof {
            assert(input.take(it.index() + 1) =~= input.take(it.index() as int).push(todo));
            input.take(it.index() as int).lemma_filter_push(todo, filter.admitted());
        }
        if filter.matches(&todo) {
            listed.push(todo);
        }
    }
    proof {
        assert(input.take(input.len() as int) =~= input);
    }
    listed
}

/// With a due date and the greater-than flag, a listing holds exactly the
/// todos in scope that are due later than that date and meet the other
/// constraints given, whatever the less-than flag says.
pub proof fn lemma_greater_than_filter(
    todos: Seq<Todo>,
    project_id: Option<i32>,
    date: Timestamp,
    less_than: bool,
    priority: Option<TodoPriority>,
    status: Option<TodoStatus>,
)
    ensures
        todos.filter(
            TodoFilter::built(project_id, Some(date), true, less_than, priority, status).admitted(),
        ) == todos.filter(
            |todo: Todo|
                {
                    &&& todo.due_date matches Some(due) && date.before(due)
                    &&& project_id matches Some(scope) ==> todo.project_id == scope
                    &&& priority matches Some(wanted) ==> todo.priority == wanted
                    &&& status matches Some(wanted) ==> todo.status == wanted
                },
        ),
{
    let filter = TodoFilter::built(project_id, Some(date), true, less_than, priority, status);
    let later = |todo: Todo|
        {
            &&& todo.due_date matches Some(due) && date.before(due)
            &&& project_id matches Some(scope) ==> todo.project_id == scope
            &&& priority matches Some(wanted) ==> todo.priority == wanted
            &&& status matches Some(wanted) ==> todo.status == wanted
        };
    assert forall|i: int| 0 <= i < todos.len() implies filter.admitted()(#[trigger] todos[i])
        == later(todos[i]) by {}
    lemma_filter_agree(todos, filter.admitted(), later);
}

/// Without constraints a listing holds every todo in scope: all of them
/// where it is not confined to a project, else those of the project.
pub proof fn lemma_unconstrained_filter(
    todos: Seq<Todo>,
    project_id: Option<i32>,
    greater_than: bool,
    less_than: bool,
)
    ensures
        todos.filter(
            TodoFilter::built(project_id, None, greater_than, less_than, None, None).admitted(),
        ) == (match project_id {
            Some(scope) => todos.filter(|todo: Todo| todo.project_id == scope),
            None => todos,
        }),
{
    let filter = TodoFilter::built(project_id, None, greater_than, less_than, None, None);
    match project_id {
        Some(scope) => {
            let in_scope = |todo: Todo| todo.project_id == scope;
            assert forall|i: int| 0 <= i < todos.len() implies filter.admitted()(
                #[trigger] todos[i],
            ) == in_scope(todos[i]) by {}
            lemma_filter_agree(todos, filter.admitted(), in_scope);
        },
        None => {
            assert forall|i: int| 0 <= i < todos.len() implies filter.admitted()(
                #[trigger] todos[i],
            ) by {}
            lemma_filter_all_or_none(todos, filter.admitted());
        },
    }
}

/// The filter of an overview: a priority threshold, and whether todos that
/// are done are shown.
#[derive(Debug, Copy, Clone, PartialEq, Eq, Structural)]
pub struct ListTodoFilters {
    pub priority: TodoPriority,
    pub include_done: bool,
}

impl ListTodoFilters {
    /// The overview shows every todo above the threshold, and those at the
    /// threshold unless they are done and done todos are left out.
    pub open spec fn admits(self, todo: Todo) -> bool {
        if self.include_done {
            todo.priority == self.priority || todo.priority.ordinal() > self.priority.ordinal()
        } else {
            (todo.status != TodoStatus::Done && todo.priority == self.priority)
                || todo.priority.ordinal() > self.priority.ordinal()
        }
    }

    /// The todos that the overview shows.
    pub open spec fn admitted(self) -> spec_fn(Todo) -> bool {
        |todo: Todo| self.admits(todo)
    }

    /// The filter of an overview; without a priority the threshold is the
    /// default priority.
    pub fn new(priority: Option<TodoPriority>, include_done: bool) -> (filters: ListTodoFilters)
        ensures
            filters.include_done == include_done,
            filters.priority == (match priority {
                Some(priority) => priority,
                None => TodoPriority::Medium,
            }),
    {
        let priority = match priority {
            Some(priority) => priority,
            None => TodoPriority::default(),
        };
        ListTodoFilters { priority, include_done }
    }

    /// Whether the overview shows `todo`.
    pub fn matches(&self, todo: &Todo) -> (r: bool)
        ensures
            r == self.admits(*todo),
    {
        let above = todo.priority.to_sql() > self.priority.to_sql();
        let at = todo.priority == self.priority;
        if self.include_done {
            at || above
        } else {
            (todo.status != TodoStatus::Done && at) || above
        }
    }
}

/// The todos of `todos` that an overview shows, in the order in which they
/// stand in `todos`.
pub fn overview(todos: Vec<Todo>, filters: &ListTodoFilters) -> (shown: Vec<Todo>)
    ensures
        shown@ == todos@.filter(filters.admitted()),
{
    let ghost input = todos@;
    let mut shown: Vec<Todo> = Vec::new();
    proof {
        reveal(Seq::filter);
        assert(input.take(0) =~= Seq::<Todo>::empty());
    }
    for todo in it: todos
        invariant
            it.seq() == input,
            shown@ == input.take(it.index() as int).filter(filters.admitted()),
    {
        proof {
            assert(input.take(it.index() + 1) =~= input.take(it.index() as int).push(todo));
            input.take(it.index() as int).lemma_filter_push(todo, filters.admitted());
        }
        if filters.matches(&todo) {
            shown.push(todo);
        }
    }
    proof {
        assert(input.take(input.len() as int) =~= input);
    }
    shown
}

} // verus!
