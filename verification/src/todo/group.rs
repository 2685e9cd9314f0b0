//! Grouping a flat list of todos under their main todos.

use std::collections::HashMap;
use vstd::prelude::*;

use crate::todo::order::{display_order, lemma_display_order_empty, sort_for_display};
use crate::todo::sql::Todo;

verus! {

broadcast use vstd::std_specs::hash::group_hash_axioms;

/// Represents a hierarchical group of todos, with a main todo and its sub-todos.
#[derive(Debug)]
pub struct TodoGroup {
    /// The main todo item that acts as the parent.
    pub main_todo: Todo,
    /// A vector of sub-todos associated with the main todo.
    pub subtodos: Vec<Todo>,
}

/// What a `TodoGroup` holds: its main todo and the sequence of its sub-todos.
pub struct GroupView {
    pub main_todo: Todo,
    pub subtodos: Seq<Todo>,
}

impl View for TodoGroup {
    type V = GroupView;

    open spec fn view(&self) -> GroupView {
        GroupView { main_todo: self.main_todo, subtodos: self.subtodos@ }
    }
}

impl TodoGroup {
    /// Creates a new `TodoGroup` with a given main todo.
    pub fn new(main_todo: Todo) -> (group: Self)
        ensures
            group@ == (GroupView { main_todo, subtodos: Seq::empty() }),
    {
        Self { main_todo, subtodos: Vec::new() }
    }

    /// Adds a sub-todo to this group.
    pub fn add_subtodo(&mut self, subtodo: Todo)
        ensures
            final(self)@ == (GroupView {
                main_todo: old(self).main_todo,
                subtodos: old(self).subtodos@.push(subtodo),
            }),
    {
        self.subtodos.push(subtodo);
    }
}

/// The todos without a parent.
pub open spec fn is_main() -> spec_fn(Todo) -> bool {
    |todo: Todo| todo.is_main()
}

/// The todos whose parent reference is `parent`.
pub open spec fn is_child_of(parent: i32) -> spec_fn(Todo) -> bool {
    |todo: Todo| todo.is_child_of(parent)
}

/// The main todos of `todos`, in the order in which they stand there.
pub open spec fn main_todos(todos: Seq<Todo>) -> Seq<Todo> {
    todos.filter(is_main())
}

/// The todos of `todos` whose parent reference is `parent`, in the order in
/// which they stand there.
pub open spec fn children_of(todos: Seq<Todo>, parent: i32) -> Seq<Todo> {
    todos.filter(is_child_of(parent))
}

/// An earlier main todo of `mains` has the identifier of the one at `at`.
pub open spec fn id_seen_before(mains: Seq<Todo>, at: int) -> bool {
    exists|earlier: int| 0 <= earlier < at && (#[trigger] mains[earlier]).id == mains[at].id
}

/// The group of the main todo at `at` of `mains`: the children that `todos`
/// holds for its identifier, in display order. Where several main todos
/// share an identifier, the first of them has the children and the others
/// have none.
pub open spec fn group_at(todos: Seq<Todo>, mains: Seq<Todo>, at: int) -> GroupView {
    GroupView {
        main_todo: mains[at],
        subtodos: if id_seen_before(mains, at) {
            Seq::empty()
        } else {
            display_order(children_of(todos, mains[at].id))
        },
    }
}

/// The groups into which `todos` fall: one for each main todo, in display
/// order, each with its children in display order. A todo whose parent
/// reference names no main todo of `todos` is in no group.
pub open spec fn organized(todos: Seq<Todo>) -> Seq<GroupView> {
    let mains = display_order(main_todos(todos));
    Seq::new(mains.len(), |at: int| group_at(todos, mains, at))
}

/// What each group of `groups` holds.
pub open spec fn group_views(groups: Seq<TodoGroup>) -> Seq<GroupView> {
    Seq::new(groups.len(), |at: int| groups[at]@)
}

/// `buckets` holds, under each parent identifier, the children that `todos`
/// has for it, and no entry where there are none.
spec fn buckets_hold(buckets: Map<i32, Vec<Todo>>, todos: Seq<Todo>) -> bool {
    forall|parent: i32|
        #![trigger buckets.contains_key(parent)]
        #![trigger children_of(todos, parent)]
        children_of(todos, parent) == (if buckets.contains_key(parent) {
            buckets[parent]@
        } else {
            Seq::empty()
        })
}

/// Separates the main todos from the children, and collects the children
/// under their parent identifiers.
fn partition_by_parent(todos: Vec<Todo>) -> (parts: (Vec<Todo>, HashMap<i32, Vec<Todo>>))
    ensures
        parts.0@ == main_todos(todos@),
        buckets_hold(parts.1@, todos@),
{
    let ghost input = todos@;
    let mut main_list: Vec<Todo> = Vec::new();
    let mut subtodos_map: HashMap<i32, Vec<Todo>> = HashMap::new();
    proof {
        reveal(Seq::filter);
        assert(input.take(0) =~= Seq::<Todo>::empty());
    }
    for todo in it: todos
        invariant
            it.seq() == input,
            main_list@ == main_todos(input.take(it.index() as int)),
            buckets_hold(subtodos_map@, input.take(it.index() as int)),
    {
        let ghost seen = input.take(it.index() as int);
        let ghost before = subtodos_map@;
        proof {
            assert(input.take(it.index() + 1) =~= seen.push(todo));
            seen.lemma_filter_push(todo, is_main());
            assert forall|parent: i32|
                #[trigger] children_of(seen.push(todo), parent) == (if todo.is_child_of(parent) {
                    children_of(seen, parent).push(todo)
                } else {
                    children_of(seen, parent)
                }) by {
                seen.lemma_filter_push(todo, is_child_of(parent));
            }
        }
        match todo.parent_id {
            None => {
                main_list.push(todo);
            },
            Some(parent_id) => {
                let mut bucket = match subtodos_map.remove(&parent_id) {
                    Some(bucket) => bucket,
                    None => Vec::new(),
                };
                assert(bucket@ == children_of(seen, parent_id));
                bucket.push(todo);
                subtodos_map.insert(parent_id, bucket);
                assert forall|parent: i32|
                    children_of(seen.push(todo), parent) == (if #[trigger] subtodos_map@.contains_key(
                        parent,
                    ) {
                        subtodos_map@[parent]@
                    } else {
                        Seq::empty()
                    }) by {
                    if parent != parent_id {
                        assert(before.contains_key(parent) == subtodos_map@.contains_key(parent));
                        assert(children_of(seen.push(todo), parent) == children_of(seen, parent));
                    }
                }
            },
        }
    }
    proof {
        assert(input.take(input.len() as int) =~= input);
    }
    (main_list, subtodos_map)
}

/// Organizes a flat list of `Todo` items into a hierarchical structure of `TodoGroup`s.
///
/// Main todos are sorted by priority (descending) and then by status. Sub-todos within
/// each group are also sorted similarly.
pub fn organize_todos_hierarchically(todos: Vec<Todo>) -> (todo_groups: Vec<TodoGroup>)
    ensures
        group_views(todo_groups@) == organized(todos@),
{
    let ghost input = todos@;
    let (main_list, mut subtodos_map) = partition_by_parent(todos);
    let main_list = sort_for_display(main_list);
    let ghost mains = main_list@;
    let ghost buckets = subtodos_map@;

    let mut todo_groups: Vec<TodoGroup> = Vec::new();
    for main_todo in it: main_list
        invariant
            it.seq() == mains,
            mains == display_order(main_todos(input)),
            buckets_hold(buckets, input),
            forall|parent: i32|
                #![trigger subtodos_map@.contains_key(parent)]
                subtodos_map@.contains_key(parent) <==> buckets.contains_key(parent) && !(
                exists|earlier: int|
                    0 <= earlier < it.index() && (#[trigger] mains[earlier]).id == parent),
            forall|parent: i32|
                subtodos_map@.contains_key(parent) ==> #[trigger] subtodos_map@[parent]
                    == buckets[parent],
            todo_groups@.len() == it.index(),
            forall|at: int|
                0 <= at < it.index() ==> (#[trigger] todo_groups@[at])@ == group_at(
                    input,
                    mains,
                    at,
                ),
    {
        let ghost at = it.index() as int;
        let ghost before = subtodos_map@;
        let mut group = TodoGroup::new(main_todo);
        match subtodos_map.remove(&group.main_todo.id) {
            Some(subtodos) => {
                let subtodos = sort_for_display(subtodos);
                let ghost sorted = subtodos@;
                for subtodo in inner: subtodos
                    invariant
                        inner.seq() == sorted,
                        group.main_todo == main_todo,
                        group.subtodos@ == sorted.take(inner.index() as int),
                {
                    group.add_subtodo(subtodo);
                    assert(sorted.take(inner.index() + 1) =~= sorted.take(
                        inner.index() as int,
                    ).push(subtodo));
                }
                assert(sorted.take(sorted.len() as int) =~= sorted);
                assert(!id_seen_before(mains, at));
            },
            None => {
                proof {
                    lemma_display_order_empty();
                    if !id_seen_before(mains, at) {
                        assert(!before.contains_key(main_todo.id));
                        assert(!buckets.contains_key(main_todo.id));
                        assert(children_of(input, main_todo.id) == Seq::<Todo>::empty());
                    }
                }
            },
        }
        assert(group@ == group_at(input, mains, at));
        assert forall|parent: i32|
            subtodos_map@.contains_key(parent) <==> buckets.contains_key(parent) && !(exists|
                earlier: int,
            |
                0 <= earlier < at + 1 && (#[trigger] mains[earlier]).id == parent) by {
            if parent == main_todo.id {
                assert(mains[at].id == parent);
            } else {
                assert(before.contains_key(parent) == subtodos_map@.contains_key(parent));
                if exists|earlier: int|
                    0 <= earlier < at + 1 && (#[trigger] mains[earlier]).id == parent {
                    let earlier = choose|earlier: int|
                        0 <= earlier < at + 1 && (#[trigger] mains[earlier]).id == parent;
                    assert(earlier < at);
                }
            }
        }
        todo_groups.push(group);
    }
    assert(group_views(todo_groups@) =~= organized(input));
    todo_groups
}

} // verus!
