//! What holds of the groups into which todos are organized.

use vstd::prelude::*;

use crate::seq_facts::{
    lemma_filter_agree,
    lemma_filter_all_or_none,
    lemma_filter_either,
    lemma_filter_members,
};
use crate::todo::group::{
    children_of,
    group_at,
    id_seen_before,
    is_child_of,
    is_main,
    main_todos,
    organized,
    GroupView,
};
use crate::todo::order::{
    comes_before,
    display_order,
    in_display_order,
    lemma_display_order_idempotent,
    lemma_display_order_permutes,
    lemma_display_order_sorted,
};
use crate::todo::sql::Todo;

verus! {

/// `todos` holds a main todo with the identifier `id`.
pub open spec fn has_main(todos: Seq<Todo>, id: i32) -> bool {
    exists|at: int| 0 <= at < todos.len() && (#[trigger] todos[at]).is_main() && todos[at].id == id
}

/// The children whose parent reference names a main todo of `todos`.
pub open spec fn is_attached_in(todos: Seq<Todo>) -> spec_fn(Todo) -> bool {
    |todo: Todo| todo.parent_id is Some && has_main(todos, todo.parent_id->0)
}

/// The children whose parent reference names no main todo of `todos`.
pub open spec fn is_orphan_in(todos: Seq<Todo>) -> spec_fn(Todo) -> bool {
    |todo: Todo| todo.parent_id is Some && !has_main(todos, todo.parent_id->0)
}

/// The orphaned children of `todos`, in the order in which they stand there.
pub open spec fn orphans(todos: Seq<Todo>) -> Seq<Todo> {
    todos.filter(is_orphan_in(todos))
}

/// The main todos of `groups`, group by group.
pub open spec fn group_mains(groups: Seq<GroupView>) -> Seq<Todo> {
    Seq::new(groups.len(), |at: int| groups[at].main_todo)
}

/// The sub-todos of `groups`, group by group.
pub open spec fn group_children(groups: Seq<GroupView>) -> Seq<Todo>
    decreases groups.len(),
{
    if groups.len() == 0 {
        Seq::empty()
    } else {
        group_children(groups.drop_last()) + groups.last().subtodos
    }
}

/// The display order holds the todos that `todos` holds, and no others.
pub proof fn lemma_display_order_members(todos: Seq<Todo>, todo: Todo)
    ensures
        display_order(todos).contains(todo) <==> todos.contains(todo),
{
    lemma_display_order_permutes(todos);
    vstd::seq_lib::to_multiset_contains(todos, todo);
    vstd::seq_lib::to_multiset_contains(display_order(todos), todo);
}

/// The main todos of the groups are the main todos of the input, in display
/// order.
pub proof fn lemma_group_mains(todos: Seq<Todo>)
    ensures
        group_mains(organized(todos)) == display_order(main_todos(todos)),
{
    assert(group_mains(organized(todos)) =~= display_order(main_todos(todos)));
}

/// The groups stand in display order, and so do the sub-todos of each: a
/// main todo of a higher priority stands before one of a lower priority, and
/// of two main todos of one priority the one with the lower status ordinal
/// stands first.
pub proof fn lemma_groups_in_display_order(todos: Seq<Todo>)
    ensures
        in_display_order(group_mains(organized(todos))),
        forall|first: int, second: int|
            #![trigger organized(todos)[first], organized(todos)[second]]
            0 <= first < organized(todos).len() && 0 <= second < organized(todos).len()
                && comes_before(
                organized(todos)[first].main_todo,
                organized(todos)[second].main_todo,
            ) ==> first < second,
        forall|at: int|
            0 <= at < organized(todos).len() ==> in_display_order(
                (#[trigger] organized(todos)[at]).subtodos,
            ),
{
    let groups = organized(todos);
    let mains = display_order(main_todos(todos));
    lemma_group_mains(todos);
    lemma_display_order_sorted(main_todos(todos));
    assert forall|first: int, second: int|
        #![trigger groups[first], groups[second]]
        0 <= first < groups.len() && 0 <= second < groups.len() && comes_before(
            groups[first].main_todo,
            groups[second].main_todo,
        ) implies first < second by {
        reveal(in_display_order);
        if second < first {
            assert(!comes_before(mains[first], mains[second]));
        }
    }
    assert forall|at: int| 0 <= at < groups.len() implies in_display_order(
        (#[trigger] groups[at]).subtodos,
    ) by {
        if id_seen_before(mains, at) {
            reveal(in_display_order);
        } else {
            lemma_display_order_sorted(children_of(todos, mains[at].id));
        }
    }
}

/// Every main todo of the groups is a main todo of the input, and every
/// sub-todo of a group is a child in the input whose parent reference is the
/// identifier of the group's main todo.
pub proof fn lemma_groups_hold_input(todos: Seq<Todo>, at: int, todo: Todo)
    requires
        0 <= at < organized(todos).len(),
    ensures
        todos.contains(organized(todos)[at].main_todo),
        organized(todos)[at].main_todo.is_main(),
        organized(todos)[at].subtodos.contains(todo) ==> todos.contains(todo) && todo.is_child_of(
            organized(todos)[at].main_todo.id,
        ),
{
    let mains = display_order(main_todos(todos));
    let main_todo = mains[at];
    assert(mains.contains(main_todo));
    lemma_display_order_members(main_todos(todos), main_todo);
    lemma_filter_members(todos, is_main(), main_todo);
    if organized(todos)[at].subtodos.contains(todo) {
        assert(!id_seen_before(mains, at));
        lemma_display_order_members(children_of(todos, main_todo.id), todo);
        lemma_filter_members(todos, is_child_of(main_todo.id), todo);
    }
}

/// A child whose parent reference names no main todo of the input is in no
/// group: it is the sub-todo of none, and it is not made a main todo.
pub proof fn lemma_orphans_in_no_group(todos: Seq<Todo>, orphan: Todo)
    requires
        is_orphan_in(todos)(orphan),
    ensures
        forall|at: int|
            0 <= at < organized(todos).len() ==> (#[trigger] organized(todos)[at]).main_todo
                != orphan && !organized(todos)[at].subtodos.contains(orphan),
{
    assert forall|at: int| 0 <= at < organized(todos).len() implies (#[trigger] organized(
        todos,
    )[at]).main_todo != orphan && !organized(todos)[at].subtodos.contains(orphan) by {
        lemma_groups_hold_input(todos, at, orphan);
        let main_todo = organized(todos)[at].main_todo;
        if organized(todos)[at].subtodos.contains(orphan) {
            let found = choose|found: int| 0 <= found < todos.len() && todos[found] == main_todo;
            assert(todos[found].is_main() && todos[found].id == main_todo.id);
        }
    }
}

/// The children that an identifier of the first `count` main todos names.
spec fn is_attached_before(mains: Seq<Todo>, count: int) -> spec_fn(Todo) -> bool {
    |todo: Todo|
        exists|at: int| 0 <= at < count && todo.is_child_of((#[trigger] mains[at]).id)
}

/// The sub-todos of the first `count` groups.
spec fn children_before(todos: Seq<Todo>, mains: Seq<Todo>, count: int) -> Seq<Todo>
    decreases count,
{
    if count <= 0 {
        Seq::empty()
    } else {
        children_before(todos, mains, count - 1) + group_at(todos, mains, count - 1).subtodos
    }
}

/// The sub-todos of the first `count` groups are the children of the input
/// that the identifiers of the first `count` main todos name.
proof fn lemma_children_before(todos: Seq<Todo>, mains: Seq<Todo>, count: int)
    requires
        0 <= count <= mains.len(),
    ensures
        children_before(todos, mains, count).to_multiset() == todos.filter(
            is_attached_before(mains, count),
        ).to_multiset(),
    decreases count,
{
    let now = is_attached_before(mains, count);
    if count == 0 {
        assert forall|i: int| 0 <= i < todos.len() implies !now(#[trigger] todos[i]) by {}
        lemma_filter_all_or_none(todos, now);
    } else {
        let at = count - 1;
        let id = mains[at].id;
        let before = is_attached_before(mains, at);
        lemma_children_before(todos, mains, at);
        let head = children_before(todos, mains, at);
        if id_seen_before(mains, at) {
            let earlier = choose|earlier: int|
                0 <= earlier < at && (#[trigger] mains[earlier]).id == mains[at].id;
            assert forall|i: int| 0 <= i < todos.len() implies now(#[trigger] todos[i]) == before(
                todos[i],
            ) by {
                if now(todos[i]) {
                    let named = choose|named: int|
                        0 <= named < count && todos[i].is_child_of((#[trigger] mains[named]).id);
                    if named == at {
                        assert(todos[i].is_child_of(mains[earlier].id));
                    }
                }
            }
            lemma_filter_agree(todos, now, before);
            assert(head + Seq::<Todo>::empty() =~= head);
        } else {
            let children = children_of(todos, id);
            assert forall|i: int| 0 <= i < todos.len() implies now(#[trigger] todos[i]) == (before(
                todos[i],
            ) || is_child_of(id)(todos[i])) by {
                if now(todos[i]) {
                    let named = choose|named: int|
                        0 <= named < count && todos[i].is_child_of((#[trigger] mains[named]).id);
                    if named != at {
                        assert(before(todos[i]));
                    }
                }
                if is_child_of(id)(todos[i]) {
                    assert(todos[i].is_child_of(mains[at].id));
                }
            }
            assert forall|i: int| 0 <= i < todos.len() implies !(before(#[trigger] todos[i])
                && is_child_of(id)(todos[i])) by {
                if before(todos[i]) && is_child_of(id)(todos[i]) {
                    let named = choose|named: int|
                        0 <= named < at && todos[i].is_child_of((#[trigger] mains[named]).id);
                    assert(mains[named].id == mains[at].id);
                }
            }
            lemma_filter_either(todos, before, is_child_of(id), now);
            lemma_display_order_permutes(children);
            vstd::seq_lib::lemma_multiset_commutative(head, display_order(children));
        }
    }
}

/// The sub-todos of the first `count` groups, group by group.
proof fn lemma_group_children_take(todos: Seq<Todo>, count: int)
    requires
        0 <= count <= organized(todos).len(),
    ensures
        group_children(organized(todos).take(count)) == children_before(
            todos,
            display_order(main_todos(todos)),
            count,
        ),
    decreases count,
{
    let groups = organized(todos);
    if count > 0 {
        lemma_group_children_take(todos, count - 1);
        assert(groups.take(count).drop_last() =~= groups.take(count - 1));
    }
}

/// Organizing loses and adds nothing. Every todo of the input is, as often
/// as it stands there, exactly one of three things: the main todo of a
/// group, a sub-todo of a group, or an orphaned child that is left out.
pub proof fn lemma_organize_partitions(todos: Seq<Todo>)
    ensures
        todos.to_multiset() == group_mains(organized(todos)).to_multiset().add(
            group_children(organized(todos)).to_multiset(),
        ).add(orphans(todos).to_multiset()),
{
    let groups = organized(todos);
    let mains = display_order(main_todos(todos));
    let is_child = |todo: Todo| todo.parent_id is Some;
    let any = |todo: Todo| true;
    let attached = is_attached_in(todos);
    let named = is_attached_before(mains, mains.len() as int);

    lemma_group_mains(todos);
    lemma_display_order_permutes(main_todos(todos));

    lemma_filter_all_or_none(todos, any);
    lemma_filter_either(todos, is_main(), is_child, any);
    lemma_filter_either(todos, attached, is_orphan_in(todos), is_child);

    lemma_group_children_take(todos, groups.len() as int);
    assert(groups.take(groups.len() as int) =~= groups);
    lemma_children_before(todos, mains, mains.len() as int);
    assert forall|i: int| 0 <= i < todos.len() implies named(#[trigger] todos[i]) == attached(
        todos[i],
    ) by {
        let todo = todos[i];
        if named(todo) {
            let at = choose|at: int|
                0 <= at < mains.len() && todo.is_child_of((#[trigger] mains[at]).id);
            lemma_groups_hold_input(todos, at, todo);
            let found = choose|found: int| 0 <= found < todos.len() && todos[found] == mains[at];
            assert(todos[found].is_main() && todos[found].id == mains[at].id);
        }
        if attached(todo) {
            let found = choose|found: int|
                0 <= found < todos.len() && (#[trigger] todos[found]).is_main() && todos[found].id
                    == todo.parent_id->0;
            assert(todos.contains(todos[found]));
            lemma_filter_members(todos, is_main(), todos[found]);
            lemma_display_order_members(main_todos(todos), todos[found]);
            let at = choose|at: int| 0 <= at < mains.len() && mains[at] == todos[found];
            assert(todo.is_child_of(mains[at].id));
        }
    }
    lemma_filter_agree(todos, named, attached);
}

/// The todos of `groups` as one list: each main todo, followed by its
/// sub-todos.
pub open spec fn flattened(groups: Seq<GroupView>) -> Seq<Todo>
    decreases groups.len(),
{
    if groups.len() == 0 {
        Seq::empty()
    } else {
        flattened(groups.drop_last()) + seq![groups.last().main_todo] + groups.last().subtodos
    }
}

/// Every group's main todo has no parent, and every sub-todo's parent
/// reference is the identifier of its group's main todo.
spec fn well_grouped(groups: Seq<GroupView>) -> bool {
    forall|at: int|
        0 <= at < groups.len() ==> {
            &&& (#[trigger] groups[at]).main_todo.is_main()
            &&& forall|k: int|
                0 <= k < groups[at].subtodos.len() ==> (#[trigger] groups[at].subtodos[k]).is_child_of(
                    groups[at].main_todo.id,
                )
        }
}

/// The sub-todos of the groups whose main todo has the identifier `id`.
spec fn children_under(groups: Seq<GroupView>, id: i32) -> Seq<Todo>
    decreases groups.len(),
{
    if groups.len() == 0 {
        Seq::empty()
    } else {
        children_under(groups.drop_last(), id) + (if groups.last().main_todo.id == id {
            groups.last().subtodos
        } else {
            Seq::empty()
        })
    }
}

/// The groups of `organized` are well grouped.
proof fn lemma_organized_well_grouped(todos: Seq<Todo>)
    ensures
        well_grouped(organized(todos)),
{
    let groups = organized(todos);
    assert forall|at: int| 0 <= at < groups.len() implies {
        &&& (#[trigger] groups[at]).main_todo.is_main()
        &&& forall|k: int|
            0 <= k < groups[at].subtodos.len() ==> (#[trigger] groups[at].subtodos[k]).is_child_of(
                groups[at].main_todo.id,
            )
    } by {
        lemma_groups_hold_input(todos, at, groups[at].main_todo);
        assert forall|k: int| 0 <= k < groups[at].subtodos.len() implies (
        #[trigger] groups[at].subtodos[k]).is_child_of(groups[at].main_todo.id) by {
            assert(groups[at].subtodos.contains(groups[at].subtodos[k]));
            lemma_groups_hold_input(todos, at, groups[at].subtodos[k]);
        }
    }
}

/// In the flattened list of well-grouped groups, the main todos are those of
/// the groups, and the children of an identifier are the sub-todos of the
/// groups under that identifier.
proof fn lemma_flattened_parts(groups: Seq<GroupView>, id: i32)
    requires
        well_grouped(groups),
    ensures
        main_todos(flattened(groups)) == group_mains(groups),
        children_of(flattened(groups), id) == children_under(groups, id),
    decreases groups.len(),
{
    if groups.len() == 0 {
        lemma_filter_all_or_none(flattened(groups), is_main());
        lemma_filter_all_or_none(flattened(groups), is_child_of(id));
        assert(main_todos(flattened(groups)) =~= group_mains(groups));
    } else {
        let init = groups.drop_last();
        let last = groups.last();
        assert forall|at: int| 0 <= at < init.len() implies {
            &&& (#[trigger] init[at]).main_todo.is_main()
            &&& forall|k: int|
                0 <= k < init[at].subtodos.len() ==> (#[trigger] init[at].subtodos[k]).is_child_of(
                    init[at].main_todo.id,
                )
        } by {
            assert(init[at] == groups[at]);
        }
        lemma_flattened_parts(init, id);
        assert(last == groups[groups.len() - 1]);
        let head = flattened(init);
        let one = seq![last.main_todo];
        let subs = last.subtodos;
        Seq::filter_distributes_over_add(head + one, subs, is_main());
        Seq::filter_distributes_over_add(head, one, is_main());
        Seq::filter_distributes_over_add(head + one, subs, is_child_of(id));
        Seq::filter_distributes_over_add(head, one, is_child_of(id));
        lemma_filter_all_or_none(one, is_main());
        lemma_filter_all_or_none(one, is_child_of(id));
        lemma_filter_all_or_none(subs, is_main());
        lemma_filter_all_or_none(subs, is_child_of(id));
        assert(forall|k: int| 0 <= k < one.len() ==> is_main()(#[trigger] one[k]));
        assert(forall|k: int| 0 <= k < one.len() ==> !is_child_of(id)(#[trigger] one[k]));
        assert forall|k: int| 0 <= k < subs.len() implies !is_main()(#[trigger] subs[k]) by {
            assert(subs[k].is_child_of(last.main_todo.id));
        }
        if last.main_todo.id == id {
            assert forall|k: int| 0 <= k < subs.len() implies is_child_of(id)(
                #[trigger] subs[k],
            ) by {
                assert(subs[k].is_child_of(last.main_todo.id));
            }
        } else {
            assert forall|k: int| 0 <= k < subs.len() implies !is_child_of(id)(
                #[trigger] subs[k],
            ) by {
                assert(subs[k].is_child_of(last.main_todo.id));
            }
        }
        assert(main_todos(flattened(groups)) =~= group_mains(groups));
        assert(children_of(flattened(groups), id) =~= children_under(groups, id));
    }
}

/// Under an identifier the first `count` groups hold its children in display
/// order, if one of their main todos has it, and nothing otherwise.
proof fn lemma_children_under(todos: Seq<Todo>, id: i32, count: int)
    requires
        0 <= count <= organized(todos).len(),
    ensures
        children_under(organized(todos).take(count), id) == (if exists|at: int|
            0 <= at < count && (#[trigger] display_order(main_todos(todos))[at]).id == id {
            display_order(children_of(todos, id))
        } else {
            Seq::empty()
        }),
    decreases count,
{
    let groups = organized(todos);
    let mains = display_order(main_todos(todos));
    if count > 0 {
        let at = count - 1;
        lemma_children_under(todos, id, at);
        assert(groups.take(count).drop_last() =~= groups.take(at));
        assert(groups.take(count).last() == group_at(todos, mains, at));
        let head = children_under(groups.take(at), id);
        if mains[at].id == id {
            if id_seen_before(mains, at) {
                let earlier = choose|earlier: int|
                    0 <= earlier < at && (#[trigger] mains[earlier]).id == mains[at].id;
                assert(head + Seq::<Todo>::empty() =~= head);
            } else {
                assert(Seq::<Todo>::empty() + display_order(children_of(todos, id))
                    =~= display_order(children_of(todos, id)));
            }
        } else {
            assert(head + Seq::<Todo>::empty() =~= head);
            if exists|seen: int| 0 <= seen < count && (#[trigger] mains[seen]).id == id {
                let seen = choose|seen: int| 0 <= seen < count && (#[trigger] mains[seen]).id == id;
                assert(seen < at);
            }
        }
    }
}

/// Organizing what is organized already changes nothing: the groups of the
/// flattened groups are the groups themselves.
pub proof fn lemma_organize_idempotent(todos: Seq<Todo>)
    ensures
        organized(flattened(organized(todos))) == organized(todos),
{
    let groups = organized(todos);
    let mains = display_order(main_todos(todos));
    let again = flattened(groups);
    lemma_organized_well_grouped(todos);
    lemma_flattened_parts(groups, 0);
    lemma_group_mains(todos);
    lemma_display_order_idempotent(main_todos(todos));
    assert(display_order(main_todos(again)) == mains);
    assert forall|at: int| 0 <= at < mains.len() implies group_at(again, mains, at) == group_at(
        todos,
        mains,
        at,
    ) by {
        if !id_seen_before(mains, at) {
            let id = mains[at].id;
            lemma_flattened_parts(groups, id);
            lemma_children_under(todos, id, groups.len() as int);
            assert(groups.take(groups.len() as int) =~= groups);
            lemma_display_order_idempotent(children_of(todos, id));
        }
    }
    assert(organized(again) =~= groups);
}

} // verus!
