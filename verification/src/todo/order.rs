//! The order in which todos are displayed: the most urgent first, within one
//! priority by status, and otherwise in the order of arrival.

use vstd::prelude::*;

use crate::seq_facts::lemma_filter_all_or_none;
use crate::todo::sql::{Todo, TodoPriority, TodoStatus};

verus! {

/// The number of distinct ranks: four priorities times six statuses.
pub const RANKS: u8 = 24;

/// The position of a todo's priority and status in the display order. A
/// smaller rank is displayed earlier.
pub open spec fn display_rank(todo: Todo) -> int {
    (3 - todo.priority.ordinal()) * 6 + todo.status.ordinal()
}

/// `a` must be displayed before `b`: it has the higher priority, or the same
/// priority and the lower status ordinal.
pub open spec fn comes_before(a: Todo, b: Todo) -> bool {
    a.priority.ordinal() > b.priority.ordinal() || (a.priority == b.priority
        && a.status.ordinal() < b.status.ordinal())
}

/// The todos whose rank is `rank`.
pub open spec fn has_rank(rank: int) -> spec_fn(Todo) -> bool {
    |todo: Todo| display_rank(todo) == rank
}

/// The todos of `todos` with a rank below `bound`: rank by rank, and within
/// one rank in the order in which they stand in `todos`.
#[verifier::opaque]
pub open spec fn ranked_below(todos: Seq<Todo>, bound: int) -> Seq<Todo>
    decreases bound,
{
    if bound <= 0 {
        Seq::empty()
    } else {
        ranked_below(todos, bound - 1) + todos.filter(has_rank(bound - 1))
    }
}

/// `todos` in display order: by priority, highest first; within one priority
/// by status ordinal, lowest first; todos that agree in both keep the order
/// in which they stand in `todos`.
pub open spec fn display_order(todos: Seq<Todo>) -> Seq<Todo> {
    ranked_below(todos, RANKS as int)
}

/// No todo of `todos` must be displayed before one that stands earlier.
#[verifier::opaque]
pub open spec fn in_display_order(todos: Seq<Todo>) -> bool {
    forall|i: int, j: int|
        #![trigger todos[i], todos[j]]
        0 <= i < j < todos.len() ==> !comes_before(todos[j], todos[i])
}

/// The rank is a number below `RANKS`, and it orders todos as `comes_before`
/// does.
pub proof fn lemma_rank_orders(a: Todo, b: Todo)
    ensures
        0 <= display_rank(a) < RANKS,
        comes_before(a, b) <==> display_rank(a) < display_rank(b),
        display_rank(a) == display_rank(b) <==> a.priority == b.priority && a.status == b.status,
{
}

/// Up to the length of `ranked_below(todos, low)`, `ranked_below(todos, high)`
/// is that sequence; from there on it holds todos of the ranks from `low` up
/// to `high`.
pub proof fn lemma_ranked_below_prefix(todos: Seq<Todo>, low: int, high: int)
    requires
        low <= high,
    ensures
        ranked_below(todos, low).len() <= ranked_below(todos, high).len(),
        forall|i: int|
            0 <= i < ranked_below(todos, low).len() ==> #[trigger] ranked_below(todos, high)[i]
                == ranked_below(todos, low)[i],
        forall|i: int|
            ranked_below(todos, low).len() <= i < ranked_below(todos, high).len() ==> low
                <= display_rank(#[trigger] ranked_below(todos, high)[i]) < high,
        forall|i: int|
            0 <= i < ranked_below(todos, high).len() ==> 0 <= display_rank(
                #[trigger] ranked_below(todos, high)[i],
            ) < high,
    decreases high - low,
{
    reveal(ranked_below);
    if low < high {
        lemma_ranked_below_prefix(todos, low, high - 1);
        if high > 0 {
            let head = ranked_below(todos, high - 1);
            let tail = todos.filter(has_rank(high - 1));
            assert forall|i: int| head.len() <= i < ranked_below(todos, high).len() implies
                display_rank(#[trigger] ranked_below(todos, high)[i]) == high - 1 by {
                todos.lemma_filter_pred(has_rank(high - 1), i - head.len());
                assert(ranked_below(todos, high)[i] == tail[i - head.len()]);
                assert(has_rank(high - 1)(tail[i - head.len()]));
            }
        }
    } else {
        lemma_ranked_below_ranks(todos, high);
    }
}

/// Every todo of `ranked_below(todos, bound)` has a rank below `bound`.
proof fn lemma_ranked_below_ranks(todos: Seq<Todo>, bound: int)
    ensures
        forall|i: int|
            0 <= i < ranked_below(todos, bound).len() ==> 0 <= display_rank(
                #[trigger] ranked_below(todos, bound)[i],
            ) < bound,
    decreases bound,
{
    reveal(ranked_below);
    if bound > 0 {
        lemma_ranked_below_ranks(todos, bound - 1);
        let head = ranked_below(todos, bound - 1);
        let tail = todos.filter(has_rank(bound - 1));
        assert forall|i: int| 0 <= i < ranked_below(todos, bound).len() implies 0 <= display_rank(
            #[trigger] ranked_below(todos, bound)[i],
        ) < bound by {
            if i >= head.len() {
                todos.lemma_filter_pred(has_rank(bound - 1), i - head.len());
                assert(ranked_below(todos, bound)[i] == tail[i - head.len()]);
                assert(has_rank(bound - 1)(tail[i - head.len()]));
                lemma_rank_orders(tail[i - head.len()], tail[i - head.len()]);
            }
        }
    }
}

/// The ranks in `ranked_below(todos, bound)` never fall.
proof fn lemma_ranked_below_rising(todos: Seq<Todo>, bound: int)
    ensures
        forall|i: int, j: int|
            0 <= i < j < ranked_below(todos, bound).len() ==> display_rank(
                #[trigger] ranked_below(todos, bound)[i],
            ) <= display_rank(#[trigger] ranked_below(todos, bound)[j]),
    decreases bound,
{
    reveal(ranked_below);
    if bound > 0 {
        lemma_ranked_below_rising(todos, bound - 1);
        lemma_ranked_below_prefix(todos, bound - 1, bound);
    }
}

/// A todo appended to `todos` enters `ranked_below` behind the todos of its
/// own and of lower ranks, and in front of those of higher ranks.
pub proof fn lemma_ranked_below_push(todos: Seq<Todo>, todo: Todo, bound: int)
    ensures
        display_rank(todo) < bound ==> ranked_below(todos, display_rank(todo) + 1).len()
            <= ranked_below(todos, bound).len(),
        ranked_below(todos.push(todo), bound) == (if display_rank(todo) < bound {
            ranked_below(todos, bound).insert(
                ranked_below(todos, display_rank(todo) + 1).len() as int,
                todo,
            )
        } else {
            ranked_below(todos, bound)
        }),
    decreases bound,
{
    reveal(ranked_below);
    let rank = display_rank(todo);
    lemma_rank_orders(todo, todo);
    if bound > 0 {
        lemma_ranked_below_push(todos, todo, bound - 1);
        todos.lemma_filter_push(todo, has_rank(bound - 1));
        let head = ranked_below(todos, bound - 1);
        let tail = todos.filter(has_rank(bound - 1));
        if rank < bound - 1 {
            let at = ranked_below(todos, rank + 1).len() as int;
            assert(head.insert(at, todo) + tail =~= (head + tail).insert(at, todo));
        } else if rank == bound - 1 {
            assert(head + tail.push(todo) =~= (head + tail).insert(
                (head + tail).len() as int,
                todo,
            ));
        }
    }
}

/// The display order of no todos is empty.
pub proof fn lemma_display_order_empty()
    ensures
        display_order(Seq::<Todo>::empty()) == Seq::<Todo>::empty(),
{
    lemma_ranked_below_of_empty(Seq::<Todo>::empty(), RANKS as int);
    assert(display_order(Seq::<Todo>::empty()) =~= Seq::<Todo>::empty());
}

/// The display order holds every todo of `todos` exactly as often as `todos`
/// does: none is lost, none is added.
pub proof fn lemma_display_order_permutes(todos: Seq<Todo>)
    ensures
        display_order(todos).to_multiset() == todos.to_multiset(),
        display_order(todos).len() == todos.len(),
    decreases todos.len(),
{
    broadcast use vstd::seq_lib::to_multiset_len;

    if todos.len() == 0 {
        lemma_ranked_below_of_empty(todos, RANKS as int);
        assert(display_order(todos) =~= todos);
    } else {
        let init = todos.drop_last();
        let last = todos.last();
        assert(todos =~= init.push(last));
        lemma_display_order_permutes(init);
        lemma_ranked_below_push(init, last, RANKS as int);
        lemma_rank_orders(last, last);
        let at = ranked_below(init, display_rank(last) + 1).len() as int;
        vstd::seq_lib::to_multiset_insert(display_order(init), at, last);
        vstd::seq_lib::to_multiset_build(init, last);
    }
}

/// Of no todos none has a rank below any bound.
proof fn lemma_ranked_below_of_empty(todos: Seq<Todo>, bound: int)
    requires
        todos.len() == 0,
    ensures
        ranked_below(todos, bound).len() == 0,
    decreases bound,
{
    reveal(ranked_below);
    if bound > 0 {
        lemma_ranked_below_of_empty(todos, bound - 1);
        todos.lemma_filter_len(has_rank(bound - 1));
    }
}

/// The display order is ordered: no todo in it must be displayed before one
/// that stands earlier in it.
pub proof fn lemma_display_order_sorted(todos: Seq<Todo>)
    ensures
        in_display_order(display_order(todos)),
{
    reveal(in_display_order);
    lemma_ranked_below_rising(todos, RANKS as int);
    let sorted = display_order(todos);
    assert forall|i: int, j: int| 0 <= i < j < sorted.len() implies !comes_before(
        sorted[j],
        sorted[i],
    ) by {
        lemma_rank_orders(sorted[j], sorted[i]);
    }
}

/// Among the todos of one rank, `ranked_below` keeps the order of `todos`.
proof fn lemma_ranked_below_stable(todos: Seq<Todo>, bound: int, rank: int)
    ensures
        ranked_below(todos, bound).filter(has_rank(rank)) == (if 0 <= rank < bound {
            todos.filter(has_rank(rank))
        } else {
            Seq::<Todo>::empty()
        }),
    decreases bound,
{
    reveal(ranked_below);
    if bound > 0 {
        lemma_ranked_below_stable(todos, bound - 1, rank);
        let head = ranked_below(todos, bound - 1);
        let tail = todos.filter(has_rank(bound - 1));
        Seq::filter_distributes_over_add(head, tail, has_rank(rank));
        assert forall|i: int| 0 <= i < tail.len() implies display_rank(#[trigger] tail[i]) == bound
            - 1 by {
            todos.lemma_filter_pred(has_rank(bound - 1), i);
        }
        lemma_filter_all_or_none(tail, has_rank(rank));
        if rank == bound - 1 {
            assert(forall|i: int| 0 <= i < tail.len() ==> has_rank(rank)(#[trigger] tail[i]));
        } else {
            assert(forall|i: int| 0 <= i < tail.len() ==> !has_rank(rank)(#[trigger] tail[i]));
        }
    } else {
        reveal(Seq::filter);
    }
}

/// The display order is stable: the todos that agree in priority and status
/// stand in it in the order in which they stand in `todos`.
pub proof fn lemma_display_order_stable(todos: Seq<Todo>, rank: int)
    ensures
        display_order(todos).filter(has_rank(rank)) == todos.filter(has_rank(rank)),
{
    lemma_ranked_below_stable(todos, RANKS as int, rank);
    if !(0 <= rank < RANKS) {
        assert forall|i: int| 0 <= i < todos.len() implies !has_rank(rank)(#[trigger] todos[i]) by {
            lemma_rank_orders(todos[i], todos[i]);
        }
        lemma_filter_all_or_none(todos, has_rank(rank));
    }
}

/// In display order already, and ordered: a todo that may stand last enters
/// behind all the others.
proof fn lemma_last_enters_last(init: Seq<Todo>, last: Todo)
    requires
        display_order(init) == init,
        forall|i: int| 0 <= i < init.len() ==> !comes_before(last, #[trigger] init[i]),
    ensures
        ranked_below(init, display_rank(last) + 1).len() == init.len(),
{
    let rank = display_rank(last);
    let at = ranked_below(init, rank + 1).len() as int;
    lemma_rank_orders(last, last);
    lemma_ranked_below_prefix(init, rank + 1, RANKS as int);
    if at < init.len() {
        assert(display_rank(ranked_below(init, RANKS as int)[at]) >= rank + 1);
        lemma_rank_orders(last, init[at]);
    }
}

/// What is in display order stays so without its last todo, and that todo
/// need not be displayed before any of the others.
proof fn lemma_in_display_order_drop_last(todos: Seq<Todo>)
    requires
        in_display_order(todos),
        todos.len() > 0,
    ensures
        in_display_order(todos.drop_last()),
        forall|i: int|
            0 <= i < todos.len() - 1 ==> !comes_before(
                todos.last(),
                #[trigger] todos.drop_last()[i],
            ),
{
    reveal(in_display_order);
    let init = todos.drop_last();
    assert forall|i: int, j: int| 0 <= i < j < init.len() implies !comes_before(
        init[j],
        init[i],
    ) by {
        assert(init[i] == todos[i] && init[j] == todos[j]);
    }
    assert forall|i: int| 0 <= i < todos.len() - 1 implies !comes_before(
        todos.last(),
        #[trigger] init[i],
    ) by {
        assert(init[i] == todos[i] && todos.last() == todos[todos.len() - 1]);
    }
}

/// A todo that enters behind all the others is appended.
proof fn lemma_entering_last_appends(init: Seq<Todo>, last: Todo)
    requires
        ranked_below(init, display_rank(last) + 1).len() == init.len(),
    ensures
        display_order(init.push(last)) == display_order(init).push(last),
{
    lemma_rank_orders(last, last);
    lemma_ranked_below_push(init, last, RANKS as int);
    lemma_display_order_permutes(init);
    assert(display_order(init).insert(init.len() as int, last) =~= display_order(init).push(last));
}

/// Todos that are in display order already are their own display order.
pub proof fn lemma_display_order_keeps_sorted(todos: Seq<Todo>)
    requires
        in_display_order(todos),
    ensures
        display_order(todos) == todos,
    decreases todos.len(),
{
    if todos.len() == 0 {
        lemma_ranked_below_of_empty(todos, RANKS as int);
        assert(display_order(todos) =~= todos);
    } else {
        let init = todos.drop_last();
        let last = todos.last();
        lemma_in_display_order_drop_last(todos);
        lemma_display_order_keeps_sorted(init);
        lemma_last_enters_last(init, last);
        lemma_entering_last_appends(init, last);
        assert(todos =~= init.push(last));
    }
}

/// Ordering twice changes nothing.
pub proof fn lemma_display_order_idempotent(todos: Seq<Todo>)
    ensures
        display_order(display_order(todos)) == display_order(todos),
{
    lemma_display_order_sorted(todos);
    lemma_display_order_keeps_sorted(display_order(todos));
}

/// The rank of a todo's priority and status.
pub fn rank_of(todo: &Todo) -> (rank: u8)
    ensures
        rank == display_rank(*todo),
        rank < RANKS,
{
    let by_priority: u8 = match todo.priority {
        TodoPriority::Urgent => 0,
        TodoPriority::High => 6,
        TodoPriority::Medium => 12,
        TodoPriority::Low => 18,
    };
    let by_status: u8 = match todo.status {
        TodoStatus::ToDo => 0,
        TodoStatus::InProgress => 1,
        TodoStatus::Done => 2,
        TodoStatus::Blocked => 3,
        TodoStatus::OnHold => 4,
        TodoStatus::Cancelled => 5,
    };
    by_priority + by_status
}

/// Where a todo of rank `rank` enters `sorted`: behind every todo of that
/// rank or a lower one.
fn entry_point(sorted: &Vec<Todo>, rank: u8, Ghost(todos): Ghost<Seq<Todo>>) -> (at: usize)
    requires
        sorted@ == display_order(todos),
        rank < RANKS,
    ensures
        at == ranked_below(todos, rank + 1).len(),
        at <= sorted.len(),
{
    let mut at: usize = 0;
    while at < sorted.len() && rank_of(&sorted[at]) <= rank
        invariant
            at <= sorted.len(),
            forall|i: int| 0 <= i < at ==> display_rank(#[trigger] sorted@[i]) <= rank,
        decreases sorted.len() - at,
    {
        at += 1;
    }
    proof {
        lemma_ranked_below_prefix(todos, rank + 1, RANKS as int);
        let low = ranked_below(todos, rank + 1).len();
        if at < low {
            assert(display_rank(sorted@[at as int]) > rank);
            assert(sorted@[at as int] == ranked_below(todos, rank + 1)[at as int]);
            lemma_ranked_below_prefix(todos, 0, rank + 1);
        } else if at > low {
            assert(display_rank(sorted@[low as int]) <= rank);
        }
    }
    at
}

/// Puts todos into display order.
pub fn sort_for_display(todos: Vec<Todo>) -> (sorted: Vec<Todo>)
    ensures
        sorted@ == display_order(todos@),
{
    let ghost input = todos@;
    let mut sorted: Vec<Todo> = Vec::new();
    proof {
        lemma_display_order_empty();
        assert(input.take(0) =~= Seq::<Todo>::empty());
    }
    for todo in it: todos
        invariant
            it.seq() == input,
            sorted@ == display_order(input.take(it.index() as int)),
    {
        let rank = rank_of(&todo);
        let at = entry_point(&sorted, rank, Ghost(input.take(it.index() as int)));
        proof {
            lemma_ranked_below_push(input.take(it.index() as int), todo, RANKS as int);
            assert(input.take(it.index() + 1) =~= input.take(it.index() as int).push(todo));
        }
        sorted.insert(at, todo);
    }
    proof {
        assert(input.take(input.len() as int) =~= input);
    }
    sorted
}

} // verus!
