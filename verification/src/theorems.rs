use crate::consistency::{lemma_create_todo_consistent, lemma_todo_index};
use crate::models::{ProjectWithStatsView, TodoView};
use crate::ordering::{
    active_in, has_no_active, is_greatest_active_position, is_swap_target, lemma_max_active_position,
    lemma_swap_target_unique, next_position, Direction,
};
use crate::state::{lists_before, project_lists_before, projects_in_order, todos_in_order, DatabaseView};
use vstd::prelude::*;

verus! {

/// In a consistent store no two active todos of one project share a position,
/// and every completed todo has position 0.
pub proof fn lemma_positions_of_consistent_store(v: DatabaseView, i: int, j: int)
    requires
        v.wf(),
        0 <= i < v.todos.len(),
        0 <= j < v.todos.len(),
        i != j,
    ensures
        v.todos[i].is_active() && v.todos[j].is_active() && v.todos[i].project_id == v.todos[j].project_id
            ==> v.todos[i].position != v.todos[j].position,
        v.todos[i].is_completed() ==> v.todos[i].position == 0,
        v.todos[i].is_active() ==> v.todos[i].position >= 1,
{
    if v.todos[i].is_active() && v.todos[j].is_active() && v.todos[i].project_id == v.todos[j].project_id {
        assert(active_in(v.todos[j], v.todos[i].project_id));
    }
}

/// A new todo is appended: it is active, it belongs to the project, and the
/// todos that were there stay as they were. In a project without active todos
/// it gets position 1, and in a project whose greatest active position is
/// `greatest` it gets `greatest + 1`.
pub proof fn lemma_create_todo_position(
    v: DatabaseView,
    project_id: i64,
    description: Seq<char>,
    now: i64,
    greatest: int,
)
    requires
        v.has_room_for_position(project_id),
    ensures
        ({
            let after = v.create_todo(project_id, description, now);
            let created = after.todos.last();
            &&& after.todos.len() == v.todos.len() + 1
            &&& forall|i: int| 0 <= i < v.todos.len() ==> after.todos[i] == v.todos[i]
            &&& active_in(created, project_id)
            &&& created.description == description
            &&& has_no_active(v.todos, project_id) ==> created.position == 1
            &&& is_greatest_active_position(v.todos, project_id, greatest) ==> created.position == greatest + 1
        }),
{
    lemma_max_active_position(v.todos, project_id);
}

/// The position after all active todos of a project is greater than each of
/// theirs.
pub proof fn lemma_next_position_is_last(todos: Seq<TodoView>, project_id: i64, i: int)
    requires
        0 <= i < todos.len(),
        active_in(todos[i], project_id),
    ensures
        todos[i].position < next_position(todos, project_id),
{
    lemma_max_active_position(todos, project_id);
}

/// In a project without active todos the position after all of them is 1.
pub proof fn lemma_next_position_of_none(todos: Seq<TodoView>, project_id: i64)
    requires
        has_no_active(todos, project_id),
    ensures
        next_position(todos, project_id) == 1,
{
    lemma_max_active_position(todos, project_id);
}

/// A todo that is made active again comes after all todos of its project that
/// were active before, whatever its position was; no other todo changes.
pub proof fn lemma_uncomplete_todo_position(v: DatabaseView, id: i64)
    requires
        v.wf(),
        v.has_todo(id),
        v.has_room_for_position(v.todo(id).project_id),
    ensures
        ({
            let after = v.uncomplete_todo(id);
            &&& after.has_todo(id)
            &&& after.todo(id).is_active()
            &&& after.todo(id).project_id == v.todo(id).project_id
            &&& forall|i: int|
                0 <= i < v.todos.len() && active_in(#[trigger] v.todos[i], v.todo(id).project_id)
                    ==> v.todos[i].position < after.todo(id).position
            &&& after.todos.len() == v.todos.len()
            &&& forall|i: int|
                0 <= i < v.todos.len() && v.todos[i].id != id ==> after.todos[i] == v.todos[i]
        }),
{
    let after = v.uncomplete_todo(id);
    let at = v.todo_index(id);
    let project_id = v.todo(id).project_id;
    crate::consistency::lemma_uncomplete_todo_consistent(v, id);
    lemma_max_active_position(v.todos, project_id);
    assert(after.todos[at].id == id);
    lemma_todo_index(after, at);
    assert forall|i: int| 0 <= i < v.todos.len() && active_in(#[trigger] v.todos[i], project_id) implies v.todos[i].position
        < after.todo(id).position by {
        lemma_next_position_is_last(v.todos, project_id, i);
    }
}

/// A todo at the end of its list in some direction stays where it is: moving
/// the last active todo of a project down, or the first one up, leaves the
/// store as it was.
pub proof fn lemma_reorder_at_end(v: DatabaseView, id: i64, direction: Direction)
    requires
        v.has_todo(id),
        forall|i: int|
            0 <= i < v.todos.len() && active_in(#[trigger] v.todos[i], v.todo(id).project_id)
                ==> !direction.leads(v.todo(id).position as int, v.todos[i].position as int),
    ensures
        v.reorder_todo(id, direction) == v,
{
    let at = v.todo_index(id);
    assert forall|j: int| !is_swap_target(v.todos, at, j, direction) by {
        if is_swap_target(v.todos, at, j, direction) {
            assert(active_in(v.todos[j], v.todo(id).project_id));
        }
    }
}

/// Moving an active todo that has a neighbour in the direction makes the two
/// change places: each gets the position of the other, no active todo of the
/// project stands between them, every other todo stays as it was, and in the
/// list of the project the one that stood behind now stands in front.
pub proof fn lemma_reorder_changes_places(v: DatabaseView, id: i64, direction: Direction)
    requires
        v.wf(),
        v.has_todo(id),
        v.todo(id).is_active(),
        v.has_neighbour(id, direction),
    ensures
        ({
            let at = v.todo_index(id);
            let other = v.neighbour_index(id, direction);
            let after = v.reorder_todo(id, direction);
            &&& 0 <= other < v.todos.len() && other != at
            &&& active_in(v.todos[other], v.todos[at].project_id)
            &&& after.todos.len() == v.todos.len()
            &&& after.todos[at] == (TodoView { position: v.todos[other].position, ..v.todos[at] })
            &&& after.todos[other] == (TodoView { position: v.todos[at].position, ..v.todos[other] })
            &&& forall|k: int| 0 <= k < v.todos.len() && k != at && k != other ==> after.todos[k] == v.todos[k]
            &&& forall|k: int|
                0 <= k < v.todos.len() && active_in(#[trigger] v.todos[k], v.todos[at].project_id) ==> !(
                direction.leads(v.todos[at].position as int, v.todos[k].position as int) && direction.leads(
                    v.todos[k].position as int,
                    v.todos[other].position as int,
                ))
            &&& match direction {
                Direction::Up => lists_before(v.todos[other], v.todos[at]) && lists_before(
                    after.todos[at],
                    after.todos[other],
                ),
                Direction::Down => lists_before(v.todos[at], v.todos[other]) && lists_before(
                    after.todos[other],
                    after.todos[at],
                ),
            }
        }),
{
    let at = v.todo_index(id);
    let other = v.neighbour_index(id, direction);
    assert(is_swap_target(v.todos, at, other, direction));
    assert(active_in(v.todos[other], v.todos[at].project_id));
    assert(v.todos[at].is_active());
}

/// Two lists of todos that are both in order and hold the same todos are the
/// same list.
pub proof fn lemma_order_decides_todos(first: Seq<TodoView>, second: Seq<TodoView>)
    requires
        todos_in_order(first),
        todos_in_order(second),
        forall|todo: TodoView| first.contains(todo) <==> second.contains(todo),
    ensures
        first == second,
    decreases first.len(),
{
    if first.len() == 0 {
        if second.len() > 0 {
            assert(second.contains(second[0]));
        }
        assert(first =~= second);
    } else {
        assert(first.contains(first[0]));
        assert(second.contains(first[0]));
        let k = choose|k: int| 0 <= k < second.len() && second[k] == first[0];
        assert(second.contains(second[0]));
        assert(first.contains(second[0]));
        let m = choose|m: int| 0 <= m < first.len() && first[m] == second[0];
        if k > 0 && m > 0 {
            assert(lists_before(second[0], second[k]));
            assert(lists_before(first[0], first[m]));
        }
        assert(first[0] == second[0]);
        let rest = first.drop_first();
        let other = second.drop_first();
        assert forall|todo: TodoView| rest.contains(todo) <==> other.contains(todo) by {
            if rest.contains(todo) {
                let i = choose|i: int| 0 <= i < rest.len() && rest[i] == todo;
                assert(first[i + 1] == todo);
                assert(lists_before(first[0], first[i + 1]));
                assert(first.contains(todo));
                let j = choose|j: int| 0 <= j < second.len() && second[j] == todo;
                assert(other[j - 1] == todo);
            }
            if other.contains(todo) {
                let i = choose|i: int| 0 <= i < other.len() && other[i] == todo;
                assert(second[i + 1] == todo);
                assert(lists_before(second[0], second[i + 1]));
                assert(second.contains(todo));
                let j = choose|j: int| 0 <= j < first.len() && first[j] == todo;
                assert(rest[j - 1] == todo);
            }
        }
        assert forall|a: int, b: int| 0 <= a < b < rest.len() implies lists_before(
            #[trigger] rest[a],
            #[trigger] rest[b],
        ) by {
            assert(lists_before(first[a + 1], first[b + 1]));
        }
        assert forall|a: int, b: int| 0 <= a < b < other.len() implies lists_before(
            #[trigger] other[a],
            #[trigger] other[b],
        ) by {
            assert(lists_before(second[a + 1], second[b + 1]));
        }
        lemma_order_decides_todos(rest, other);
        assert(first =~= seq![first[0]] + rest);
        assert(second =~= seq![second[0]] + other);
    }
}

/// The list of a project's todos is decided by the store: two lists that both
/// meet `is_todo_listing` are the same.
pub proof fn lemma_todo_listing_unique(
    v: DatabaseView,
    first: Seq<TodoView>,
    second: Seq<TodoView>,
    project_id: i64,
    include_completed: bool,
)
    requires
        v.is_todo_listing(first, project_id, include_completed),
        v.is_todo_listing(second, project_id, include_completed),
    ensures
        first == second,
{
    assert forall|todo: TodoView| first.contains(todo) <==> second.contains(todo) by {
        if first.contains(todo) {
            let k = choose|k: int| 0 <= k < first.len() && first[k] == todo;
            assert(v.lists_todo(first[k], project_id, include_completed));
            let i = choose|i: int| 0 <= i < v.todos.len() && v.todos[i] == todo;
            assert(v.lists_todo(v.todos[i], project_id, include_completed));
        }
        if second.contains(todo) {
            let k = choose|k: int| 0 <= k < second.len() && second[k] == todo;
            assert(v.lists_todo(second[k], project_id, include_completed));
            let i = choose|i: int| 0 <= i < v.todos.len() && v.todos[i] == todo;
            assert(v.lists_todo(v.todos[i], project_id, include_completed));
        }
    }
    lemma_order_decides_todos(first, second);
}

/// Moving a todo that stands at the end of its list leaves the list of the
/// project's todos as it was: a list of the store after the move is the list
/// of the store before it.
pub proof fn lemma_reorder_at_end_keeps_list(
    v: DatabaseView,
    id: i64,
    direction: Direction,
    before: Seq<TodoView>,
    after: Seq<TodoView>,
    include_completed: bool,
)
    requires
        v.has_todo(id),
        forall|i: int|
            0 <= i < v.todos.len() && active_in(#[trigger] v.todos[i], v.todo(id).project_id)
                ==> !direction.leads(v.todo(id).position as int, v.todos[i].position as int),
        v.is_todo_listing(before, v.todo(id).project_id, include_completed),
        v.reorder_todo(id, direction).is_todo_listing(after, v.todo(id).project_id, include_completed),
    ensures
        before == after,
{
    lemma_reorder_at_end(v, id, direction);
    lemma_todo_listing_unique(v, before, after, v.todo(id).project_id, include_completed);
}

/// Two todos created one after the other in a project get positions that
/// follow each other; moving the first of them down then makes the two change
/// places exactly: each has the position that the other had, both are
/// otherwise as they were, and no other todo of the store has changed.
pub proof fn lemma_create_two_then_move_down(
    v: DatabaseView,
    project_id: i64,
    first_description: Seq<char>,
    first_now: i64,
    second_description: Seq<char>,
    second_now: i64,
)
    requires
        v.wf(),
        v.has_project(project_id),
        v.has_room_for_todo(project_id),
        v.create_todo(project_id, first_description, first_now).has_room_for_todo(project_id),
    ensures
        ({
            let one = v.create_todo(project_id, first_description, first_now);
            let two = one.create_todo(project_id, second_description, second_now);
            let a = one.todos.last();
            let b = two.todos.last();
            let moved = two.reorder_todo(a.id, Direction::Down);
            &&& b.position == a.position + 1
            &&& moved.wf()
            &&& moved.todos.len() == v.todos.len() + 2
            &&& forall|i: int| 0 <= i < v.todos.len() ==> moved.todos[i] == v.todos[i]
            &&& moved.todo(a.id) == (TodoView { position: b.position, ..a })
            &&& moved.todo(b.id) == (TodoView { position: a.position, ..b })
        }),
{
    let one = v.create_todo(project_id, first_description, first_now);
    let two = one.create_todo(project_id, second_description, second_now);
    let a = one.todos.last();
    let b = two.todos.last();
    let n = v.todos.len() as int;
    lemma_create_todo_consistent(v, project_id, first_description, first_now);
    assert(one.has_project(project_id)) by {
        let k = v.project_index(project_id);
        assert(one.projects[k].id == project_id);
    }
    lemma_create_todo_consistent(one, project_id, second_description, second_now);
    lemma_max_active_position(v.todos, project_id);
    lemma_max_active_position(one.todos, project_id);
    assert(one.todos[n] == a);
    assert(active_in(one.todos[n], project_id));
    assert forall|i: int| 0 <= i < n implies one.todos[i] == v.todos[i] by {}
    assert forall|i: int| 0 <= i < n && active_in(#[trigger] one.todos[i], project_id) implies one.todos[i].position
        < a.position by {
        lemma_next_position_is_last(v.todos, project_id, i);
    }
    assert(is_greatest_active_position(one.todos, project_id, a.position as int));
    assert(b.position == a.position + 1);
    assert(two.todos[n] == a && two.todos[n + 1] == b);
    lemma_todo_index(two, n);
    lemma_todo_index(two, n + 1);
    assert(is_swap_target(two.todos, n, n + 1, Direction::Down)) by {
        assert forall|k: int|
            0 <= k < two.todos.len() && active_in(#[trigger] two.todos[k], two.todos[n].project_id)
                && Direction::Down.leads(
                two.todos[n].position as int,
                two.todos[k].position as int,
            ) implies !Direction::Down.leads(two.todos[k].position as int, two.todos[n + 1].position as int) by {
            if k < n {
                assert(two.todos[k] == one.todos[k]);
                assert(active_in(one.todos[k], project_id));
            }
        }
    }
    assert(two.has_neighbour(a.id, Direction::Down));
    lemma_swap_target_unique(two.todos, n, n + 1, two.neighbour_index(a.id, Direction::Down), Direction::Down);
    crate::consistency::lemma_reorder_todo_consistent(two, a.id, Direction::Down);
    let moved = two.reorder_todo(a.id, Direction::Down);
    assert(moved.todos[n].id == a.id && moved.todos[n + 1].id == b.id);
    lemma_todo_index(moved, n);
    lemma_todo_index(moved, n + 1);
}

/// Two lists of projects that are both in order and hold the same entries are
/// the same list.
pub proof fn lemma_order_decides_projects(first: Seq<ProjectWithStatsView>, second: Seq<ProjectWithStatsView>)
    requires
        projects_in_order(first),
        projects_in_order(second),
        forall|entry: ProjectWithStatsView| first.contains(entry) <==> second.contains(entry),
    ensures
        first == second,
    decreases first.len(),
{
    if first.len() == 0 {
        if second.len() > 0 {
            assert(second.contains(second[0]));
        }
        assert(first =~= second);
    } else {
        assert(first.contains(first[0]));
        assert(second.contains(first[0]));
        let k = choose|k: int| 0 <= k < second.len() && second[k] == first[0];
        assert(second.contains(second[0]));
        assert(first.contains(second[0]));
        let m = choose|m: int| 0 <= m < first.len() && first[m] == second[0];
        if k > 0 && m > 0 {
            assert(project_lists_before(second[0].project, second[k].project));
            assert(project_lists_before(first[0].project, first[m].project));
        }
        assert(first[0] == second[0]);
        let rest = first.drop_first();
        let other = second.drop_first();
        assert forall|entry: ProjectWithStatsView| rest.contains(entry) <==> other.contains(entry) by {
            if rest.contains(entry) {
                let i = choose|i: int| 0 <= i < rest.len() && rest[i] == entry;
                assert(first[i + 1] == entry);
                assert(project_lists_before(first[0].project, first[i + 1].project));
                assert(first.contains(entry));
                let j = choose|j: int| 0 <= j < second.len() && second[j] == entry;
                assert(other[j - 1] == entry);
            }
            if other.contains(entry) {
                let i = choose|i: int| 0 <= i < other.len() && other[i] == entry;
                assert(second[i + 1] == entry);
                assert(project_lists_before(second[0].project, second[i + 1].project));
                assert(second.contains(entry));
                let j = choose|j: int| 0 <= j < first.len() && first[j] == entry;
                assert(rest[j - 1] == entry);
            }
        }
        assert forall|a: int, b: int| 0 <= a < b < rest.len() implies project_lists_before(
            (#[trigger] rest[a]).project,
            (#[trigger] rest[b]).project,
        ) by {
            assert(project_lists_before(first[a + 1].project, first[b + 1].project));
        }
        assert forall|a: int, b: int| 0 <= a < b < other.len() implies project_lists_before(
            (#[trigger] other[a]).project,
            (#[trigger] other[b]).project,
        ) by {
            assert(project_lists_before(second[a + 1].project, second[b + 1].project));
        }
        lemma_order_decides_projects(rest, other);
        assert(first =~= seq![first[0]] + rest);
        assert(second =~= seq![second[0]] + other);
    }
}

/// The list of projects is decided by the store: two lists that both meet
/// `is_project_listing` are the same.
pub proof fn lemma_project_listing_unique(
    v: DatabaseView,
    first: Seq<ProjectWithStatsView>,
    second: Seq<ProjectWithStatsView>,
    include_archived: bool,
)
    requires
        v.is_project_listing(first, include_archived),
        v.is_project_listing(second, include_archived),
    ensures
        first == second,
{
    assert forall|entry: ProjectWithStatsView| first.contains(entry) <==> second.contains(entry) by {
        if first.contains(entry) {
            let k = choose|k: int| 0 <= k < first.len() && first[k] == entry;
            assert(v.lists_project(first[k].project, include_archived));
            let i = choose|i: int| 0 <= i < v.projects.len() && v.projects[i] == entry.project;
            assert(v.lists_project(v.projects[i], include_archived));
        }
        if second.contains(entry) {
            let k = choose|k: int| 0 <= k < second.len() && second[k] == entry;
            assert(v.lists_project(second[k].project, include_archived));
            let i = choose|i: int| 0 <= i < v.projects.len() && v.projects[i] == entry.project;
            assert(v.lists_project(v.projects[i], include_archived));
        }
    }
    lemma_order_decides_projects(first, second);
}

} // verus!
