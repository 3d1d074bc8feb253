use crate::models::{ProjectView, TodoView};
use crate::ordering::{active_in, is_swap_target, lemma_max_active_position, positions_consistent, Direction};
use crate::state::DatabaseView;
use vstd::prelude::*;

verus! {

/// In a consistent store an identifier names at most one project: the project
/// at `i` is the one that its identifier finds.
pub proof fn lemma_project_index(v: DatabaseView, i: int)
    requires
        v.wf(),
        0 <= i < v.projects.len(),
    ensures
        v.has_project(v.projects[i].id),
        v.project_index(v.projects[i].id) == i,
        v.project(v.projects[i].id) == v.projects[i],
{
    let id = v.projects[i].id;
    let k = v.project_index(id);
    assert(0 <= k < v.projects.len() && v.projects[k].id == id);
    if k < i {
        assert(v.projects[k].id < v.projects[i].id);
    } else if i < k {
        assert(v.projects[i].id < v.projects[k].id);
    }
}

/// In a consistent store an identifier names at most one todo: the todo at `i`
/// is the one that its identifier finds.
pub proof fn lemma_todo_index(v: DatabaseView, i: int)
    requires
        v.wf(),
        0 <= i < v.todos.len(),
    ensures
        v.has_todo(v.todos[i].id),
        v.todo_index(v.todos[i].id) == i,
        v.todo(v.todos[i].id) == v.todos[i],
{
    let id = v.todos[i].id;
    let k = v.todo_index(id);
    assert(0 <= k < v.todos.len() && v.todos[k].id == id);
    if k < i {
        assert(v.todos[k].id < v.todos[i].id);
    } else if i < k {
        assert(v.todos[i].id < v.todos[k].id);
    }
}

/// The empty store is consistent.
pub proof fn lemma_empty_consistent()
    ensures
        DatabaseView::empty().wf(),
{
}

/// Creating a project keeps the store consistent.
pub proof fn lemma_create_project_consistent(
    v: DatabaseView,
    name: Seq<char>,
    description: Option<Seq<char>>,
    now: i64,
)
    requires
        v.wf(),
        v.has_room_for_project(),
    ensures
        v.create_project(name, description, now).wf(),
{
    let after = v.create_project(name, description, now);
    assert forall|i: int| 0 <= i < after.todos.len() implies after.has_project(
        (#[trigger] after.todos[i]).project_id,
    ) by {
        let k = v.project_index(v.todos[i].project_id);
        assert(v.has_project(v.todos[i].project_id));
        assert(after.projects[k] == v.projects[k]);
    }
}

/// Putting another value in the place of a project, under the same identifier,
/// keeps the store consistent. Archiving, unarchiving, renaming and describing
/// a project are of this kind.
pub proof fn lemma_replace_project_consistent(v: DatabaseView, id: i64, project: ProjectView)
    requires
        v.wf(),
        v.has_project(id),
        project.id == id,
    ensures
        v.with_project(id, project).wf(),
{
    let after = v.with_project(id, project);
    let at = v.project_index(id);
    assert forall|i: int| 0 <= i < after.todos.len() implies after.has_project(
        (#[trigger] after.todos[i]).project_id,
    ) by {
        let k = v.project_index(v.todos[i].project_id);
        assert(v.has_project(v.todos[i].project_id));
        assert(after.projects[k].id == v.projects[k].id);
    }
}

/// Deleting a project together with its todos keeps the store consistent.
pub proof fn lemma_delete_project_consistent(v: DatabaseView, id: i64)
    requires
        v.wf(),
        v.has_project(id),
    ensures
        v.delete_project(id).wf(),
{
    let after = v.delete_project(id);
    let at = v.project_index(id);
    let keep = |todo: TodoView| todo.project_id != id;
    let from = lemma_filter_keeps_order(v.todos, keep);
    v.todos.lemma_filter_len(keep);
    assert forall|i: int| 0 <= i < after.todos.len() implies after.has_project(
        (#[trigger] after.todos[i]).project_id,
    ) by {
        let project_id = after.todos[i].project_id;
        assert(after.todos[i] == v.todos[from[i]]);
        assert(v.has_project(project_id));
        let k = v.project_index(project_id);
        assert(keep(after.todos[i]));
        assert(v.projects[k].id != id);
        if k < at {
            assert(after.projects[k] == v.projects[k]);
        } else {
            assert(after.projects[k - 1] == v.projects[k]);
        }
    }
    assert forall|i: int| 0 <= i < after.todos.len() implies 1 <= (#[trigger] after.todos[i]).id
        < after.next_todo_id by {
        assert(after.todos[i] == v.todos[from[i]]);
    }
    assert forall|i: int, j: int|
        #![trigger after.todos[i], after.todos[j]]
        0 <= i < j < after.todos.len() implies after.todos[i].id < after.todos[j].id by {
        assert(after.todos[i] == v.todos[from[i]]);
        assert(after.todos[j] == v.todos[from[j]]);
        assert(from[i] < from[j]);
    }
    assert(positions_consistent(after.todos)) by {
        assert forall|i: int, j: int|
            0 <= i < after.todos.len() && 0 <= j < after.todos.len() && i != j && (
            #[trigger] after.todos[i]).is_active() && active_in(
                #[trigger] after.todos[j],
                after.todos[i].project_id,
            ) implies after.todos[i].position != after.todos[j].position by {
            assert(after.todos[i] == v.todos[from[i]]);
            assert(after.todos[j] == v.todos[from[j]]);
            if i < j {
                assert(from[i] < from[j]);
            } else {
                assert(from[j] < from[i]);
            }
        }
        assert forall|i: int| 0 <= i < after.todos.len() && (#[trigger] after.todos[i]).is_completed() implies after.todos[i].position == 0 by {
            assert(after.todos[i] == v.todos[from[i]]);
        }
        assert forall|i: int| 0 <= i < after.todos.len() && (#[trigger] after.todos[i]).is_active() implies after.todos[i].position >= 1 by {
            assert(after.todos[i] == v.todos[from[i]]);
        }
    }
}

/// Creating a todo keeps the store consistent: its position is new to the
/// project.
pub proof fn lemma_create_todo_consistent(v: DatabaseView, project_id: i64, description: Seq<char>, now: i64)
    requires
        v.wf(),
        v.has_project(project_id),
        v.has_room_for_todo(project_id),
    ensures
        v.create_todo(project_id, description, now).wf(),
{
    let after = v.create_todo(project_id, description, now);
    let last = v.todos.len() as int;
    lemma_max_active_position(v.todos, project_id);
    assert forall|i: int| 0 <= i < last implies after.todos[i] == v.todos[i] by {}
    assert forall|i: int| 0 <= i < after.todos.len() implies after.has_project(
        (#[trigger] after.todos[i]).project_id,
    ) by {
        if i < last {
            assert(v.has_project(v.todos[i].project_id));
        }
    }
    assert forall|i: int, j: int|
        0 <= i < after.todos.len() && 0 <= j < after.todos.len() && i != j && (
        #[trigger] after.todos[i]).is_active() && active_in(
            #[trigger] after.todos[j],
            after.todos[i].project_id,
        ) implies after.todos[i].position != after.todos[j].position by {
        if i < last && j < last {
            assert(v.todos[i].is_active() && active_in(v.todos[j], v.todos[i].project_id));
        } else if i < last {
            assert(active_in(v.todos[i], project_id));
        } else {
            assert(active_in(v.todos[j], project_id));
        }
    }
}

/// Completing a todo keeps the store consistent.
pub proof fn lemma_complete_todo_consistent(v: DatabaseView, id: i64, now: i64)
    requires
        v.wf(),
        v.has_todo(id),
    ensures
        v.complete_todo(id, now).wf(),
{
    let after = v.complete_todo(id, now);
    let at = v.todo_index(id);
    assert forall|i: int| 0 <= i < after.todos.len() implies after.has_project(
        (#[trigger] after.todos[i]).project_id,
    ) by {
        assert(v.has_project(v.todos[i].project_id));
    }
    assert forall|i: int, j: int|
        0 <= i < after.todos.len() && 0 <= j < after.todos.len() && i != j && (
        #[trigger] after.todos[i]).is_active() && active_in(
            #[trigger] after.todos[j],
            after.todos[i].project_id,
        ) implies after.todos[i].position != after.todos[j].position by {
        assert(v.todos[i].is_active() && active_in(v.todos[j], v.todos[i].project_id));
    }
}

/// Making a todo active again keeps the store consistent: its position is new
/// to the project.
pub proof fn lemma_uncomplete_todo_consistent(v: DatabaseView, id: i64)
    requires
        v.wf(),
        v.has_todo(id),
        v.has_room_for_position(v.todo(id).project_id),
    ensures
        v.uncomplete_todo(id).wf(),
{
    let after = v.uncomplete_todo(id);
    let at = v.todo_index(id);
    let project_id = v.todo(id).project_id;
    lemma_max_active_position(v.todos, project_id);
    assert forall|i: int| 0 <= i < after.todos.len() implies after.has_project(
        (#[trigger] after.todos[i]).project_id,
    ) by {
        assert(v.has_project(v.todos[i].project_id));
    }
    assert forall|i: int, j: int|
        0 <= i < after.todos.len() && 0 <= j < after.todos.len() && i != j && (
        #[trigger] after.todos[i]).is_active() && active_in(
            #[trigger] after.todos[j],
            after.todos[i].project_id,
        ) implies after.todos[i].position != after.todos[j].position by {
        if i != at && j != at {
            assert(v.todos[i].is_active() && active_in(v.todos[j], v.todos[i].project_id));
        } else if i == at {
            assert(active_in(v.todos[j], project_id));
        } else {
            assert(active_in(v.todos[i], project_id));
        }
    }
}

/// Deleting a todo keeps the store consistent.
pub proof fn lemma_delete_todo_consistent(v: DatabaseView, id: i64)
    requires
        v.wf(),
        v.has_todo(id),
    ensures
        v.delete_todo(id).wf(),
{
    let after = v.delete_todo(id);
    let at = v.todo_index(id);
    let from = |i: int| if i < at { i } else { i + 1 };
    assert forall|i: int| 0 <= i < after.todos.len() implies after.todos[i] == v.todos[from(i)] by {}
    assert forall|i: int| 0 <= i < after.todos.len() implies after.has_project(
        (#[trigger] after.todos[i]).project_id,
    ) by {
        assert(v.has_project(v.todos[from(i)].project_id));
    }
    assert forall|i: int| 0 <= i < after.todos.len() implies 1 <= (#[trigger] after.todos[i]).id
        < after.next_todo_id by {
        assert(after.todos[i] == v.todos[from(i)]);
    }
    assert forall|i: int, j: int|
        #![trigger after.todos[i], after.todos[j]]
        0 <= i < j < after.todos.len() implies after.todos[i].id < after.todos[j].id by {
        assert(after.todos[i] == v.todos[from(i)]);
        assert(after.todos[j] == v.todos[from(j)]);
    }
    assert(positions_consistent(after.todos)) by {
        assert forall|i: int, j: int|
            0 <= i < after.todos.len() && 0 <= j < after.todos.len() && i != j && (
            #[trigger] after.todos[i]).is_active() && active_in(
                #[trigger] after.todos[j],
                after.todos[i].project_id,
            ) implies after.todos[i].position != after.todos[j].position by {
            assert(after.todos[i] == v.todos[from(i)]);
            assert(after.todos[j] == v.todos[from(j)]);
        }
        assert forall|i: int|
            0 <= i < after.todos.len() && (#[trigger] after.todos[i]).is_completed() implies after.todos[i].position
            == 0 by {
            assert(after.todos[i] == v.todos[from(i)]);
        }
        assert forall|i: int|
            0 <= i < after.todos.len() && (#[trigger] after.todos[i]).is_active() implies after.todos[i].position
            >= 1 by {
            assert(after.todos[i] == v.todos[from(i)]);
        }
    }
}

/// Putting another value in the place of a todo keeps the store consistent
/// where identifier, project, completion and position stay as they were.
/// Changing the description or the details of a todo is of this kind.
pub proof fn lemma_replace_todo_consistent(v: DatabaseView, id: i64, todo: TodoView)
    requires
        v.wf(),
        v.has_todo(id),
        todo.id == id,
        todo.project_id == v.todo(id).project_id,
        todo.completed_at == v.todo(id).completed_at,
        todo.position == v.todo(id).position,
    ensures
        v.with_todo(id, todo).wf(),
{
    let after = v.with_todo(id, todo);
    assert forall|i: int| 0 <= i < after.todos.len() implies after.has_project(
        (#[trigger] after.todos[i]).project_id,
    ) by {
        assert(v.has_project(v.todos[i].project_id));
    }
    assert forall|i: int, j: int|
        0 <= i < after.todos.len() && 0 <= j < after.todos.len() && i != j && (
        #[trigger] after.todos[i]).is_active() && active_in(
            #[trigger] after.todos[j],
            after.todos[i].project_id,
        ) implies after.todos[i].position != after.todos[j].position by {
        assert(v.todos[i].is_active() && active_in(v.todos[j], v.todos[i].project_id));
    }
}

/// Moving an active todo up or down keeps the store consistent.
pub proof fn lemma_reorder_todo_consistent(v: DatabaseView, id: i64, direction: Direction)
    requires
        v.wf(),
        v.has_todo(id),
        v.todo(id).is_active(),
    ensures
        v.reorder_todo(id, direction).wf(),
{
    if v.has_neighbour(id, direction) {
        let after = v.reorder_todo(id, direction);
        let at = v.todo_index(id);
        let other = v.neighbour_index(id, direction);
        assert(is_swap_target(v.todos, at, other, direction));
        assert(active_in(v.todos[other], v.todos[at].project_id));
        assert forall|i: int| 0 <= i < after.todos.len() implies after.has_project(
            (#[trigger] after.todos[i]).project_id,
        ) by {
            assert(v.has_project(v.todos[i].project_id));
        }
        assert forall|i: int, j: int|
            0 <= i < after.todos.len() && 0 <= j < after.todos.len() && i != j && (
            #[trigger] after.todos[i]).is_active() && active_in(
                #[trigger] after.todos[j],
                after.todos[i].project_id,
            ) implies after.todos[i].position != after.todos[j].position by {
            assert(v.todos[i].is_active() && active_in(v.todos[j], v.todos[i].project_id));
            assert(v.todos[at].is_active() && v.todos[other].is_active());
            let before_i = if i == at { other } else if i == other { at } else { i };
            let before_j = if j == at { other } else if j == other { at } else { j };
            assert(after.todos[i].position == v.todos[before_i].position);
            assert(after.todos[j].position == v.todos[before_j].position);
            assert(v.todos[before_i].is_active() && active_in(v.todos[before_j], v.todos[before_i].project_id));
        }
    }
}

/// What is left after filtering stands in the order that it had. The result
/// names, for each element that is left, its place in `s`: every such
/// element meets the predicate, and the places grow from left to right.
pub proof fn lemma_filter_keeps_order<A>(s: Seq<A>, keep: spec_fn(A) -> bool) -> (from: Seq<int>)
    ensures
        from.len() == s.filter(keep).len(),
        forall|i: int| 0 <= i < from.len() ==> keep(#[trigger] s.filter(keep)[i]),
        forall|i: int|
            0 <= i < from.len() ==> 0 <= #[trigger] from[i] < s.len() && s[from[i]] == s.filter(keep)[i],
        forall|i: int, j: int| 0 <= i < j < from.len() ==> #[trigger] from[i] < #[trigger] from[j],
    decreases s.len(),
{
    reveal(Seq::filter);
    if s.len() == 0 {
        Seq::<int>::empty()
    } else {
        let front = s.drop_last();
        let from = lemma_filter_keeps_order(front, keep);
        if keep(s.last()) {
            let longer = from.push(s.len() - 1);
            assert forall|i: int| 0 <= i < longer.len() implies 0 <= #[trigger] longer[i] < s.len() && s[longer[i]]
                == s.filter(keep)[i] by {
                if i < from.len() {
                    assert(longer[i] == from[i]);
                    assert(front[from[i]] == front.filter(keep)[i]);
                }
            }
            assert forall|i: int, j: int| 0 <= i < j < longer.len() implies #[trigger] longer[i]
                < #[trigger] longer[j] by {
                assert(longer[i] == from[i]);
                if j < from.len() {
                    assert(longer[j] == from[j]);
                }
            }
            longer
        } else {
            assert forall|i: int| 0 <= i < from.len() implies 0 <= #[trigger] from[i] < s.len() && s[from[i]]
                == s.filter(keep)[i] by {
                assert(front[from[i]] == front.filter(keep)[i]);
            }
            from
        }
    }
}

} // verus!
