use crate::db::{records_view, Database};
use crate::models::{project_views, todo_views, Project, ProjectView, Todo, TodoView};
use crate::ordering::{active_in, positions_consistent};
use vstd::prelude::*;

verus! {

/// Whether the identifiers of `projects` are positive, below `next`, and grow
/// along the records.
pub open spec fn project_ids_in_order(projects: Seq<ProjectView>, next: i64) -> bool {
    &&& forall|i: int| 0 <= i < projects.len() ==> 1 <= (#[trigger] projects[i]).id < next
    &&& forall|i: int, j: int|
        #![trigger projects[i], projects[j]]
        0 <= i < j < projects.len() ==> projects[i].id < projects[j].id
}

/// Whether the identifiers of `todos` are positive, below `next`, and grow
/// along the records.
pub open spec fn todo_ids_in_order(todos: Seq<TodoView>, next: i64) -> bool {
    &&& forall|i: int| 0 <= i < todos.len() ==> 1 <= (#[trigger] todos[i]).id < next
    &&& forall|i: int, j: int|
        #![trigger todos[i], todos[j]]
        0 <= i < j < todos.len() ==> todos[i].id < todos[j].id
}

/// Whether one of `projects` has the identifier `id`.
pub open spec fn owns(projects: Seq<ProjectView>, id: i64) -> bool {
    exists|k: int| 0 <= k < projects.len() && (#[trigger] projects[k]).id == id
}

/// Whether every todo of `todos` belongs to one of `projects`.
pub open spec fn todos_have_projects(projects: Seq<ProjectView>, todos: Seq<TodoView>) -> bool {
    forall|i: int| 0 <= i < todos.len() ==> owns(projects, (#[trigger] todos[i]).project_id)
}

/// Checks that the identifiers of `projects` are positive, below `next`, and
/// grow along the records.
pub fn check_project_ids(projects: &Vec<Project>, next: i64) -> (ok: bool)
    ensures
        ok == project_ids_in_order(project_views(projects@), next),
{
    let ghost views = project_views(projects@);
    let mut previous: i64 = 0;
    let mut n: usize = 0;
    while n < projects.len()
        invariant
            n <= projects.len(),
            views == project_views(projects@),
            n == 0 ==> previous == 0,
            n > 0 ==> previous == views[n - 1].id,
            forall|i: int| 0 <= i < n ==> 1 <= (#[trigger] views[i]).id < next,
            forall|i: int, j: int| #![trigger views[i], views[j]] 0 <= i < j < n ==> views[i].id < views[j].id,
        decreases projects.len() - n,
    {
        let id = projects[n].id;
        assert(views[n as int].id == id);
        if id <= previous || id >= next {
            proof {
                if id < 1 || id >= next {
                    assert(!(1 <= views[n as int].id < next));
                } else {
                    assert(!(views[n - 1].id < views[n as int].id));
                }
            }
            return false;
        }
        previous = id;
        n += 1;
    }
    true
}

/// Checks that the identifiers of `todos` are positive, below `next`, and grow
/// along the records.
pub fn check_todo_ids(todos: &Vec<Todo>, next: i64) -> (ok: bool)
    ensures
        ok == todo_ids_in_order(todo_views(todos@), next),
{
    let ghost views = todo_views(todos@);
    let mut previous: i64 = 0;
    let mut n: usize = 0;
    while n < todos.len()
        invariant
            n <= todos.len(),
            views == todo_views(todos@),
            n == 0 ==> previous == 0,
            n > 0 ==> previous == views[n - 1].id,
            forall|i: int| 0 <= i < n ==> 1 <= (#[trigger] views[i]).id < next,
            forall|i: int, j: int| #![trigger views[i], views[j]] 0 <= i < j < n ==> views[i].id < views[j].id,
        decreases todos.len() - n,
    {
        let id = todos[n].id;
        assert(views[n as int].id == id);
        if id <= previous || id >= next {
            proof {
                if id < 1 || id >= next {
                    assert(!(1 <= views[n as int].id < next));
                } else {
                    assert(!(views[n - 1].id < views[n as int].id));
                }
            }
            return false;
        }
        previous = id;
        n += 1;
    }
    true
}

/// Whether one of `projects` has the identifier `id`.
fn has_project(projects: &Vec<Project>, id: i64) -> (found: bool)
    ensures
        found == owns(project_views(projects@), id),
{
    let ghost views = project_views(projects@);
    let mut n: usize = 0;
    while n < projects.len()
        invariant
            n <= projects.len(),
            views == project_views(projects@),
            forall|k: int| 0 <= k < n ==> (#[trigger] views[k]).id != id,
        decreases projects.len() - n,
    {
        if projects[n].id == id {
            assert(views[n as int].id == id);
            return true;
        }
        n += 1;
    }
    false
}

/// Checks that every todo of `todos` belongs to one of `projects`.
pub fn check_todo_projects(projects: &Vec<Project>, todos: &Vec<Todo>) -> (ok: bool)
    ensures
        ok == todos_have_projects(project_views(projects@), todo_views(todos@)),
{
    let ghost owners = project_views(projects@);
    let ghost views = todo_views(todos@);
    let mut n: usize = 0;
    while n < todos.len()
        invariant
            n <= todos.len(),
            owners == project_views(projects@),
            views == todo_views(todos@),
            forall|i: int| 0 <= i < n ==> owns(owners, (#[trigger] views[i]).project_id),
        decreases todos.len() - n,
    {
        assert(views[n as int].project_id == todos[n as int].project_id);
        if !has_project(projects, todos[n].project_id) {
            assert(!owns(owners, views[n as int].project_id));
            return false;
        }
        n += 1;
    }
    true
}

/// Whether the todo at `at` has a position that suits it: 0 if it is
/// completed, and else one of at least 1 that no active todo of its project
/// before it has.
pub open spec fn position_suits(todos: Seq<TodoView>, at: int) -> bool {
    if todos[at].is_completed() {
        todos[at].position == 0
    } else {
        &&& todos[at].position >= 1
        &&& forall|j: int|
            0 <= j < at && active_in(#[trigger] todos[j], todos[at].project_id) ==> todos[j].position
                != todos[at].position
    }
}

/// Positions are consistent exactly when the position of every todo suits it.
pub proof fn lemma_positions_suit(todos: Seq<TodoView>)
    ensures
        positions_consistent(todos) <==> forall|at: int| 0 <= at < todos.len() ==> position_suits(todos, at),
{
    if positions_consistent(todos) {
        assert forall|at: int| 0 <= at < todos.len() implies position_suits(todos, at) by {
            if todos[at].is_active() {
                assert forall|j: int|
                    0 <= j < at && active_in(#[trigger] todos[j], todos[at].project_id) implies todos[j].position
                    != todos[at].position by {
                    assert(todos[at].is_active() && active_in(todos[j], todos[at].project_id));
                }
            }
        }
    }
    if forall|at: int| 0 <= at < todos.len() ==> position_suits(todos, at) {
        assert forall|i: int| 0 <= i < todos.len() && (#[trigger] todos[i]).is_completed() implies todos[i].position
            == 0 by {
            assert(position_suits(todos, i));
        }
        assert forall|i: int| 0 <= i < todos.len() && (#[trigger] todos[i]).is_active() implies todos[i].position
            >= 1 by {
            assert(position_suits(todos, i));
        }
        assert forall|i: int, j: int|
            0 <= i < todos.len() && 0 <= j < todos.len() && i != j && (#[trigger] todos[i]).is_active()
                && active_in(#[trigger] todos[j], todos[i].project_id) implies todos[i].position
            != todos[j].position by {
            if i < j {
                assert(position_suits(todos, j));
                assert(active_in(todos[i], todos[j].project_id));
            } else {
                assert(position_suits(todos, i));
            }
        }
    }
}

/// Checks that the position of the todo at `at` suits it.
fn check_position(todos: &Vec<Todo>, at: usize) -> (ok: bool)
    requires
        at < todos.len(),
    ensures
        ok == position_suits(todo_views(todos@), at as int),
{
    let ghost views = todo_views(todos@);
    let todo = &todos[at];
    assert(todo@ == views[at as int]);
    if todo.completed_at.is_some() {
        return todo.position == 0;
    }
    if todo.position < 1 {
        return false;
    }
    let mut j: usize = 0;
    while j < at
        invariant
            j <= at < todos.len(),
            views == todo_views(todos@),
            todo@ == views[at as int],
            todo.completed_at is None,
            todo.position >= 1,
            forall|k: int|
                0 <= k < j && active_in(#[trigger] views[k], todo.project_id) ==> views[k].position
                    != todo.position,
        decreases at - j,
    {
        let other = &todos[j];
        assert(other@ == views[j as int]);
        if other.project_id == todo.project_id && other.completed_at.is_none() && other.position
            == todo.position {
            assert(active_in(views[j as int], todo.project_id) && views[j as int].position == todo.position);
            return false;
        }
        j += 1;
    }
    true
}

/// Checks that positions are consistent: an active todo has a position of at
/// least 1 that no other active todo of its project has, a completed todo has
/// position 0.
pub fn check_positions(todos: &Vec<Todo>) -> (ok: bool)
    ensures
        ok == positions_consistent(todo_views(todos@)),
{
    let ghost views = todo_views(todos@);
    proof {
        lemma_positions_suit(views);
    }
    let mut n: usize = 0;
    while n < todos.len()
        invariant
            n <= todos.len(),
            views == todo_views(todos@),
            forall|at: int| 0 <= at < n ==> position_suits(views, at),
        decreases todos.len() - n,
    {
        if !check_position(todos, n) {
            return false;
        }
        n += 1;
    }
    true
}

/// Whether `len` records fit below the identifier `next`.
fn fits_below(len: usize, next: i64) -> (ok: bool)
    ensures
        ok == (len < next),
{
    next >= 1 && (len as u64) < (next as u64)
}

impl Database {
    /// The store that is made of the given records, as they were read from
    /// `projects` and `todos` of a store, with the identifiers that the next
    /// records are to get; `None` where they do not make a consistent store.
    pub fn restore(projects: Vec<Project>, todos: Vec<Todo>, next_project_id: i64, next_todo_id: i64) -> (r:
        Option<Database>)
        ensures
            match r {
                Some(db) => db@ == records_view(projects@, todos@, next_project_id, next_todo_id) && db@.wf(),
                None => !records_view(projects@, todos@, next_project_id, next_todo_id).wf(),
            },
    {
        let ghost v = records_view(projects@, todos@, next_project_id, next_todo_id);
        let counted = fits_below(projects.len(), next_project_id) && fits_below(todos.len(), next_todo_id);
        let ok = counted && check_project_ids(&projects, next_project_id) && check_todo_ids(&todos, next_todo_id)
            && check_todo_projects(&projects, &todos) && check_positions(&todos);
        proof {
            assert forall|id: i64| owns(v.projects, id) == v.has_project(id) by {}
            assert(ok == v.wf());
        }
        if ok {
            Some(Database::assemble(projects, todos, next_project_id, next_todo_id))
        } else {
            None
        }
    }
}

} // verus!
