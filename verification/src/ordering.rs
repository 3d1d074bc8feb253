use crate::models::{todo_views, Todo, TodoView};
use vstd::prelude::*;

verus! {

/// The way a todo is moved in the list of its project.
#[derive(Clone, Copy, Debug, PartialEq, Eq, Structural)]
pub enum Direction {
    /// Towards the head of the list: to a smaller position.
    Up,
    /// Towards the end of the list: to a greater position.
    Down,
}

impl Direction {
    /// Whether position `to` lies in this direction from position `from`.
    pub open spec fn leads(self, from: int, to: int) -> bool {
        match self {
            Direction::Up => to < from,
            Direction::Down => to > from,
        }
    }
}

/// Whether `todo` is an active todo of the project.
pub open spec fn active_in(todo: TodoView, project_id: i64) -> bool {
    todo.project_id == project_id && todo.is_active()
}

/// The greatest position among the active todos of the project, if it has one.
pub open spec fn max_active_position(todos: Seq<TodoView>, project_id: i64) -> Option<int>
    decreases todos.len(),
{
    if todos.len() == 0 {
        None
    } else {
        let before = max_active_position(todos.drop_last(), project_id);
        let todo = todos.last();
        if active_in(todo, project_id) && (before is None || before->0 < todo.position) {
            Some(todo.position as int)
        } else {
            before
        }
    }
}

/// Whether `position` is the greatest position among the active todos of the
/// project: one of them has it, and none has a greater one.
pub open spec fn is_greatest_active_position(todos: Seq<TodoView>, project_id: i64, position: int) -> bool {
    &&& exists|i: int|
        0 <= i < todos.len() && active_in(#[trigger] todos[i], project_id) && todos[i].position == position
    &&& forall|i: int|
        0 <= i < todos.len() && active_in(#[trigger] todos[i], project_id) ==> todos[i].position <= position
}

/// Whether the project has no active todo.
pub open spec fn has_no_active(todos: Seq<TodoView>, project_id: i64) -> bool {
    forall|i: int| 0 <= i < todos.len() ==> !active_in(#[trigger] todos[i], project_id)
}

/// The position that a todo gets when it joins the active todos of the project:
/// one more than the greatest in use, and 1 in a project without active todos.
pub open spec fn next_position(todos: Seq<TodoView>, project_id: i64) -> int {
    match max_active_position(todos, project_id) {
        Some(greatest) => greatest + 1,
        None => 1,
    }
}

/// Whether the todo at `j` is the one that the todo at `i` changes places with
/// when it moves in `direction`: an active todo of the same project that lies in
/// that direction, with none of them nearer.
pub open spec fn is_swap_target(todos: Seq<TodoView>, i: int, j: int, direction: Direction) -> bool {
    &&& 0 <= i < todos.len()
    &&& 0 <= j < todos.len()
    &&& active_in(todos[j], todos[i].project_id)
    &&& direction.leads(todos[i].position as int, todos[j].position as int)
    &&& forall|k: int|
        0 <= k < todos.len() && active_in(#[trigger] todos[k], todos[i].project_id) && direction.leads(
            todos[i].position as int,
            todos[k].position as int,
        ) ==> !direction.leads(todos[k].position as int, todos[j].position as int)
}

/// Whether the todo at `i` has a neighbour in `direction` at all.
pub open spec fn has_swap_target(todos: Seq<TodoView>, i: int, direction: Direction) -> bool {
    exists|j: int| is_swap_target(todos, i, j, direction)
}

/// No two active todos of one project share a position.
pub open spec fn positions_distinct(todos: Seq<TodoView>) -> bool {
    forall|i: int, j: int|
        0 <= i < todos.len() && 0 <= j < todos.len() && i != j && (#[trigger] todos[i]).is_active()
            && active_in(#[trigger] todos[j], todos[i].project_id) ==> todos[i].position
            != todos[j].position
}

/// Every active todo has a position of at least 1, every completed one the
/// position 0, and no two active todos of one project share a position.
pub open spec fn positions_consistent(todos: Seq<TodoView>) -> bool {
    &&& forall|i: int| 0 <= i < todos.len() && (#[trigger] todos[i]).is_completed() ==> todos[i].position == 0
    &&& forall|i: int| 0 <= i < todos.len() && (#[trigger] todos[i]).is_active() ==> todos[i].position >= 1
    &&& positions_distinct(todos)
}

/// `todos` with the positions of the todos at `i` and `j` exchanged.
pub open spec fn swap_positions(todos: Seq<TodoView>, i: int, j: int) -> Seq<TodoView> {
    todos.update(i, TodoView { position: todos[j].position, ..todos[i] }).update(
        j,
        TodoView { position: todos[i].position, ..todos[j] },
    )
}

/// What `max_active_position` means: it is absent exactly when the project has
/// no active todo; else some active todo of the project has it, and none has a
/// greater one.
pub proof fn lemma_max_active_position(todos: Seq<TodoView>, project_id: i64)
    ensures
        max_active_position(todos, project_id) is None <==> forall|i: int|
            0 <= i < todos.len() ==> !active_in(#[trigger] todos[i], project_id),
        max_active_position(todos, project_id) matches Some(greatest) ==> {
            &&& exists|i: int|
                0 <= i < todos.len() && active_in(#[trigger] todos[i], project_id) && todos[i].position
                    == greatest
            &&& forall|i: int|
                0 <= i < todos.len() && active_in(#[trigger] todos[i], project_id) ==> todos[i].position
                    <= greatest
        },
    decreases todos.len(),
{
    if todos.len() > 0 {
        let front = todos.drop_last();
        lemma_max_active_position(front, project_id);
        assert forall|i: int| 0 <= i < front.len() implies front[i] == todos[i] by {}
        match max_active_position(todos, project_id) {
            Some(greatest) => {
                if max_active_position(front, project_id) == Some(greatest) {
                    let i = choose|i: int|
                        0 <= i < front.len() && active_in(#[trigger] front[i], project_id) && front[i].position
                            == greatest;
                    assert(active_in(todos[i], project_id) && todos[i].position == greatest);
                } else {
                    assert(active_in(todos[todos.len() - 1], project_id));
                }
                assert forall|i: int|
                    0 <= i < todos.len() && active_in(#[trigger] todos[i], project_id) implies todos[i].position
                    <= greatest by {
                    if i < front.len() {
                        assert(active_in(front[i], project_id));
                    }
                }
            },
            None => {
                assert forall|i: int| 0 <= i < todos.len() implies !active_in(
                    #[trigger] todos[i],
                    project_id,
                ) by {
                    if i < front.len() {
                        assert(!active_in(front[i], project_id));
                    }
                }
            },
        }
        if forall|i: int| 0 <= i < todos.len() ==> !active_in(#[trigger] todos[i], project_id) {
            assert forall|i: int| 0 <= i < front.len() implies !active_in(
                #[trigger] front[i],
                project_id,
            ) by {
                assert(!active_in(todos[i], project_id));
            }
            assert(!active_in(todos[todos.len() - 1], project_id));
        }
    }
}

/// Where positions are distinct, a todo has at most one neighbour in a direction.
pub proof fn lemma_swap_target_unique(todos: Seq<TodoView>, i: int, j: int, k: int, direction: Direction)
    requires
        positions_distinct(todos),
        is_swap_target(todos, i, j, direction),
        is_swap_target(todos, i, k, direction),
    ensures
        j == k,
{
    assert(active_in(todos[j], todos[i].project_id));
    assert(active_in(todos[k], todos[i].project_id));
    assert(todos[j].position == todos[k].position);
}

/// The greatest position among the active todos of the project in `todos`.
pub fn greatest_active_position(todos: &Vec<Todo>, project_id: i64) -> (r: Option<i64>)
    ensures
        r is Some == max_active_position(todo_views(todos@), project_id) is Some,
        r matches Some(greatest) ==> max_active_position(todo_views(todos@), project_id) == Some(
            greatest as int,
        ),
{
    let mut greatest: Option<i64> = None;
    let mut n: usize = 0;
    while n < todos.len()
        invariant
            n <= todos.len(),
            greatest is Some == max_active_position(todo_views(todos@).take(n as int), project_id) is Some,
            greatest matches Some(g) ==> max_active_position(
                todo_views(todos@).take(n as int),
                project_id,
            ) == Some(g as int),
        decreases todos.len() - n,
    {
        let todo = &todos[n];
        proof {
            let views = todo_views(todos@);
            assert(views.take(n + 1).drop_last() =~= views.take(n as int));
            assert(views.take(n + 1).last() == todo@);
        }
        if todo.project_id == project_id && todo.completed_at.is_none() {
            greatest =
            match greatest {
                Some(g) => if g < todo.position {
                    Some(todo.position)
                } else {
                    Some(g)
                },
                None => Some(todo.position),
            };
        }
        n += 1;
    }
    proof {
        assert(todo_views(todos@).take(n as int) =~= todo_views(todos@));
    }
    greatest
}

/// The position for a todo that joins the active todos of the project, or
/// `None` where that position does not fit the machine's integers.
pub fn position_after_all(todos: &Vec<Todo>, project_id: i64) -> (r: Option<i64>)
    ensures
        r is Some == (next_position(todo_views(todos@), project_id) <= i64::MAX),
        r matches Some(position) ==> position == next_position(todo_views(todos@), project_id),
{
    match greatest_active_position(todos, project_id) {
        Some(greatest) => if greatest < i64::MAX {
            Some(greatest + 1)
        } else {
            None
        },
        None => Some(1),
    }
}

/// Whether position `to` lies in `direction` from position `from`.
pub fn leads(direction: Direction, from: i64, to: i64) -> (b: bool)
    ensures
        b == direction.leads(from as int, to as int),
{
    match direction {
        Direction::Up => to < from,
        Direction::Down => to > from,
    }
}

/// The index of the todo that the one at `index` changes places with when it
/// moves in `direction`, or `None` where it has no neighbour there. Of several
/// that are equally near, it is the first.
pub fn find_swap_target(todos: &Vec<Todo>, index: usize, direction: Direction) -> (r: Option<usize>)
    requires
        index < todos.len(),
    ensures
        r is Some == has_swap_target(todo_views(todos@), index as int, direction),
        r matches Some(j) ==> {
            &&& is_swap_target(todo_views(todos@), index as int, j as int, direction)
            &&& forall|k: int| 0 <= k < j ==> !is_swap_target(todo_views(todos@), index as int, k, direction)
        },
{
    let ghost views = todo_views(todos@);
    let project_id = todos[index].project_id;
    let from = todos[index].position;
    let mut best: Option<usize> = None;
    let mut n: usize = 0;
    while n < todos.len()
        invariant
            n <= todos.len(),
            index < todos.len(),
            views == todo_views(todos@),
            project_id == views[index as int].project_id,
            from == views[index as int].position,
            best matches Some(j) ==> {
                &&& j < n
                &&& active_in(views[j as int], project_id)
                &&& direction.leads(from as int, views[j as int].position as int)
                &&& forall|k: int|
                    0 <= k < n && active_in(#[trigger] views[k], project_id) && direction.leads(
                        from as int,
                        views[k].position as int,
                    ) ==> !direction.leads(views[k].position as int, views[j as int].position as int) && (
                    views[k].position == views[j as int].position ==> j <= k)
            },
            best is None ==> forall|k: int|
                0 <= k < n && active_in(#[trigger] views[k], project_id) ==> !direction.leads(
                    from as int,
                    views[k].position as int,
                ),
        decreases todos.len() - n,
    {
        let todo = &todos[n];
        assert(todo@ == views[n as int]);
        if todo.project_id == project_id && todo.completed_at.is_none() && leads(
            direction,
            from,
            todo.position,
        ) {
            let nearer = match best {
                Some(j) => leads(direction, todo.position, todos[j].position),
                None => true,
            };
            if nearer {
                best = Some(n);
            }
        }
        n += 1;
    }
    proof {
        match best {
            Some(j) => {
                assert(is_swap_target(views, index as int, j as int, direction));
                assert forall|k: int| 0 <= k < j implies !is_swap_target(views, index as int, k, direction) by {
                    if is_swap_target(views, index as int, k, direction) {
                        assert(active_in(views[j as int], project_id));
                        assert(active_in(views[k], project_id));
                    }
                }
            },
            None => {
                assert forall|j: int| !is_swap_target(views, index as int, j, direction) by {
                    if is_swap_target(views, index as int, j, direction) {
                        assert(active_in(views[j], project_id));
                    }
                }
            },
        }
    }
    best
}

} // verus!
