use crate::models::{ProjectView, ProjectWithStatsView, TodoView};
use crate::ordering::{has_swap_target, is_swap_target, next_position, positions_consistent, swap_positions, Direction};
use vstd::prelude::*;

verus! {

/// The store as contracts see it: the records in the order in which they were
/// created, and the identifiers that the next records will get.
#[verifier::ext_equal]
pub struct DatabaseView {
    pub projects: Seq<ProjectView>,
    pub todos: Seq<TodoView>,
    pub next_project_id: i64,
    pub next_todo_id: i64,
}

/// Whether `a` stands before `b` in the list of a project's todos: active todos
/// first, by position; then completed todos, the one completed last first.
/// Where that leaves two todos level, the older one stands first.
pub open spec fn lists_before(a: TodoView, b: TodoView) -> bool {
    if a.is_active() {
        b.is_completed() || a.position < b.position || (a.position == b.position && a.id < b.id)
    } else {
        b.is_completed() && (a.completed_at->0 > b.completed_at->0 || (a.completed_at->0
            == b.completed_at->0 && a.id < b.id))
    }
}

/// Whether every todo of `listing` stands before those that follow it.
pub open spec fn todos_in_order(listing: Seq<TodoView>) -> bool {
    forall|a: int, b: int| 0 <= a < b < listing.len() ==> lists_before(#[trigger] listing[a], #[trigger] listing[b])
}

/// Whether `a` stands before `b` in the list of projects: the one created last
/// first, and of two created at the same time the older one.
pub open spec fn project_lists_before(a: ProjectView, b: ProjectView) -> bool {
    a.created_at > b.created_at || (a.created_at == b.created_at && a.id < b.id)
}

/// Whether every project of `listing` stands before those that follow it.
pub open spec fn projects_in_order(listing: Seq<ProjectWithStatsView>) -> bool {
    forall|a: int, b: int|
        0 <= a < b < listing.len() ==> project_lists_before(
            (#[trigger] listing[a]).project,
            (#[trigger] listing[b]).project,
        )
}

impl DatabaseView {
    /// The store that holds nothing.
    pub open spec fn empty() -> DatabaseView {
        DatabaseView { projects: Seq::empty(), todos: Seq::empty(), next_project_id: 1, next_todo_id: 1 }
    }

    pub open spec fn has_project(self, id: i64) -> bool {
        exists|i: int| 0 <= i < self.projects.len() && (#[trigger] self.projects[i]).id == id
    }

    /// Where the project `id` stands among the projects.
    pub open spec fn project_index(self, id: i64) -> int {
        choose|i: int| 0 <= i < self.projects.len() && (#[trigger] self.projects[i]).id == id
    }

    pub open spec fn project(self, id: i64) -> ProjectView {
        self.projects[self.project_index(id)]
    }

    pub open spec fn has_todo(self, id: i64) -> bool {
        exists|i: int| 0 <= i < self.todos.len() && (#[trigger] self.todos[i]).id == id
    }

    /// Where the todo `id` stands among the todos.
    pub open spec fn todo_index(self, id: i64) -> int {
        choose|i: int| 0 <= i < self.todos.len() && (#[trigger] self.todos[i]).id == id
    }

    pub open spec fn todo(self, id: i64) -> TodoView {
        self.todos[self.todo_index(id)]
    }

    /// The invariant of the store. Identifiers are positive, below the next one
    /// to be given out, and grow along the records; every todo belongs to a
    /// project of the store; and positions are consistent: an active todo has a
    /// position of at least 1 that no other active todo of its project has, a
    /// completed todo has position 0.
    pub open spec fn wf(self) -> bool {
        &&& self.projects.len() < self.next_project_id
        &&& self.todos.len() < self.next_todo_id
        &&& forall|i: int|
            0 <= i < self.projects.len() ==> 1 <= (#[trigger] self.projects[i]).id < self.next_project_id
        &&& forall|i: int, j: int|
            #![trigger self.projects[i], self.projects[j]]
            0 <= i < j < self.projects.len() ==> self.projects[i].id < self.projects[j].id
        &&& forall|i: int| 0 <= i < self.todos.len() ==> 1 <= (#[trigger] self.todos[i]).id < self.next_todo_id
        &&& forall|i: int, j: int|
            #![trigger self.todos[i], self.todos[j]]
            0 <= i < j < self.todos.len() ==> self.todos[i].id < self.todos[j].id
        &&& forall|i: int| 0 <= i < self.todos.len() ==> self.has_project((#[trigger] self.todos[i]).project_id)
        &&& positions_consistent(self.todos)
    }

    /// The store with `project` in the place of the project `id`.
    pub open spec fn with_project(self, id: i64, project: ProjectView) -> DatabaseView {
        DatabaseView { projects: self.projects.update(self.project_index(id), project), ..self }
    }

    /// The store with `todo` in the place of the todo `id`.
    pub open spec fn with_todo(self, id: i64, todo: TodoView) -> DatabaseView {
        DatabaseView { todos: self.todos.update(self.todo_index(id), todo), ..self }
    }

    /// Whether the store can take one more project.
    pub open spec fn has_room_for_project(self) -> bool {
        self.next_project_id < i64::MAX
    }

    /// The store after a project was created at time `now`.
    pub open spec fn create_project(self, name: Seq<char>, description: Option<Seq<char>>, now: i64) -> DatabaseView {
        DatabaseView {
            projects: self.projects.push(
                ProjectView { id: self.next_project_id, name, description, created_at: now, archived_at: None },
            ),
            next_project_id: (self.next_project_id + 1) as i64,
            ..self
        }
    }

    pub open spec fn archive_project(self, id: i64, now: i64) -> DatabaseView {
        self.with_project(id, ProjectView { archived_at: Some(now), ..self.project(id) })
    }

    pub open spec fn unarchive_project(self, id: i64) -> DatabaseView {
        self.with_project(id, ProjectView { archived_at: None, ..self.project(id) })
    }

    pub open spec fn update_project_name(self, id: i64, name: Seq<char>) -> DatabaseView {
        self.with_project(id, ProjectView { name, ..self.project(id) })
    }

    pub open spec fn update_project_description(self, id: i64, description: Option<Seq<char>>) -> DatabaseView {
        self.with_project(id, ProjectView { description, ..self.project(id) })
    }

    /// The store without the project `id` and without its todos.
    pub open spec fn delete_project(self, id: i64) -> DatabaseView {
        DatabaseView {
            projects: self.projects.remove(self.project_index(id)),
            todos: self.todos.filter(|todo: TodoView| todo.project_id != id),
            ..self
        }
    }

    /// Whether the project `project_id` can take one more active todo.
    pub open spec fn has_room_for_position(self, project_id: i64) -> bool {
        next_position(self.todos, project_id) <= i64::MAX
    }

    /// Whether the store can take one more todo in the project `project_id`.
    pub open spec fn has_room_for_todo(self, project_id: i64) -> bool {
        self.next_todo_id < i64::MAX && self.has_room_for_position(project_id)
    }

    /// The store after a todo was created in the project at time `now`: the new
    /// todo is active and stands after all active todos of the project.
    pub open spec fn create_todo(self, project_id: i64, description: Seq<char>, now: i64) -> DatabaseView {
        DatabaseView {
            todos: self.todos.push(
                TodoView {
                    id: self.next_todo_id,
                    project_id,
                    description,
                    details: None,
                    created_at: now,
                    completed_at: None,
                    position: next_position(self.todos, project_id) as i64,
                },
            ),
            next_todo_id: (self.next_todo_id + 1) as i64,
            ..self
        }
    }

    /// The store after the todo `id` was completed at time `now`: it leaves the
    /// order of the active todos.
    pub open spec fn complete_todo(self, id: i64, now: i64) -> DatabaseView {
        self.with_todo(id, TodoView { completed_at: Some(now), position: 0, ..self.todo(id) })
    }

    /// The store after the todo `id` was made active again: it stands after all
    /// todos of its project that were active before.
    pub open spec fn uncomplete_todo(self, id: i64) -> DatabaseView {
        self.with_todo(
            id,
            TodoView {
                completed_at: None,
                position: next_position(self.todos, self.todo(id).project_id) as i64,
                ..self.todo(id)
            },
        )
    }

    pub open spec fn delete_todo(self, id: i64) -> DatabaseView {
        DatabaseView { todos: self.todos.remove(self.todo_index(id)), ..self }
    }

    pub open spec fn update_todo(self, id: i64, description: Seq<char>) -> DatabaseView {
        self.with_todo(id, TodoView { description, ..self.todo(id) })
    }

    pub open spec fn update_todo_details(self, id: i64, details: Option<Seq<char>>) -> DatabaseView {
        self.with_todo(id, TodoView { details, ..self.todo(id) })
    }

    /// Whether the todo `id` has an active neighbour in `direction`.
    pub open spec fn has_neighbour(self, id: i64, direction: Direction) -> bool {
        has_swap_target(self.todos, self.todo_index(id), direction)
    }

    /// Where the neighbour of the todo `id` in `direction` stands among the todos.
    pub open spec fn neighbour_index(self, id: i64, direction: Direction) -> int {
        choose|j: int| is_swap_target(self.todos, self.todo_index(id), j, direction)
    }

    /// The store after the active todo `id` was moved in `direction`: it has
    /// changed positions with its neighbour there, and where it has none, nothing
    /// has changed.
    pub open spec fn reorder_todo(self, id: i64, direction: Direction) -> DatabaseView {
        if self.has_neighbour(id, direction) {
            DatabaseView {
                todos: swap_positions(self.todos, self.todo_index(id), self.neighbour_index(id, direction)),
                ..self
            }
        } else {
            self
        }
    }

    /// Whether `todo` belongs in the list of the project's todos.
    pub open spec fn lists_todo(self, todo: TodoView, project_id: i64, include_completed: bool) -> bool {
        self.todos.contains(todo) && todo.project_id == project_id && (include_completed || todo.is_active())
    }

    /// Whether `listing` is the list of the project's todos: it holds the
    /// todos of the project, without the completed ones unless they are asked
    /// for, each once and in order.
    pub open spec fn is_todo_listing(self, listing: Seq<TodoView>, project_id: i64, include_completed: bool) -> bool {
        &&& forall|k: int|
            0 <= k < listing.len() ==> self.lists_todo(#[trigger] listing[k], project_id, include_completed)
        &&& forall|i: int|
            0 <= i < self.todos.len() && self.lists_todo(#[trigger] self.todos[i], project_id, include_completed)
                ==> listing.contains(self.todos[i])
        &&& todos_in_order(listing)
    }

    /// The list of the project's todos. `lemma_todo_listing_unique` shows that
    /// there is one such list at most.
    pub open spec fn todo_listing(self, project_id: i64, include_completed: bool) -> Seq<TodoView> {
        choose|listing: Seq<TodoView>| self.is_todo_listing(listing, project_id, include_completed)
    }

    /// The number of todos of the project.
    pub open spec fn count_todos(self, project_id: i64) -> nat {
        self.todos.filter(|todo: TodoView| todo.project_id == project_id).len()
    }

    /// The number of completed todos of the project.
    pub open spec fn count_completed(self, project_id: i64) -> nat {
        self.todos.filter(|todo: TodoView| todo.project_id == project_id && todo.is_completed()).len()
    }

    /// The project with the numbers of its todos.
    pub open spec fn with_stats(self, project: ProjectView) -> ProjectWithStatsView {
        ProjectWithStatsView {
            project,
            total_todos: self.count_todos(project.id) as i64,
            completed_todos: self.count_completed(project.id) as i64,
        }
    }

    /// Whether `project` belongs in the list of projects.
    pub open spec fn lists_project(self, project: ProjectView, include_archived: bool) -> bool {
        self.projects.contains(project) && (include_archived || !project.is_archived())
    }

    /// Whether `listing` is the list of projects: it holds the projects,
    /// without the archived ones unless they are asked for, each once, in
    /// order, and with the numbers of its todos.
    pub open spec fn is_project_listing(self, listing: Seq<ProjectWithStatsView>, include_archived: bool) -> bool {
        &&& forall|k: int|
            0 <= k < listing.len() ==> self.lists_project((#[trigger] listing[k]).project, include_archived)
                && listing[k] == self.with_stats(listing[k].project)
        &&& forall|i: int|
            0 <= i < self.projects.len() && self.lists_project(#[trigger] self.projects[i], include_archived)
                ==> listing.contains(self.with_stats(self.projects[i]))
        &&& projects_in_order(listing)
    }

    /// The list of projects. `lemma_project_listing_unique` shows that there is
    /// one such list at most.
    pub open spec fn project_listing(self, include_archived: bool) -> Seq<ProjectWithStatsView> {
        choose|listing: Seq<ProjectWithStatsView>| self.is_project_listing(listing, include_archived)
    }
}

} // verus!
