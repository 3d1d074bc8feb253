use crate::consistency::{
    lemma_complete_todo_consistent, lemma_create_project_consistent, lemma_create_todo_consistent,
    lemma_delete_project_consistent, lemma_delete_todo_consistent, lemma_project_index,
    lemma_reorder_todo_consistent, lemma_replace_project_consistent, lemma_replace_todo_consistent,
    lemma_todo_index, lemma_uncomplete_todo_consistent,
};
use crate::error::{DocketError, Missing};
use crate::models::{
    copy_text, project_views, stats_views, todo_views, Project, ProjectWithStats, Todo, TodoView,
};
use crate::ordering::{find_swap_target, lemma_swap_target_unique, position_after_all, swap_positions, Direction};
use crate::state::{lists_before, project_lists_before, projects_in_order, todos_in_order, DatabaseView};
use crate::text::str_view;
use crate::theorems::{lemma_project_listing_unique, lemma_todo_listing_unique};
use vstd::prelude::*;

verus! {

/// An owned copy of an optional text.
fn own_text(text: Option<&str>) -> (r: Option<String>)
    ensures
        crate::models::text_view(r) == str_view(text),
{
    match text {
        Some(s) => Some(s.to_owned()),
        None => None,
    }
}

/// The index of the project `id` among `projects`.
fn find_project(projects: &Vec<Project>, id: i64) -> (r: Option<usize>)
    ensures
        r matches Some(i) ==> i < projects.len() && projects[i as int].id == id,
        r is None ==> forall|i: int| 0 <= i < projects.len() ==> projects[i].id != id,
{
    let mut n: usize = 0;
    while n < projects.len()
        invariant
            n <= projects.len(),
            forall|i: int| 0 <= i < n ==> projects[i].id != id,
        decreases projects.len() - n,
    {
        if projects[n].id == id {
            return Some(n);
        }
        n += 1;
    }
    None
}

/// The index of the todo `id` among `todos`.
fn find_todo(todos: &Vec<Todo>, id: i64) -> (r: Option<usize>)
    ensures
        r matches Some(i) ==> i < todos.len() && todos[i as int].id == id,
        r is None ==> forall|i: int| 0 <= i < todos.len() ==> todos[i].id != id,
{
    let mut n: usize = 0;
    while n < todos.len()
        invariant
            n <= todos.len(),
            forall|i: int| 0 <= i < n ==> todos[i].id != id,
        decreases todos.len() - n,
    {
        if todos[n].id == id {
            return Some(n);
        }
        n += 1;
    }
    None
}

/// How creating a project at time `now` relates the store before and after to
/// what is returned: the new project, or `Exhausted` where no identifier is left.
pub open spec fn project_creation(
    before: DatabaseView,
    after: DatabaseView,
    r: Result<Project, DocketError>,
    name: Seq<char>,
    description: Option<Seq<char>>,
    now: i64,
) -> bool {
    match r {
        Ok(project) => {
            &&& before.has_room_for_project()
            &&& after == before.create_project(name, description, now)
            &&& project@ == after.projects.last()
        },
        Err(e) => e == DocketError::Exhausted && !before.has_room_for_project() && after == before,
    }
}

/// How creating a todo at time `now` relates the store before and after to what
/// is returned: the new todo; `NotFound` for a project that does not exist; or
/// `Exhausted` where no identifier or position is left.
pub open spec fn todo_creation(
    before: DatabaseView,
    after: DatabaseView,
    r: Result<Todo, DocketError>,
    project_id: i64,
    description: Seq<char>,
    now: i64,
) -> bool {
    match r {
        Ok(todo) => {
            &&& before.has_project(project_id)
            &&& before.has_room_for_todo(project_id)
            &&& after == before.create_todo(project_id, description, now)
            &&& todo@ == after.todos.last()
        },
        Err(e) => {
            &&& after == before
            &&& e == if !before.has_project(project_id) {
                DocketError::NotFound(Missing::Project)
            } else {
                DocketError::Exhausted
            }
            &&& !(before.has_project(project_id) && before.has_room_for_todo(project_id))
        },
    }
}

/// The store that is made of the given records and counters.
pub open spec fn records_view(
    projects: Seq<Project>,
    todos: Seq<Todo>,
    next_project_id: i64,
    next_todo_id: i64,
) -> DatabaseView {
    DatabaseView { projects: project_views(projects), todos: todo_views(todos), next_project_id, next_todo_id }
}

/// How archiving the project `id` at time `now` relates the store before and
/// after to what is returned: nothing, or `NotFound` for a project that does
/// not exist.
pub open spec fn project_archival(
    before: DatabaseView,
    after: DatabaseView,
    r: Result<(), DocketError>,
    id: i64,
    now: i64,
) -> bool {
    match r {
        Ok(_) => before.has_project(id) && after == before.archive_project(id, now),
        Err(e) => e == DocketError::NotFound(Missing::Project) && !before.has_project(id) && after == before,
    }
}

/// How completing the todo `id` at time `now` relates the store before and
/// after to what is returned: nothing, or `NotFound` for a todo that does not
/// exist.
pub open spec fn todo_completion(
    before: DatabaseView,
    after: DatabaseView,
    r: Result<(), DocketError>,
    id: i64,
    now: i64,
) -> bool {
    match r {
        Ok(_) => before.has_todo(id) && after == before.complete_todo(id, now),
        Err(e) => e == DocketError::NotFound(Missing::Todo) && !before.has_todo(id) && after == before,
    }
}

/// The todos that do not belong to the project, in their order.
fn todos_outside(todos: &Vec<Todo>, project_id: i64) -> (kept: Vec<Todo>)
    ensures
        todo_views(kept@) == todo_views(todos@).filter(|todo: TodoView| todo.project_id != project_id),
{
    let ghost keep = |todo: TodoView| todo.project_id != project_id;
    let mut kept: Vec<Todo> = Vec::new();
    let mut n: usize = 0;
    proof {
        reveal(Seq::filter);
        assert(todo_views(todos@).take(0).filter(keep) =~= todo_views(kept@));
    }
    while n < todos.len()
        invariant
            n <= todos.len(),
            keep == |todo: TodoView| todo.project_id != project_id,
            todo_views(kept@) == todo_views(todos@).take(n as int).filter(keep),
        decreases todos.len() - n,
    {
        let todo = &todos[n];
        proof {
            reveal(Seq::filter);
            let views = todo_views(todos@);
            assert(views.take(n + 1).drop_last() =~= views.take(n as int));
            assert(views.take(n + 1).last() == todo@);
        }
        if todo.project_id != project_id {
            let ghost before = todo_views(kept@);
            kept.push(todo.clone());
            proof {
                assert(todo_views(kept@) =~= before.push(todo@));
            }
        }
        n += 1;
    }
    proof {
        assert(todo_views(todos@).take(n as int) =~= todo_views(todos@));
    }
    kept
}

/// Whether `a` stands before `b` in the list of a project's todos.
fn comes_before(a: &Todo, b: &Todo) -> (r: bool)
    ensures
        r == lists_before(a@, b@),
{
    match a.completed_at {
        None => b.completed_at.is_some() || a.position < b.position || (a.position == b.position && a.id
            < b.id),
        Some(done) => match b.completed_at {
            None => false,
            Some(other) => done > other || (done == other && a.id < b.id),
        },
    }
}

/// Puts `todo` into `listing` at its place in the order.
fn insert_in_order(listing: &mut Vec<Todo>, todo: Todo)
    requires
        todos_in_order(todo_views(old(listing)@)),
        forall|k: int| 0 <= k < old(listing)@.len() ==> old(listing)@[k].id != todo.id,
    ensures
        todos_in_order(todo_views(final(listing)@)),
        exists|at: int|
            0 <= at <= old(listing)@.len() && todo_views(final(listing)@) == todo_views(old(listing)@).insert(
                at,
                todo@,
            ),
{
    let ghost before = todo_views(listing@);
    let ghost view = todo@;
    let mut at: usize = 0;
    while at < listing.len() && !comes_before(&todo, &listing[at])
        invariant
            at <= listing.len(),
            before == todo_views(listing@),
            view == todo@,
            forall|k: int| 0 <= k < at ==> !lists_before(view, #[trigger] before[k]),
        decreases listing.len() - at,
    {
        at += 1;
    }
    listing.insert(at, todo);
    proof {
        let after = todo_views(listing@);
        assert(after =~= before.insert(at as int, view));
        assert forall|a: int, b: int| 0 <= a < b < after.len() implies lists_before(
            #[trigger] after[a],
            #[trigger] after[b],
        ) by {
            if b < at {
                assert(after[a] == before[a] && after[b] == before[b]);
            } else if b == at {
                assert(after[a] == before[a]);
                assert(!lists_before(view, before[a]));
                assert(before[a].id != view.id);
            } else if a < at {
                assert(after[a] == before[a] && after[b] == before[b - 1]);
            } else if a == at {
                assert(after[b] == before[b - 1]);
                assert(lists_before(view, before[at as int]));
                if b - 1 > at {
                    assert(lists_before(before[at as int], before[b - 1]));
                }
            } else {
                assert(after[a] == before[a - 1] && after[b] == before[b - 1]);
            }
        }
    }
}

/// The number of todos of the project among `todos`, and how many of them are
/// completed.
fn count_todos(todos: &Vec<Todo>, project_id: i64) -> (r: (i64, i64))
    requires
        todos.len() <= i64::MAX,
    ensures
        r.0 == todo_views(todos@).filter(|todo: TodoView| todo.project_id == project_id).len(),
        r.1 == todo_views(todos@).filter(
            |todo: TodoView| todo.project_id == project_id && todo.is_completed(),
        ).len(),
{
    let ghost of_project = |todo: TodoView| todo.project_id == project_id;
    let ghost completed = |todo: TodoView| todo.project_id == project_id && todo.is_completed();
    let ghost views = todo_views(todos@);
    let mut total: i64 = 0;
    let mut done: i64 = 0;
    let mut n: usize = 0;
    proof {
        reveal(Seq::filter);
        assert(views.take(0).filter(of_project).len() == 0);
        assert(views.take(0).filter(completed).len() == 0);
    }
    while n < todos.len()
        invariant
            n <= todos.len(),
            todos.len() <= i64::MAX,
            views == todo_views(todos@),
            of_project == |todo: TodoView| todo.project_id == project_id,
            completed == |todo: TodoView| todo.project_id == project_id && todo.is_completed(),
            0 <= done <= total <= n,
            total == views.take(n as int).filter(of_project).len(),
            done == views.take(n as int).filter(completed).len(),
        decreases todos.len() - n,
    {
        let todo = &todos[n];
        proof {
            reveal(Seq::filter);
            assert(views.take(n + 1).drop_last() =~= views.take(n as int));
            assert(views.take(n + 1).last() == todo@);
        }
        if todo.project_id == project_id {
            total += 1;
            if todo.completed_at.is_some() {
                done += 1;
            }
        }
        n += 1;
    }
    proof {
        assert(views.take(n as int) =~= views);
    }
    (total, done)
}

/// Whether `a` stands before `b` in the list of projects.
fn project_comes_before(a: &Project, b: &Project) -> (r: bool)
    ensures
        r == project_lists_before(a@, b@),
{
    a.created_at > b.created_at || (a.created_at == b.created_at && a.id < b.id)
}

/// Puts `entry` into `listing` at its place in the order.
fn insert_project_in_order(listing: &mut Vec<ProjectWithStats>, entry: ProjectWithStats)
    requires
        projects_in_order(stats_views(old(listing)@)),
        forall|k: int| 0 <= k < old(listing)@.len() ==> old(listing)@[k].project.id != entry.project.id,
    ensures
        projects_in_order(stats_views(final(listing)@)),
        exists|at: int|
            0 <= at <= old(listing)@.len() && stats_views(final(listing)@) == stats_views(
                old(listing)@,
            ).insert(at, entry@),
{
    let ghost before = stats_views(listing@);
    let ghost view = entry@;
    let mut at: usize = 0;
    while at < listing.len() && !project_comes_before(&entry.project, &listing[at].project)
        invariant
            at <= listing.len(),
            before == stats_views(listing@),
            view == entry@,
            forall|k: int| 0 <= k < at ==> !project_lists_before(view.project, (#[trigger] before[k]).project),
        decreases listing.len() - at,
    {
        at += 1;
    }
    listing.insert(at, entry);
    proof {
        let after = stats_views(listing@);
        assert(after =~= before.insert(at as int, view));
        assert forall|a: int, b: int| 0 <= a < b < after.len() implies project_lists_before(
            (#[trigger] after[a]).project,
            (#[trigger] after[b]).project,
        ) by {
            if b < at {
                assert(after[a] == before[a] && after[b] == before[b]);
            } else if b == at {
                assert(after[a] == before[a]);
                assert(!project_lists_before(view.project, before[a].project));
                assert(before[a].project.id != view.project.id);
            } else if a < at {
                assert(after[a] == before[a] && after[b] == before[b - 1]);
            } else if a == at {
                assert(after[b] == before[b - 1]);
                assert(project_lists_before(view.project, before[at as int].project));
                if b - 1 > at {
                    assert(project_lists_before(before[at as int].project, before[b - 1].project));
                }
            } else {
                assert(after[a] == before[a - 1] && after[b] == before[b - 1]);
            }
        }
    }
}

/// The record store: projects and their todos.
pub struct Database {
    projects: Vec<Project>,
    todos: Vec<Todo>,
    next_project_id: i64,
    next_todo_id: i64,
}

impl View for Database {
    type V = DatabaseView;

    closed spec fn view(&self) -> DatabaseView {
        records_view(self.projects@, self.todos@, self.next_project_id, self.next_todo_id)
    }
}

impl Database {
    #[verifier::type_invariant]
    spec fn consistent(self) -> bool {
        self@.wf()
    }

    /// Takes the records out of the store, which is left empty.
    fn take_records(&mut self) -> (r: (Vec<Project>, Vec<Todo>))
        ensures
            r.0 == old(self).projects,
            r.1 == old(self).todos,
            final(self).projects@.len() == 0,
            final(self).todos@.len() == 0,
            final(self).next_project_id == old(self).next_project_id,
            final(self).next_todo_id == old(self).next_todo_id,
    {
        proof {
            use_type_invariant(&*self);
        }
        let mut todos: Vec<Todo> = Vec::new();
        std::mem::swap(&mut todos, &mut self.todos);
        let mut projects: Vec<Project> = Vec::new();
        std::mem::swap(&mut projects, &mut self.projects);
        (projects, todos)
    }

    /// A store of the given records, which are consistent.
    pub(crate) fn assemble(projects: Vec<Project>, todos: Vec<Todo>, next_project_id: i64, next_todo_id: i64) -> (db:
        Database)
        requires
            records_view(projects@, todos@, next_project_id, next_todo_id).wf(),
        ensures
            db@ == records_view(projects@, todos@, next_project_id, next_todo_id),
    {
        Database { projects, todos, next_project_id, next_todo_id }
    }

    /// The invariant of the store, for those who hold one. Nothing is done.
    pub fn consistency(&self)
        ensures
            self@.wf(),
    {
        proof {
            use_type_invariant(self);
        }
    }

    /// All projects, in the order in which they were created.
    pub fn projects(&self) -> (projects: &Vec<Project>)
        ensures
            project_views(projects@) == self@.projects,
            self@.wf(),
    {
        proof {
            use_type_invariant(self);
        }
        &self.projects
    }

    /// All todos, in the order in which they were created.
    pub fn todos(&self) -> (todos: &Vec<Todo>)
        ensures
            todo_views(todos@) == self@.todos,
            self@.wf(),
    {
        proof {
            use_type_invariant(self);
        }
        &self.todos
    }

    /// The identifier that the next project gets.
    pub fn next_project_id(&self) -> (id: i64)
        ensures
            id == self@.next_project_id,
    {
        self.next_project_id
    }

    /// The identifier that the next todo gets.
    pub fn next_todo_id(&self) -> (id: i64)
        ensures
            id == self@.next_todo_id,
    {
        self.next_todo_id
    }

    /// An empty store.
    pub fn new() -> (db: Database)
        ensures
            db@ == DatabaseView::empty(),
            db@.wf(),
    {
        let db = Database { projects: Vec::new(), todos: Vec::new(), next_project_id: 1, next_todo_id: 1 };
        assert(db@ =~= DatabaseView::empty());
        db
    }

    /// Creates a project at the time `now`.
    pub fn create_project(&mut self, name: &str, description: Option<&str>, now: i64) -> (r: Result<
        Project,
        DocketError,
    >)
        ensures
            old(self)@.wf(),
            final(self)@.wf(),
            project_creation(old(self)@, final(self)@, r, name@, str_view(description), now),
    {
        proof {
            use_type_invariant(&*self);
        }
        if self.next_project_id == i64::MAX {
            return Err(DocketError::Exhausted);
        }
        let id = self.next_project_id;
        let project = Project {
            id,
            name: name.to_owned(),
            description: own_text(description),
            created_at: now,
            archived_at: None,
        };
        let copy = project.clone();
        let (mut projects, todos) = self.take_records();
        projects.push(project);
        proof {
            lemma_create_project_consistent(old(self)@, name@, str_view(description), now);
            assert(project_views(projects@) =~= old(self)@.projects.push(copy@));
            assert(records_view(projects@, todos@, (id + 1) as i64, self.next_todo_id) =~= old(self)@.create_project(name@, str_view(description), now));
        }
        *self = Database::assemble(projects, todos, id + 1, self.next_todo_id);
        Ok(copy)
    }

    /// The project `id`.
    pub fn get_project(&self, id: i64) -> (r: Result<Project, DocketError>)
        ensures
            self@.wf(),
            match r {
                Ok(project) => self@.has_project(id) && project@ == self@.project(id),
                Err(e) => e == DocketError::NotFound(Missing::Project) && !self@.has_project(id),
            },
    {
        proof {
            use_type_invariant(self);
        }
        match find_project(&self.projects, id) {
            Some(i) => {
                proof {
                    lemma_project_index(self@, i as int);
                }
                Ok(self.projects[i].clone())
            },
            None => Err(DocketError::NotFound(Missing::Project)),
        }
    }

    /// The todo `id`.
    pub fn get_todo(&self, id: i64) -> (r: Result<Todo, DocketError>)
        ensures
            self@.wf(),
            match r {
                Ok(todo) => self@.has_todo(id) && todo@ == self@.todo(id),
                Err(e) => e == DocketError::NotFound(Missing::Todo) && !self@.has_todo(id),
            },
    {
        proof {
            use_type_invariant(self);
        }
        match find_todo(&self.todos, id) {
            Some(i) => {
                proof {
                    lemma_todo_index(self@, i as int);
                }
                Ok(self.todos[i].clone())
            },
            None => Err(DocketError::NotFound(Missing::Todo)),
        }
    }

    /// Creates a todo in the project at the time `now`, after all active todos
    /// of the project.
    pub fn create_todo(&mut self, project_id: i64, description: &str, now: i64) -> (r: Result<Todo, DocketError>)
        ensures
            old(self)@.wf(),
            final(self)@.wf(),
            todo_creation(old(self)@, final(self)@, r, project_id, description@, now),
    {
        proof {
            use_type_invariant(&*self);
        }
        match find_project(&self.projects, project_id) {
            Some(i) => {
                proof {
                    lemma_project_index(self@, i as int);
                }
            },
            None => {
                return Err(DocketError::NotFound(Missing::Project));
            },
        }
        if self.next_todo_id == i64::MAX {
            return Err(DocketError::Exhausted);
        }
        let position = match position_after_all(&self.todos, project_id) {
            Some(position) => position,
            None => {
                return Err(DocketError::Exhausted);
            },
        };
        let id = self.next_todo_id;
        let todo = Todo {
            id,
            project_id,
            description: description.to_owned(),
            details: None,
            created_at: now,
            completed_at: None,
            position,
        };
        let copy = todo.clone();
        let (projects, mut todos) = self.take_records();
        todos.push(todo);
        proof {
            lemma_create_todo_consistent(old(self)@, project_id, description@, now);
            assert(todo_views(todos@) =~= old(self)@.todos.push(copy@));
            assert(records_view(projects@, todos@, self.next_project_id, (id + 1) as i64) =~= old(self)@.create_todo(project_id, description@, now));
        }
        *self = Database::assemble(projects, todos, self.next_project_id, id + 1);
        Ok(copy)
    }

    /// Puts `project`, which has the identifier of the project at `at`, in its
    /// place.
    fn replace_project(&mut self, at: usize, project: Project)
        requires
            at < old(self)@.projects.len(),
            project.id == old(self)@.projects[at as int].id,
        ensures
            old(self)@.wf(),
            final(self)@.wf(),
            final(self)@ == old(self)@.with_project(project.id, project@),
    {
        proof {
            use_type_invariant(&*self);
            lemma_project_index(self@, at as int);
            lemma_replace_project_consistent(self@, project.id, project@);
        }
        let ghost view = project@;
        let (mut projects, todos) = self.take_records();
        projects.set(at, project);
        proof {
            assert(project_views(projects@) =~= old(self)@.projects.update(at as int, view));
            assert(records_view(projects@, todos@, self.next_project_id, self.next_todo_id) =~= old(self)@.with_project(view.id, view));
        }
        *self = Database::assemble(projects, todos, self.next_project_id, self.next_todo_id);
    }

    /// Archives the project `id` at the time `now`.
    pub fn archive_project(&mut self, id: i64, now: i64) -> (r: Result<(), DocketError>)
        ensures
            old(self)@.wf(),
            final(self)@.wf(),
            project_archival(old(self)@, final(self)@, r, id, now),
    {
        proof {
            use_type_invariant(&*self);
        }
        match find_project(&self.projects, id) {
            Some(at) => {
                proof {
                    lemma_project_index(self@, at as int);
                }
                let before = &self.projects[at];
                let project = Project {
                    id: before.id,
                    name: before.name.clone(),
                    description: copy_text(&before.description),
                    created_at: before.created_at,
                    archived_at: Some(now),
                };
                self.replace_project(at, project);
                Ok(())
            },
            None => Err(DocketError::NotFound(Missing::Project)),
        }
    }

    /// Takes the project `id` out of the archive.
    pub fn unarchive_project(&mut self, id: i64) -> (r: Result<(), DocketError>)
        ensures
            old(self)@.wf(),
            final(self)@.wf(),
            match r {
                Ok(_) => old(self)@.has_project(id) && final(self)@ == old(self)@.unarchive_project(id),
                Err(e) => e == DocketError::NotFound(Missing::Project) && !old(self)@.has_project(id) && final(self)@ == old(self)@,
            },
    {
        proof {
            use_type_invariant(&*self);
        }
        match find_project(&self.projects, id) {
            Some(at) => {
                proof {
                    lemma_project_index(self@, at as int);
                }
                let before = &self.projects[at];
                let project = Project {
                    id: before.id,
                    name: before.name.clone(),
                    description: copy_text(&before.description),
                    created_at: before.created_at,
                    archived_at: None,
                };
                self.replace_project(at, project);
                Ok(())
            },
            None => Err(DocketError::NotFound(Missing::Project)),
        }
    }

    /// Gives the project `id` another description, or none.
    pub fn update_project_description(&mut self, id: i64, description: Option<&str>) -> (r: Result<
        (),
        DocketError,
    >)
        ensures
            old(self)@.wf(),
            final(self)@.wf(),
            match r {
                Ok(_) => old(self)@.has_project(id) && final(self)@ == old(self)@.update_project_description(
                    id,
                    str_view(description),
                ),
                Err(e) => e == DocketError::NotFound(Missing::Project) && !old(self)@.has_project(id) && final(self)@ == old(self)@,
            },
    {
        proof {
            use_type_invariant(&*self);
        }
        match find_project(&self.projects, id) {
            Some(at) => {
                proof {
                    lemma_project_index(self@, at as int);
                }
                let before = &self.projects[at];
                let project = Project {
                    id: before.id,
                    name: before.name.clone(),
                    description: own_text(description),
                    created_at: before.created_at,
                    archived_at: before.archived_at,
                };
                self.replace_project(at, project);
                Ok(())
            },
            None => Err(DocketError::NotFound(Missing::Project)),
        }
    }

    /// Gives the project `id` another name.
    pub fn update_project_name(&mut self, id: i64, name: &str) -> (r: Result<(), DocketError>)
        ensures
            old(self)@.wf(),
            final(self)@.wf(),
            match r {
                Ok(_) => old(self)@.has_project(id) && final(self)@ == old(self)@.update_project_name(id, name@),
                Err(e) => e == DocketError::NotFound(Missing::Project) && !old(self)@.has_project(id) && final(self)@ == old(self)@,
            },
    {
        proof {
            use_type_invariant(&*self);
        }
        match find_project(&self.projects, id) {
            Some(at) => {
                proof {
                    lemma_project_index(self@, at as int);
                }
                let before = &self.projects[at];
                let project = Project {
                    id: before.id,
                    name: name.to_owned(),
                    description: copy_text(&before.description),
                    created_at: before.created_at,
                    archived_at: before.archived_at,
                };
                self.replace_project(at, project);
                Ok(())
            },
            None => Err(DocketError::NotFound(Missing::Project)),
        }
    }

    /// Deletes the project `id` and, with it, its todos.
    pub fn delete_project(&mut self, id: i64) -> (r: Result<(), DocketError>)
        ensures
            old(self)@.wf(),
            final(self)@.wf(),
            match r {
                Ok(_) => old(self)@.has_project(id) && final(self)@ == old(self)@.delete_project(id),
                Err(e) => e == DocketError::NotFound(Missing::Project) && !old(self)@.has_project(id) && final(self)@ == old(self)@,
            },
    {
        proof {
            use_type_invariant(&*self);
        }
        match find_project(&self.projects, id) {
            Some(at) => {
                proof {
                    lemma_project_index(self@, at as int);
                    lemma_delete_project_consistent(self@, id);
                }
                let (mut projects, todos) = self.take_records();
                projects.remove(at);
                let kept = todos_outside(&todos, id);
                proof {
                    assert(project_views(projects@) =~= old(self)@.projects.remove(at as int));
                    assert(records_view(projects@, kept@, self.next_project_id, self.next_todo_id) =~= old(self)@.delete_project(id));
                }
                *self = Database::assemble(projects, kept, self.next_project_id, self.next_todo_id);
                Ok(())
            },
            None => Err(DocketError::NotFound(Missing::Project)),
        }
    }

    /// Completes the todo `id` at the time `now`: it gives up its position.
    pub fn complete_todo(&mut self, id: i64, now: i64) -> (r: Result<(), DocketError>)
        ensures
            old(self)@.wf(),
            final(self)@.wf(),
            todo_completion(old(self)@, final(self)@, r, id, now),
    {
        proof {
            use_type_invariant(&*self);
        }
        match find_todo(&self.todos, id) {
            Some(at) => {
                proof {
                    lemma_todo_index(self@, at as int);
                    lemma_complete_todo_consistent(self@, id, now);
                }
                let (projects, mut todos) = self.take_records();
                let mut todo = todos[at].clone();
                todo.completed_at = Some(now);
                todo.position = 0;
                let ghost view = todo@;
                todos.set(at, todo);
                proof {
                    assert(todo_views(todos@) =~= old(self)@.todos.update(at as int, view));
                    assert(records_view(projects@, todos@, self.next_project_id, self.next_todo_id) =~= old(self)@.complete_todo(id, now));
                }
                *self = Database::assemble(projects, todos, self.next_project_id, self.next_todo_id);
                Ok(())
            },
            None => Err(DocketError::NotFound(Missing::Todo)),
        }
    }

    /// Makes the todo `id` active again, after all active todos of its project.
    pub fn uncomplete_todo(&mut self, id: i64) -> (r: Result<(), DocketError>)
        ensures
            old(self)@.wf(),
            final(self)@.wf(),
            match r {
                Ok(_) => {
                    &&& old(self)@.has_todo(id)
                    &&& old(self)@.has_room_for_position(old(self)@.todo(id).project_id)
                    &&& final(self)@ == old(self)@.uncomplete_todo(id)
                },
                Err(e) => {
                    &&& final(self)@ == old(self)@
                    &&& e == if !old(self)@.has_todo(id) {
                        DocketError::NotFound(Missing::Todo)
                    } else {
                        DocketError::Exhausted
                    }
                    &&& !(old(self)@.has_todo(id) && old(self)@.has_room_for_position(
                        old(self)@.todo(id).project_id,
                    ))
                },
            },
    {
        proof {
            use_type_invariant(&*self);
        }
        match find_todo(&self.todos, id) {
            Some(at) => {
                proof {
                    lemma_todo_index(self@, at as int);
                }
                let position = match position_after_all(&self.todos, self.todos[at].project_id) {
                    Some(position) => position,
                    None => {
                        return Err(DocketError::Exhausted);
                    },
                };
                proof {
                    lemma_uncomplete_todo_consistent(self@, id);
                }
                let (projects, mut todos) = self.take_records();
                let mut todo = todos[at].clone();
                todo.completed_at = None;
                todo.position = position;
                let ghost view = todo@;
                todos.set(at, todo);
                proof {
                    assert(todo_views(todos@) =~= old(self)@.todos.update(at as int, view));
                    assert(records_view(projects@, todos@, self.next_project_id, self.next_todo_id) =~= old(self)@.uncomplete_todo(id));
                }
                *self = Database::assemble(projects, todos, self.next_project_id, self.next_todo_id);
                Ok(())
            },
            None => Err(DocketError::NotFound(Missing::Todo)),
        }
    }

    /// Deletes the todo `id`.
    pub fn delete_todo(&mut self, id: i64) -> (r: Result<(), DocketError>)
        ensures
            old(self)@.wf(),
            final(self)@.wf(),
            match r {
                Ok(_) => old(self)@.has_todo(id) && final(self)@ == old(self)@.delete_todo(id),
                Err(e) => e == DocketError::NotFound(Missing::Todo) && !old(self)@.has_todo(id) && final(self)@
                    == old(self)@,
            },
    {
        proof {
            use_type_invariant(&*self);
        }
        match find_todo(&self.todos, id) {
            Some(at) => {
                proof {
                    lemma_todo_index(self@, at as int);
                    lemma_delete_todo_consistent(self@, id);
                }
                let (projects, mut todos) = self.take_records();
                todos.remove(at);
                proof {
                    assert(todo_views(todos@) =~= old(self)@.todos.remove(at as int));
                    assert(records_view(projects@, todos@, self.next_project_id, self.next_todo_id) =~= old(self)@.delete_todo(id));
                }
                *self = Database::assemble(projects, todos, self.next_project_id, self.next_todo_id);
                Ok(())
            },
            None => Err(DocketError::NotFound(Missing::Todo)),
        }
    }

    /// Puts `todo` in the place of the todo at `at`, of which it differs in its
    /// texts at most.
    fn replace_todo(&mut self, at: usize, todo: Todo)
        requires
            at < old(self)@.todos.len(),
            todo.id == old(self)@.todos[at as int].id,
            todo.project_id == old(self)@.todos[at as int].project_id,
            todo.completed_at == old(self)@.todos[at as int].completed_at,
            todo.position == old(self)@.todos[at as int].position,
        ensures
            old(self)@.wf(),
            final(self)@.wf(),
            final(self)@ == old(self)@.with_todo(todo.id, todo@),
    {
        proof {
            use_type_invariant(&*self);
            lemma_todo_index(self@, at as int);
            lemma_replace_todo_consistent(self@, todo.id, todo@);
        }
        let ghost view = todo@;
        let (projects, mut todos) = self.take_records();
        todos.set(at, todo);
        proof {
            assert(todo_views(todos@) =~= old(self)@.todos.update(at as int, view));
            assert(records_view(projects@, todos@, self.next_project_id, self.next_todo_id) =~= old(self)@.with_todo(view.id, view));
        }
        *self = Database::assemble(projects, todos, self.next_project_id, self.next_todo_id);
    }

    /// Gives the todo `id` other details, or none.
    pub fn update_todo_details(&mut self, id: i64, details: Option<&str>) -> (r: Result<(), DocketError>)
        ensures
            old(self)@.wf(),
            final(self)@.wf(),
            match r {
                Ok(_) => old(self)@.has_todo(id) && final(self)@ == old(self)@.update_todo_details(
                    id,
                    str_view(details),
                ),
                Err(e) => e == DocketError::NotFound(Missing::Todo) && !old(self)@.has_todo(id) && final(self)@
                    == old(self)@,
            },
    {
        proof {
            use_type_invariant(&*self);
        }
        match find_todo(&self.todos, id) {
            Some(at) => {
                proof {
                    lemma_todo_index(self@, at as int);
                }
                let mut todo = self.todos[at].clone();
                todo.details = own_text(details);
                self.replace_todo(at, todo);
                Ok(())
            },
            None => Err(DocketError::NotFound(Missing::Todo)),
        }
    }

    /// Gives the todo `id` another description.
    pub fn update_todo(&mut self, id: i64, description: &str) -> (r: Result<(), DocketError>)
        ensures
            old(self)@.wf(),
            final(self)@.wf(),
            match r {
                Ok(_) => old(self)@.has_todo(id) && final(self)@ == old(self)@.update_todo(id, description@),
                Err(e) => e == DocketError::NotFound(Missing::Todo) && !old(self)@.has_todo(id) && final(self)@
                    == old(self)@,
            },
    {
        proof {
            use_type_invariant(&*self);
        }
        match find_todo(&self.todos, id) {
            Some(at) => {
                proof {
                    lemma_todo_index(self@, at as int);
                }
                let mut todo = self.todos[at].clone();
                todo.description = description.to_owned();
                self.replace_todo(at, todo);
                Ok(())
            },
            None => Err(DocketError::NotFound(Missing::Todo)),
        }
    }

    /// Moves the active todo `id` one place up or down among the active todos
    /// of its project: it and its neighbour exchange their positions, both
    /// within this one call. At the end of the list nothing happens, and that is
    /// no error. A completed todo is refused with `InvalidOperation`.
    pub fn reorder_todo(&mut self, id: i64, direction: Direction) -> (r: Result<(), DocketError>)
        ensures
            old(self)@.wf(),
            final(self)@.wf(),
            match r {
                Ok(_) => {
                    &&& old(self)@.has_todo(id)
                    &&& old(self)@.todo(id).is_active()
                    &&& final(self)@ == old(self)@.reorder_todo(id, direction)
                },
                Err(e) => {
                    &&& final(self)@ == old(self)@
                    &&& e == if !old(self)@.has_todo(id) {
                        DocketError::NotFound(Missing::Todo)
                    } else {
                        DocketError::InvalidOperation
                    }
                    &&& !(old(self)@.has_todo(id) && old(self)@.todo(id).is_active())
                },
            },
    {
        proof {
            use_type_invariant(&*self);
        }
        let at = match find_todo(&self.todos, id) {
            Some(at) => at,
            None => {
                return Err(DocketError::NotFound(Missing::Todo));
            },
        };
        proof {
            lemma_todo_index(self@, at as int);
        }
        if self.todos[at].completed_at.is_some() {
            return Err(DocketError::InvalidOperation);
        }
        let other = match find_swap_target(&self.todos, at, direction) {
            Some(other) => other,
            None => {
                return Ok(());
            },
        };
        proof {
            lemma_swap_target_unique(
                self@.todos,
                at as int,
                other as int,
                self@.neighbour_index(id, direction),
                direction,
            );
            lemma_reorder_todo_consistent(self@, id, direction);
        }
        let (projects, mut todos) = self.take_records();
        let mut moved = todos[at].clone();
        let mut neighbour = todos[other].clone();
        let position = moved.position;
        moved.position = neighbour.position;
        neighbour.position = position;
        todos.set(at, moved);
        todos.set(other, neighbour);
        proof {
            assert(todo_views(todos@) =~= swap_positions(old(self)@.todos, at as int, other as int));
            assert(records_view(projects@, todos@, self.next_project_id, self.next_todo_id) =~= old(self)@.reorder_todo(id, direction));
        }
        *self = Database::assemble(projects, todos, self.next_project_id, self.next_todo_id);
        Ok(())
    }

    /// The todos of the project in the order of the list: the active ones by
    /// position, then, if they are asked for, the completed ones, the one
    /// completed last first.
    pub fn list_todos(&self, project_id: i64, include_completed: bool) -> (listing: Vec<Todo>)
        ensures
            self@.wf(),
            self@.is_todo_listing(todo_views(listing@), project_id, include_completed),
            todo_views(listing@) == self@.todo_listing(project_id, include_completed),
    {
        proof {
            use_type_invariant(self);
        }
        let ghost views = todo_views(self.todos@);
        let mut listing: Vec<Todo> = Vec::new();
        let mut n: usize = 0;
        while n < self.todos.len()
            invariant
                n <= self.todos.len(),
                views == todo_views(self.todos@),
                views == self@.todos,
                self@.wf(),
                todos_in_order(todo_views(listing@)),
                forall|k: int|
                    0 <= k < listing@.len() ==> self@.lists_todo(
                        #[trigger] todo_views(listing@)[k],
                        project_id,
                        include_completed,
                    ) && exists|i: int| 0 <= i < n && views[i] == todo_views(listing@)[k],
                forall|i: int|
                    0 <= i < n && self@.lists_todo(#[trigger] views[i], project_id, include_completed)
                        ==> todo_views(listing@).contains(views[i]),
            decreases self.todos.len() - n,
        {
            let todo = &self.todos[n];
            assert(todo@ == views[n as int]);
            if todo.project_id == project_id && (include_completed || todo.completed_at.is_none()) {
                let ghost before = todo_views(listing@);
                proof {
                    assert forall|k: int| 0 <= k < listing@.len() implies listing@[k].id != todo.id by {
                        let i = choose|i: int| 0 <= i < n && views[i] == before[k];
                        assert(views[i].id < views[n as int].id);
                    }
                }
                insert_in_order(&mut listing, todo.clone());
                proof {
                    let after = todo_views(listing@);
                    let at = choose|at: int| 0 <= at <= before.len() && after == before.insert(at, todo@);
                    assert(views.contains(views[n as int]));
                    assert forall|k: int| 0 <= k < after.len() implies self@.lists_todo(
                        #[trigger] after[k],
                        project_id,
                        include_completed,
                    ) && exists|i: int| 0 <= i < n + 1 && views[i] == after[k] by {
                        if k < at {
                            assert(after[k] == before[k]);
                            let i = choose|i: int| 0 <= i < n && views[i] == before[k];
                            assert(views[i] == after[k]);
                        } else if k == at {
                            assert(views[n as int] == after[k]);
                        } else {
                            assert(after[k] == before[k - 1]);
                            let i = choose|i: int| 0 <= i < n && views[i] == before[k - 1];
                            assert(views[i] == after[k]);
                        }
                    }
                    assert forall|i: int|
                        0 <= i < n + 1 && self@.lists_todo(
                            #[trigger] views[i],
                            project_id,
                            include_completed,
                        ) implies after.contains(views[i]) by {
                        if i < n {
                            assert(before.contains(views[i]));
                            let k = choose|k: int| 0 <= k < before.len() && before[k] == views[i];
                            if k < at {
                                assert(after[k] == views[i]);
                            } else {
                                assert(after[k + 1] == views[i]);
                            }
                        } else {
                            assert(after[at] == views[i]);
                        }
                    }
                }
            }
            n += 1;
        }
        proof {
            lemma_todo_listing_unique(
                self@,
                todo_views(listing@),
                self@.todo_listing(project_id, include_completed),
                project_id,
                include_completed,
            );
        }
        listing
    }

    /// The projects in the order of the list, the one created last first,
    /// each with the numbers of its todos; archived projects only if they are
    /// asked for.
    pub fn list_projects(&self, include_archived: bool) -> (listing: Vec<ProjectWithStats>)
        ensures
            self@.wf(),
            self@.is_project_listing(stats_views(listing@), include_archived),
            stats_views(listing@) == self@.project_listing(include_archived),
    {
        proof {
            use_type_invariant(self);
        }
        let ghost views = project_views(self.projects@);
        let mut listing: Vec<ProjectWithStats> = Vec::new();
        let mut n: usize = 0;
        while n < self.projects.len()
            invariant
                n <= self.projects.len(),
                views == project_views(self.projects@),
                views == self@.projects,
                todo_views(self.todos@) == self@.todos,
                self@.wf(),
                projects_in_order(stats_views(listing@)),
                forall|k: int|
                    0 <= k < listing@.len() ==> {
                        let entry = #[trigger] stats_views(listing@)[k];
                        &&& self@.lists_project(entry.project, include_archived)
                        &&& entry == self@.with_stats(entry.project)
                        &&& exists|i: int| 0 <= i < n && views[i] == entry.project
                    },
                forall|i: int|
                    0 <= i < n && self@.lists_project(#[trigger] views[i], include_archived) ==> stats_views(
                        listing@,
                    ).contains(self@.with_stats(views[i])),
            decreases self.projects.len() - n,
        {
            let project = &self.projects[n];
            assert(project@ == views[n as int]);
            if include_archived || project.archived_at.is_none() {
                let (total_todos, completed_todos) = count_todos(&self.todos, project.id);
                let entry = ProjectWithStats { project: project.clone(), total_todos, completed_todos };
                let ghost before = stats_views(listing@);
                proof {
                    assert(entry@ == self@.with_stats(views[n as int]));
                    assert forall|k: int| 0 <= k < listing@.len() implies listing@[k].project.id
                        != entry.project.id by {
                        let i = choose|i: int| 0 <= i < n && views[i] == before[k].project;
                        assert(views[i].id < views[n as int].id);
                    }
                }
                let ghost view = entry@;
                insert_project_in_order(&mut listing, entry);
                proof {
                    let after = stats_views(listing@);
                    let at = choose|at: int| 0 <= at <= before.len() && after == before.insert(at, view);
                    assert(views.contains(views[n as int]));
                    assert forall|k: int| 0 <= k < after.len() implies {
                        let entry = #[trigger] after[k];
                        &&& self@.lists_project(entry.project, include_archived)
                        &&& entry == self@.with_stats(entry.project)
                        &&& exists|i: int| 0 <= i < n + 1 && views[i] == entry.project
                    } by {
                        if k < at {
                            assert(after[k] == before[k]);
                            let i = choose|i: int| 0 <= i < n && views[i] == before[k].project;
                            assert(views[i] == after[k].project);
                        } else if k == at {
                            assert(views[n as int] == after[k].project);
                        } else {
                            assert(after[k] == before[k - 1]);
                            let i = choose|i: int| 0 <= i < n && views[i] == before[k - 1].project;
                            assert(views[i] == after[k].project);
                        }
                    }
                    assert forall|i: int|
                        0 <= i < n + 1 && self@.lists_project(
                            #[trigger] views[i],
                            include_archived,
                        ) implies after.contains(self@.with_stats(views[i])) by {
                        if i < n {
                            let wanted = self@.with_stats(views[i]);
                            assert(before.contains(wanted));
                            let k = choose|k: int| 0 <= k < before.len() && before[k] == wanted;
                            if k < at {
                                assert(after[k] == wanted);
                            } else {
                                assert(after[k + 1] == wanted);
                            }
                        } else {
                            assert(after[at] == self@.with_stats(views[i]));
                        }
                    }
                }
            }
            n += 1;
        }
        proof {
            lemma_project_listing_unique(
                self@,
                stats_views(listing@),
                self@.project_listing(include_archived),
                include_archived,
            );
        }
        listing
    }
}

} // verus!
