use crate::db::{project_archival, project_creation, todo_creation, Database};
use crate::error::{DocketError, Missing};
use crate::models::{stats_views, todo_views, Project, ProjectWithStats, Todo};
use crate::ordering::Direction;
use crate::state::DatabaseView;
use crate::text::{
    check_project_name, check_todo_description, normalize, normalized, project_name_fault, str_view,
    todo_description_fault, trimmed, valid_project_name, valid_todo_description,
};
use vstd::prelude::*;

verus! {

/// How creating a project at time `now` relates the store before and after to
/// what is returned: a name that is not valid is refused, and nothing changes;
/// a valid one is stored without the white space at its ends.
pub open spec fn checked_project_creation(
    before: DatabaseView,
    after: DatabaseView,
    r: Result<Project, DocketError>,
    name: Seq<char>,
    now: i64,
) -> bool {
    if valid_project_name(name) {
        project_creation(before, after, r, trimmed(name), None, now)
    } else {
        r == Err::<Project, DocketError>(project_name_fault(name)) && after == before
    }
}

/// How creating a todo at time `now` relates the store before and after to what
/// is returned: a description that is not valid is refused before the project
/// is looked for, and nothing changes; a valid one is stored without the white
/// space at its ends.
pub open spec fn checked_todo_creation(
    before: DatabaseView,
    after: DatabaseView,
    r: Result<Todo, DocketError>,
    project_id: i64,
    description: Seq<char>,
    now: i64,
) -> bool {
    if valid_todo_description(description) {
        todo_creation(before, after, r, project_id, trimmed(description), now)
    } else {
        r == Err::<Todo, DocketError>(todo_description_fault(description)) && after == before
    }
}

/// How toggling the todo `id` at time `now` relates the store before and after
/// to what is returned: an active todo is completed at `now`; a completed one
/// becomes active again, after all active todos of its project.
pub open spec fn todo_toggle(
    before: DatabaseView,
    after: DatabaseView,
    r: Result<(), DocketError>,
    id: i64,
    now: i64,
) -> bool {
    if !before.has_todo(id) {
        r == Err::<(), DocketError>(DocketError::NotFound(Missing::Todo)) && after == before
    } else if before.todo(id).is_active() {
        r is Ok && after == before.complete_todo(id, now)
    } else if before.has_room_for_position(before.todo(id).project_id) {
        r is Ok && after == before.uncomplete_todo(id)
    } else {
        r == Err::<(), DocketError>(DocketError::Exhausted) && after == before
    }
}

/// The operations on projects and todos, with their rules: texts are checked,
/// and a record is looked for before anything is changed.
pub struct DocketService {
    db: Database,
}

impl View for DocketService {
    type V = DatabaseView;

    closed spec fn view(&self) -> DatabaseView {
        self.db@
    }
}

impl DocketService {
    /// The service on the store `db`.
    pub fn new(db: Database) -> (service: DocketService)
        ensures
            service@ == db@,
            service@.wf(),
    {
        db.consistency();
        DocketService { db }
    }

    /// The store of the service.
    pub fn database(&self) -> (db: &Database)
        ensures
            db@ == self@,
            self@.wf(),
    {
        self.db.consistency();
        &self.db
    }

    /// Creates a project at the time `now`.
    pub fn create_project(&mut self, name: &str, now: i64) -> (r: Result<Project, DocketError>)
        ensures
            old(self)@.wf(),
            final(self)@.wf(),
            checked_project_creation(old(self)@, final(self)@, r, name@, now),
    {
        self.db.consistency();
        match check_project_name(name) {
            Ok(name) => self.db.create_project(name, None, now),
            Err(e) => Err(e),
        }
    }

    /// The project `id`.
    pub fn get_project(&self, id: i64) -> (r: Result<Project, DocketError>)
        ensures
            self@.wf(),
            match r {
                Ok(project) => self@.has_project(id) && project@ == self@.project(id),
                Err(e) => e == DocketError::NotFound(Missing::Project) && !self@.has_project(id),
            },
    {
        self.db.get_project(id)
    }

    /// Gives the project `id` another description. White space at its ends is
    /// dropped, and a description of which nothing is left counts as none.
    pub fn update_project_description(&mut self, id: i64, description: Option<&str>) -> (r: Result<
        (),
        DocketError,
    >)
        ensures
            old(self)@.wf(),
            final(self)@.wf(),
            match r {
                Ok(_) => old(self)@.has_project(id) && final(self)@ == old(self)@.update_project_description(
                    id,
                    normalized(str_view(description)),
                ),
                Err(e) => e == DocketError::NotFound(Missing::Project) && !old(self)@.has_project(id) && final(self)@
                    == old(self)@,
            },
    {
        self.db.update_project_description(id, normalize(description))
    }

    /// Gives the project `id` another name. The project is looked for first,
    /// then the name is checked.
    pub fn update_project_name(&mut self, id: i64, name: &str) -> (r: Result<(), DocketError>)
        ensures
            old(self)@.wf(),
            final(self)@.wf(),
            match r {
                Ok(_) => {
                    &&& old(self)@.has_project(id)
                    &&& valid_project_name(name@)
                    &&& final(self)@ == old(self)@.update_project_name(id, trimmed(name@))
                },
                Err(e) => {
                    &&& final(self)@ == old(self)@
                    &&& !(old(self)@.has_project(id) && valid_project_name(name@))
                    &&& e == if !old(self)@.has_project(id) {
                        DocketError::NotFound(Missing::Project)
                    } else {
                        project_name_fault(name@)
                    }
                },
            },
    {
        match self.db.get_project(id) {
            Ok(_) => {},
            Err(e) => {
                return Err(e);
            },
        }
        match check_project_name(name) {
            Ok(name) => self.db.update_project_name(id, name),
            Err(e) => Err(e),
        }
    }

    /// The projects that are not archived, the one created last first.
    pub fn list_active_projects(&self) -> (listing: Vec<ProjectWithStats>)
        ensures
            self@.wf(),
            self@.is_project_listing(stats_views(listing@), false),
            stats_views(listing@) == self@.project_listing(false),
    {
        self.db.list_projects(false)
    }

    /// All projects, the one created last first.
    pub fn list_all_projects(&self) -> (listing: Vec<ProjectWithStats>)
        ensures
            self@.wf(),
            self@.is_project_listing(stats_views(listing@), true),
            stats_views(listing@) == self@.project_listing(true),
    {
        self.db.list_projects(true)
    }

    /// Archives the project `id` at the time `now`.
    pub fn archive_project(&mut self, id: i64, now: i64) -> (r: Result<(), DocketError>)
        ensures
            old(self)@.wf(),
            final(self)@.wf(),
            project_archival(old(self)@, final(self)@, r, id, now),
    {
        self.db.archive_project(id, now)
    }

    /// Takes the project `id` out of the archive.
    pub fn unarchive_project(&mut self, id: i64) -> (r: Result<(), DocketError>)
        ensures
            old(self)@.wf(),
            final(self)@.wf(),
            match r {
                Ok(_) => old(self)@.has_project(id) && final(self)@ == old(self)@.unarchive_project(id),
                Err(e) => e == DocketError::NotFound(Missing::Project) && !old(self)@.has_project(id) && final(self)@
                    == old(self)@,
            },
    {
        self.db.unarchive_project(id)
    }

    /// Deletes the project `id` and, with it, its todos.
    pub fn delete_project(&mut self, id: i64) -> (r: Result<(), DocketError>)
        ensures
            old(self)@.wf(),
            final(self)@.wf(),
            match r {
                Ok(_) => old(self)@.has_project(id) && final(self)@ == old(self)@.delete_project(id),
                Err(e) => e == DocketError::NotFound(Missing::Project) && !old(self)@.has_project(id) && final(self)@
                    == old(self)@,
            },
    {
        self.db.delete_project(id)
    }

    /// Creates a todo in the project at the time `now`. The description is
    /// checked first, then the project is looked for.
    pub fn create_todo(&mut self, project_id: i64, description: &str, now: i64) -> (r: Result<Todo, DocketError>)
        ensures
            old(self)@.wf(),
            final(self)@.wf(),
            checked_todo_creation(old(self)@, final(self)@, r, project_id, description@, now),
    {
        self.db.consistency();
        match check_todo_description(description) {
            Ok(description) => self.db.create_todo(project_id, description, now),
            Err(e) => Err(e),
        }
    }

    /// The todos of the project: the active ones by position, then the
    /// completed ones, the one completed last first.
    pub fn list_all_todos(&self, project_id: i64) -> (listing: Vec<Todo>)
        ensures
            self@.wf(),
            self@.is_todo_listing(todo_views(listing@), project_id, true),
            todo_views(listing@) == self@.todo_listing(project_id, true),
    {
        self.db.list_todos(project_id, true)
    }

    /// The active todos of the project, by position.
    pub fn list_active_todos(&self, project_id: i64) -> (listing: Vec<Todo>)
        ensures
            self@.wf(),
            self@.is_todo_listing(todo_views(listing@), project_id, false),
            todo_views(listing@) == self@.todo_listing(project_id, false),
    {
        self.db.list_todos(project_id, false)
    }

    /// Completes the todo `id` at the time `now` if it is active, and makes it
    /// active again if it is completed.
    pub fn toggle_todo(&mut self, id: i64, now: i64) -> (r: Result<(), DocketError>)
        ensures
            old(self)@.wf(),
            final(self)@.wf(),
            todo_toggle(old(self)@, final(self)@, r, id, now),
    {
        let todo = match self.db.get_todo(id) {
            Ok(todo) => todo,
            Err(e) => {
                return Err(e);
            },
        };
        if todo.is_completed() {
            self.db.uncomplete_todo(id)
        } else {
            self.db.complete_todo(id, now)
        }
    }

    /// Deletes the todo `id`.
    pub fn delete_todo(&mut self, id: i64) -> (r: Result<(), DocketError>)
        ensures
            old(self)@.wf(),
            final(self)@.wf(),
            match r {
                Ok(_) => old(self)@.has_todo(id) && final(self)@ == old(self)@.delete_todo(id),
                Err(e) => e == DocketError::NotFound(Missing::Todo) && !old(self)@.has_todo(id) && final(self)@
                    == old(self)@,
            },
    {
        self.db.delete_todo(id)
    }

    /// The todo `id`.
    pub fn get_todo(&self, id: i64) -> (r: Result<Todo, DocketError>)
        ensures
            self@.wf(),
            match r {
                Ok(todo) => self@.has_todo(id) && todo@ == self@.todo(id),
                Err(e) => e == DocketError::NotFound(Missing::Todo) && !self@.has_todo(id),
            },
    {
        self.db.get_todo(id)
    }

    /// Gives the todo `id` other details. White space at their ends is
    /// dropped, and details of which nothing is left count as none.
    pub fn update_todo_details(&mut self, id: i64, details: Option<&str>) -> (r: Result<(), DocketError>)
        ensures
            old(self)@.wf(),
            final(self)@.wf(),
            match r {
                Ok(_) => old(self)@.has_todo(id) && final(self)@ == old(self)@.update_todo_details(
                    id,
                    normalized(str_view(details)),
                ),
                Err(e) => e == DocketError::NotFound(Missing::Todo) && !old(self)@.has_todo(id) && final(self)@
                    == old(self)@,
            },
    {
        self.db.update_todo_details(id, normalize(details))
    }

    /// Gives the todo `id` another description. The todo is looked for first,
    /// then the description is checked.
    pub fn update_todo(&mut self, id: i64, description: &str) -> (r: Result<(), DocketError>)
        ensures
            old(self)@.wf(),
            final(self)@.wf(),
            match r {
                Ok(_) => {
                    &&& old(self)@.has_todo(id)
                    &&& valid_todo_description(description@)
                    &&& final(self)@ == old(self)@.update_todo(id, trimmed(description@))
                },
                Err(e) => {
                    &&& final(self)@ == old(self)@
                    &&& !(old(self)@.has_todo(id) && valid_todo_description(description@))
                    &&& e == if !old(self)@.has_todo(id) {
                        DocketError::NotFound(Missing::Todo)
                    } else {
                        todo_description_fault(description@)
                    }
                },
            },
    {
        match self.db.get_todo(id) {
            Ok(_) => {},
            Err(e) => {
                return Err(e);
            },
        }
        match check_todo_description(description) {
            Ok(description) => self.db.update_todo(id, description),
            Err(e) => Err(e),
        }
    }

    /// Moves the active todo `id` one place towards the head of its list.
    pub fn move_todo_up(&mut self, id: i64) -> (r: Result<(), DocketError>)
        ensures
            old(self)@.wf(),
            final(self)@.wf(),
            match r {
                Ok(_) => {
                    &&& old(self)@.has_todo(id)
                    &&& old(self)@.todo(id).is_active()
                    &&& final(self)@ == old(self)@.reorder_todo(id, Direction::Up)
                },
                Err(e) => {
                    &&& final(self)@ == old(self)@
                    &&& !(old(self)@.has_todo(id) && old(self)@.todo(id).is_active())
                    &&& e == if !old(self)@.has_todo(id) {
                        DocketError::NotFound(Missing::Todo)
                    } else {
                        DocketError::InvalidOperation
                    }
                },
            },
    {
        self.db.reorder_todo(id, Direction::Up)
    }

    /// Moves the active todo `id` one place towards the end of its list.
    pub fn move_todo_down(&mut self, id: i64) -> (r: Result<(), DocketError>)
        ensures
            old(self)@.wf(),
            final(self)@.wf(),
            match r {
                Ok(_) => {
                    &&& old(self)@.has_todo(id)
                    &&& old(self)@.todo(id).is_active()
                    &&& final(self)@ == old(self)@.reorder_todo(id, Direction::Down)
                },
                Err(e) => {
                    &&& final(self)@ == old(self)@
                    &&& !(old(self)@.has_todo(id) && old(self)@.todo(id).is_active())
                    &&& e == if !old(self)@.has_todo(id) {
                        DocketError::NotFound(Missing::Todo)
                    } else {
                        DocketError::InvalidOperation
                    }
                },
            },
    {
        self.db.reorder_todo(id, Direction::Down)
    }
}

} // verus!
