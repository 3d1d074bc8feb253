use crate::db::project_archival;
use crate::error::{DocketError, Invalid, Missing};
use crate::models::{stats_views, todo_views, Project, ProjectWithStats, Todo};
use crate::ordering::Direction;
use crate::service::{checked_project_creation, checked_todo_creation, todo_toggle, DocketService};
use crate::text::same_text;
use vstd::prelude::*;
use vstd::string::StringExecFns;

verus! {

/// The body of a request that creates a project.
pub struct CreateProjectRequest {
    pub name: String,
}

/// The body of a request that creates a todo.
pub struct CreateTodoRequest {
    pub description: String,
}

/// The body of a request that moves a todo: `up` or `down`.
pub struct MoveTodoRequest {
    pub direction: String,
}

/// The query of a request for the projects. Archived projects are left out
/// unless they are asked for.
pub struct ListProjectsQuery {
    pub include_archived: bool,
}

/// The query of a request for the todos of a project. Completed todos are
/// listed unless they are declined.
pub struct ListTodosQuery {
    pub include_completed: bool,
}

/// What `include_completed` is where a request does not say.
pub fn default_true() -> (b: bool)
    ensures
        b,
{
    true
}

impl Default for ListProjectsQuery {
    fn default() -> (query: ListProjectsQuery)
        ensures
            !query.include_archived,
    {
        ListProjectsQuery { include_archived: false }
    }
}

impl Default for ListTodosQuery {
    fn default() -> (query: ListTodosQuery)
        ensures
            query.include_completed,
    {
        ListTodosQuery { include_completed: default_true() }
    }
}

/// A request that failed, with the reason.
#[derive(Clone, Copy, Debug, PartialEq, Eq)]
pub struct AppError(pub DocketError);

impl AppError {
    /// The HTTP status of the answer: every failure is answered with 500.
    pub fn status_code(&self) -> (code: u16)
        ensures
            code == 500,
    {
        500
    }

    /// The text of the answer: `Error: ` and the message of the reason.
    pub fn body(&self) -> (text: String)
        ensures
            text@ == "Error: "@ + self.0.message_text(),
    {
        let message = self.0.message();
        String::from_str("Error: ").concat(message.as_str())
    }
}

/// The direction that a request names, if it names one.
pub open spec fn direction_named(text: Seq<char>) -> Option<Direction> {
    if text == "up"@ {
        Some(Direction::Up)
    } else if text == "down"@ {
        Some(Direction::Down)
    } else {
        None
    }
}

/// The direction that a request names: `up` or `down`, and nothing else.
pub fn parse_direction(text: &str) -> (r: Option<Direction>)
    ensures
        r == direction_named(text@),
{
    if same_text(text, "up") {
        Some(Direction::Up)
    } else if same_text(text, "down") {
        Some(Direction::Down)
    } else {
        None
    }
}

/// The failure of a request, if the operation failed.
pub open spec fn as_failure<T>(r: Result<T, DocketError>) -> Result<T, AppError> {
    match r {
        Ok(value) => Ok(value),
        Err(e) => Err(AppError(e)),
    }
}

/// The reason of a failed request, if the request failed.
pub open spec fn as_reason<T>(r: Result<T, AppError>) -> Result<T, DocketError> {
    match r {
        Ok(value) => Ok(value),
        Err(e) => Err(e.0),
    }
}

/// The outcome of an operation as the outcome of a request.
fn answer<T>(r: Result<T, DocketError>) -> (out: Result<T, AppError>)
    ensures
        out == as_failure(r),
        as_reason(out) == r,
{
    match r {
        Ok(value) => Ok(value),
        Err(e) => Err(AppError(e)),
    }
}

/// Answers a request for the projects.
pub fn list_projects(service: &DocketService, query: &ListProjectsQuery) -> (r: Result<
    Vec<ProjectWithStats>,
    AppError,
>)
    ensures
        r matches Ok(listing) && service@.is_project_listing(stats_views(listing@), query.include_archived),
{
    if query.include_archived {
        Ok(service.list_all_projects())
    } else {
        Ok(service.list_active_projects())
    }
}

/// Answers a request that creates a project, at the time `now`.
pub fn create_project(service: &mut DocketService, request: &CreateProjectRequest, now: i64) -> (r: Result<
    Project,
    AppError,
>)
    ensures
        old(service)@.wf(),
        final(service)@.wf(),
        checked_project_creation(old(service)@, final(service)@, as_reason(r), request.name@, now),
{
    answer(service.create_project(request.name.as_str(), now))
}

/// Answers a request that deletes a project.
pub fn delete_project(service: &mut DocketService, id: i64) -> (r: Result<(), AppError>)
    ensures
        old(service)@.wf(),
        final(service)@.wf(),
        match r {
            Ok(_) => old(service)@.has_project(id) && final(service)@ == old(service)@.delete_project(id),
            Err(e) => e == AppError(DocketError::NotFound(Missing::Project)) && !old(service)@.has_project(id)
                && final(service)@ == old(service)@,
        },
{
    answer(service.delete_project(id))
}

/// Answers a request that archives a project, at the time `now`.
pub fn archive_project(service: &mut DocketService, id: i64, now: i64) -> (r: Result<(), AppError>)
    ensures
        old(service)@.wf(),
        final(service)@.wf(),
        project_archival(old(service)@, final(service)@, as_reason(r), id, now),
{
    answer(service.archive_project(id, now))
}

/// Answers a request that takes a project out of the archive.
pub fn unarchive_project(service: &mut DocketService, id: i64) -> (r: Result<(), AppError>)
    ensures
        old(service)@.wf(),
        final(service)@.wf(),
        match r {
            Ok(_) => old(service)@.has_project(id) && final(service)@ == old(service)@.unarchive_project(id),
            Err(e) => e == AppError(DocketError::NotFound(Missing::Project)) && !old(service)@.has_project(id)
                && final(service)@ == old(service)@,
        },
{
    answer(service.unarchive_project(id))
}

/// Answers a request for the todos of a project.
pub fn list_todos(service: &DocketService, project_id: i64, query: &ListTodosQuery) -> (r: Result<
    Vec<Todo>,
    AppError,
>)
    ensures
        r matches Ok(listing) && service@.is_todo_listing(
            todo_views(listing@),
            project_id,
            query.include_completed,
        ),
{
    if query.include_completed {
        Ok(service.list_all_todos(project_id))
    } else {
        Ok(service.list_active_todos(project_id))
    }
}

/// Answers a request that creates a todo in a project, at the time `now`.
pub fn create_todo(service: &mut DocketService, project_id: i64, request: &CreateTodoRequest, now: i64) -> (r:
    Result<Todo, AppError>)
    ensures
        old(service)@.wf(),
        final(service)@.wf(),
        checked_todo_creation(old(service)@, final(service)@, as_reason(r), project_id, request.description@, now),
{
    answer(service.create_todo(project_id, request.description.as_str(), now))
}

/// Answers a request that completes a todo at the time `now`, or makes it
/// active again.
pub fn toggle_todo(service: &mut DocketService, id: i64, now: i64) -> (r: Result<(), AppError>)
    ensures
        old(service)@.wf(),
        final(service)@.wf(),
        todo_toggle(old(service)@, final(service)@, as_reason(r), id, now),
{
    answer(service.toggle_todo(id, now))
}

/// Answers a request that deletes a todo.
pub fn delete_todo(service: &mut DocketService, id: i64) -> (r: Result<(), AppError>)
    ensures
        old(service)@.wf(),
        final(service)@.wf(),
        match r {
            Ok(_) => old(service)@.has_todo(id) && final(service)@ == old(service)@.delete_todo(id),
            Err(e) => e == AppError(DocketError::NotFound(Missing::Todo)) && !old(service)@.has_todo(id)
                && final(service)@ == old(service)@,
        },
{
    answer(service.delete_todo(id))
}

/// Answers a request that moves a todo up or down. A direction other than
/// `up` and `down` is refused before the todo is looked for.
pub fn move_todo(service: &mut DocketService, id: i64, request: &MoveTodoRequest) -> (r: Result<(), AppError>)
    ensures
        old(service)@.wf(),
        final(service)@.wf(),
        match r {
            Ok(_) => {
                &&& direction_named(request.direction@) matches Some(direction)
                &&& old(service)@.has_todo(id)
                &&& old(service)@.todo(id).is_active()
                &&& final(service)@ == old(service)@.reorder_todo(id, direction)
            },
            Err(e) => {
                &&& final(service)@ == old(service)@
                &&& e == AppError(
                    if direction_named(request.direction@) is None {
                        DocketError::ValidationError(Invalid::Direction)
                    } else if !old(service)@.has_todo(id) {
                        DocketError::NotFound(Missing::Todo)
                    } else {
                        DocketError::InvalidOperation
                    },
                )
                &&& !(direction_named(request.direction@) is Some && old(service)@.has_todo(id) && old(service)@.todo(id).is_active())
            },
        },
{
    match parse_direction(request.direction.as_str()) {
        Some(Direction::Up) => answer(service.move_todo_up(id)),
        Some(Direction::Down) => answer(service.move_todo_down(id)),
        None => {
            service.database().consistency();
            Err(AppError(DocketError::ValidationError(Invalid::Direction)))
        },
    }
}

} // verus!
