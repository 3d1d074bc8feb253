use crate::time::{format_minute, minute_text};
use vstd::prelude::*;
use vstd::string::StringExecFns;

verus! {

/// A project: a named list of todos.
#[derive(Debug, PartialEq)]
pub struct Project {
    pub id: i64,
    pub name: String,
    pub description: Option<String>,
    /// Milliseconds since the Unix epoch.
    pub created_at: i64,
    /// Set while the project is archived.
    pub archived_at: Option<i64>,
}

/// What a `Project` stands for in contracts.
pub struct ProjectView {
    pub id: i64,
    pub name: Seq<char>,
    pub description: Option<Seq<char>>,
    pub created_at: i64,
    pub archived_at: Option<i64>,
}

/// A todo item of a project.
#[derive(Debug, PartialEq)]
pub struct Todo {
    pub id: i64,
    pub project_id: i64,
    pub description: String,
    pub details: Option<String>,
    /// Milliseconds since the Unix epoch.
    pub created_at: i64,
    /// Set once the todo is completed.
    pub completed_at: Option<i64>,
    /// Rank among the active todos of the project; 0 once completed.
    pub position: i64,
}

/// What a `Todo` stands for in contracts.
pub struct TodoView {
    pub id: i64,
    pub project_id: i64,
    pub description: Seq<char>,
    pub details: Option<Seq<char>>,
    pub created_at: i64,
    pub completed_at: Option<i64>,
    pub position: i64,
}

/// A project with the number of its todos.
#[derive(Debug, PartialEq)]
pub struct ProjectWithStats {
    pub project: Project,
    pub total_todos: i64,
    pub completed_todos: i64,
}

/// What a `ProjectWithStats` stands for in contracts.
pub struct ProjectWithStatsView {
    pub project: ProjectView,
    pub total_todos: i64,
    pub completed_todos: i64,
}

/// The characters of an optional text.
pub open spec fn text_view(text: Option<String>) -> Option<Seq<char>> {
    match text {
        Some(s) => Some(s@),
        None => None,
    }
}

/// A copy of an optional text.
pub fn copy_text(text: &Option<String>) -> (r: Option<String>)
    ensures
        text_view(r) == text_view(*text),
{
    match text {
        Some(s) => Some(s.clone()),
        None => None,
    }
}

impl View for Project {
    type V = ProjectView;

    open spec fn view(&self) -> ProjectView {
        ProjectView {
            id: self.id,
            name: self.name@,
            description: text_view(self.description),
            created_at: self.created_at,
            archived_at: self.archived_at,
        }
    }
}

impl Clone for Project {
    fn clone(&self) -> (r: Project)
        ensures
            r@ == self@,
    {
        Project {
            id: self.id,
            name: self.name.clone(),
            description: copy_text(&self.description),
            created_at: self.created_at,
            archived_at: self.archived_at,
        }
    }
}

/// The views of a run of todos, one for one.
pub open spec fn todo_views(todos: Seq<Todo>) -> Seq<TodoView> {
    todos.map_values(|t: Todo| t@)
}

/// The views of a run of projects, one for one.
pub open spec fn project_views(projects: Seq<Project>) -> Seq<ProjectView> {
    projects.map_values(|p: Project| p@)
}

/// The views of a run of projects with their numbers, one for one.
pub open spec fn stats_views(entries: Seq<ProjectWithStats>) -> Seq<ProjectWithStatsView> {
    entries.map_values(|entry: ProjectWithStats| entry@)
}

impl ProjectView {
    pub open spec fn is_archived(self) -> bool {
        self.archived_at is Some
    }
}

impl Project {
    /// Whether the project is archived.
    pub fn is_archived(&self) -> (b: bool)
        ensures
            b == self@.is_archived(),
    {
        self.archived_at.is_some()
    }
}

impl View for Todo {
    type V = TodoView;

    open spec fn view(&self) -> TodoView {
        TodoView {
            id: self.id,
            project_id: self.project_id,
            description: self.description@,
            details: text_view(self.details),
            created_at: self.created_at,
            completed_at: self.completed_at,
            position: self.position,
        }
    }
}

impl Clone for Todo {
    fn clone(&self) -> (r: Todo)
        ensures
            r@ == self@,
    {
        Todo {
            id: self.id,
            project_id: self.project_id,
            description: self.description.clone(),
            details: copy_text(&self.details),
            created_at: self.created_at,
            completed_at: self.completed_at,
            position: self.position,
        }
    }
}

impl TodoView {
    pub open spec fn is_completed(self) -> bool {
        self.completed_at is Some
    }

    /// Active means not completed.
    pub open spec fn is_active(self) -> bool {
        self.completed_at is None
    }

    /// Whether the completion time, if there is one, can be written as a date.
    pub open spec fn has_status_text(self) -> bool {
        self.completed_at matches Some(at) ==> minute_text(at) is Some
    }

    /// `Pending` for an active todo, else the minute of completion.
    pub open spec fn status_text(self) -> Seq<char> {
        match self.completed_at {
            Some(at) => minute_text(at)->0,
            None => "Pending"@,
        }
    }
}

impl Todo {
    /// Whether the todo is completed.
    pub fn is_completed(&self) -> (b: bool)
        ensures
            b == self@.is_completed(),
    {
        self.completed_at.is_some()
    }

    /// Whether the todo may be moved up or down: only active todos may.
    pub fn can_reorder(&self) -> (b: bool)
        ensures
            b == self@.is_active(),
    {
        self.completed_at.is_none()
    }

    /// `Pending`, or the minute of completion in UTC as chrono writes it with
    /// the pattern `%Y-%m-%d %H:%M`.
    pub fn completion_status(&self) -> (s: String)
        requires
            self@.has_status_text(),
        ensures
            s@ == self@.status_text(),
    {
        match self.completed_at {
            Some(at) => match format_minute(at) {
                Some(text) => text,
                None => vstd::pervasive::unreached(),
            },
            None => String::from_str("Pending"),
        }
    }

    /// `completion_status`, or `None` for a completion time that has no date.
    pub fn try_completion_status(&self) -> (r: Option<String>)
        ensures
            r is Some == self@.has_status_text(),
            r matches Some(s) ==> s@ == self@.status_text(),
    {
        let dated = match self.completed_at {
            Some(at) => format_minute(at).is_some(),
            None => true,
        };
        if dated {
            Some(self.completion_status())
        } else {
            None
        }
    }
}

impl View for ProjectWithStats {
    type V = ProjectWithStatsView;

    open spec fn view(&self) -> ProjectWithStatsView {
        ProjectWithStatsView {
            project: self.project@,
            total_todos: self.total_todos,
            completed_todos: self.completed_todos,
        }
    }
}

impl Clone for ProjectWithStats {
    fn clone(&self) -> (r: ProjectWithStats)
        ensures
            r@ == self@,
    {
        ProjectWithStats {
            project: self.project.clone(),
            total_todos: self.total_todos,
            completed_todos: self.completed_todos,
        }
    }
}

impl ProjectWithStats {
    /// The number of todos that are not completed.
    pub fn active_todos(&self) -> (n: i64)
        requires
            i64::MIN <= self.total_todos - self.completed_todos <= i64::MAX,
        ensures
            n == self.total_todos - self.completed_todos,
    {
        self.total_todos - self.completed_todos
    }
}

} // verus!
