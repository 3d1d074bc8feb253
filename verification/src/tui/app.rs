use crate::error::{DocketError, Missing};
use crate::models::{
    stats_views, text_view, todo_views, Project, ProjectView, ProjectWithStats, ProjectWithStatsView, Todo,
    TodoView,
};
use crate::service::DocketService;
use crate::state::DatabaseView;
use crate::text::{is_blank, normalized, project_name_fault, todo_description_fault, trim, trimmed, valid_project_name, valid_todo_description};
use vstd::prelude::*;
use vstd::string::StringExecFns;

verus! {

/// What the terminal interface shows.
#[derive(Clone, Copy, Debug, PartialEq, Eq, Structural)]
pub enum ViewMode {
    /// The projects that are not archived.
    ProjectList,
    /// The todos of the project with this identifier.
    TodoList(i64),
    /// All projects, the archived ones among them.
    ArchivedProjects,
    Help,
}

/// What the keys that are pressed are taken for.
#[derive(Clone, Copy, Debug, PartialEq, Eq, Structural)]
pub enum InputMode {
    Normal,
    Command,
    AddProject,
    AddTodo,
    EditDescription,
    EditTodoDetails,
    EditTodo,
    EditProjectName,
}

/// The state of the terminal interface.
pub struct App {
    pub service: DocketService,
    pub view_mode: ViewMode,
    pub input_mode: InputMode,
    pub projects: Vec<ProjectWithStats>,
    pub todos: Vec<Todo>,
    pub current_project: Option<Project>,
    pub selected_index: usize,
    pub input_buffer: String,
    pub status_message: Option<String>,
    pub show_completed: bool,
    pub should_quit: bool,
    pub expanded_todo_id: Option<i64>,
}

/// What an `App` stands for in contracts.
#[verifier::ext_equal]
pub struct AppView {
    pub store: DatabaseView,
    pub view_mode: ViewMode,
    pub input_mode: InputMode,
    pub projects: Seq<ProjectWithStatsView>,
    pub todos: Seq<TodoView>,
    pub current_project: Option<ProjectView>,
    pub selected_index: usize,
    pub input_buffer: Seq<char>,
    pub status_message: Option<Seq<char>>,
    pub show_completed: bool,
    pub should_quit: bool,
    pub expanded_todo_id: Option<i64>,
}

/// What an optional project stands for in contracts.
pub open spec fn project_view(project: Option<Project>) -> Option<ProjectView> {
    match project {
        Some(project) => Some(project@),
        None => None,
    }
}

impl View for App {
    type V = AppView;

    open spec fn view(&self) -> AppView {
        AppView {
            store: self.service@,
            view_mode: self.view_mode,
            input_mode: self.input_mode,
            projects: stats_views(self.projects@),
            todos: todo_views(self.todos@),
            current_project: project_view(self.current_project),
            selected_index: self.selected_index,
            input_buffer: self.input_buffer@,
            status_message: text_view(self.status_message),
            show_completed: self.show_completed,
            should_quit: self.should_quit,
            expanded_todo_id: self.expanded_todo_id,
        }
    }
}

/// The selection after a list was loaded: it stays on the last entry where it
/// would lie beyond the list, and it stays as it is where the list is empty.
pub open spec fn clamp_selection(selected: usize, len: nat) -> usize {
    if selected >= len && len > 0 {
        (len - 1) as usize
    } else {
        selected
    }
}

/// The first todo of `todos` with the identifier `id`.
pub open spec fn find_by_id(todos: Seq<TodoView>, id: i64) -> Option<TodoView>
    decreases todos.len(),
{
    if todos.len() == 0 {
        None
    } else if todos[0].id == id {
        Some(todos[0])
    } else {
        find_by_id(todos.drop_first(), id)
    }
}

/// The text of an optional text, empty where there is none.
pub open spec fn text_or_empty(text: Option<Seq<char>>) -> Seq<char> {
    match text {
        Some(text) => text,
        None => Seq::empty(),
    }
}

impl AppView {
    /// The state in which the interface starts.
    pub open spec fn initial(store: DatabaseView) -> AppView {
        AppView {
            store,
            view_mode: ViewMode::ProjectList,
            input_mode: InputMode::Normal,
            projects: Seq::empty(),
            todos: Seq::empty(),
            current_project: None,
            selected_index: 0,
            input_buffer: Seq::empty(),
            status_message: None,
            show_completed: true,
            should_quit: false,
            expanded_todo_id: None,
        }
    }

    /// The length of the list that is shown.
    pub open spec fn list_len(self) -> nat {
        match self.view_mode {
            ViewMode::ProjectList | ViewMode::ArchivedProjects => self.projects.len(),
            ViewMode::TodoList(_) => self.todos.len(),
            ViewMode::Help => 0,
        }
    }

    pub open spec fn shows_todos(self) -> bool {
        self.view_mode is TodoList
    }

    /// The todo under the selection.
    pub open spec fn selected_todo(self) -> Option<TodoView> {
        if self.selected_index < self.todos.len() {
            Some(self.todos[self.selected_index as int])
        } else {
            None
        }
    }

    /// The project under the selection.
    pub open spec fn selected_project(self) -> Option<ProjectView> {
        if self.selected_index < self.projects.len() {
            Some(self.projects[self.selected_index as int].project)
        } else {
            None
        }
    }

    /// The project that a change of name is about: in a list of projects the
    /// one under the selection, in a list of todos the project of the list.
    pub open spec fn project_in_focus(self) -> Option<ProjectView> {
        match self.view_mode {
            ViewMode::ProjectList | ViewMode::ArchivedProjects => self.selected_project(),
            ViewMode::TodoList(_) => self.current_project,
            ViewMode::Help => None,
        }
    }

    /// The todo that is shown with its details.
    pub open spec fn expanded_todo(self) -> Option<TodoView> {
        match self.expanded_todo_id {
            Some(id) => find_by_id(self.todos, id),
            None => None,
        }
    }

    pub open spec fn previous_item(self) -> AppView {
        if self.list_len() > 0 && self.selected_index > 0 {
            AppView { selected_index: (self.selected_index - 1) as usize, ..self }
        } else {
            self
        }
    }

    pub open spec fn next_item(self) -> AppView {
        if self.list_len() > 0 && self.selected_index < self.list_len() - 1 {
            AppView { selected_index: (self.selected_index + 1) as usize, ..self }
        } else {
            self
        }
    }

    pub open spec fn show_help(self) -> AppView {
        AppView { view_mode: ViewMode::Help, ..self }
    }

    pub open spec fn set_status(self, message: Seq<char>) -> AppView {
        AppView { status_message: Some(message), ..self }
    }

    pub open spec fn clear_status(self) -> AppView {
        AppView { status_message: None, ..self }
    }

    /// The state in which text is taken in `mode`, starting from `text`.
    pub open spec fn start_input(self, mode: InputMode, text: Seq<char>) -> AppView {
        AppView { input_mode: mode, input_buffer: text, ..self }
    }

    pub open spec fn start_add_project(self) -> AppView {
        self.start_input(InputMode::AddProject, Seq::empty())
    }

    pub open spec fn start_add_todo(self) -> AppView {
        if self.shows_todos() {
            self.start_input(InputMode::AddTodo, Seq::empty())
        } else {
            self
        }
    }

    pub open spec fn start_command_mode(self) -> AppView {
        self.start_input(InputMode::Command, Seq::empty())
    }

    pub open spec fn cancel_input(self) -> AppView {
        self.start_input(InputMode::Normal, Seq::empty())
    }

    /// Editing the description of the project starts from the description
    /// that it has.
    pub open spec fn start_edit_description(self) -> AppView {
        if self.shows_todos() {
            self.start_input(
                InputMode::EditDescription,
                match self.current_project {
                    Some(project) => text_or_empty(project.description),
                    None => Seq::empty(),
                },
            )
        } else {
            self
        }
    }

    /// Editing a todo starts from the description of the todo under the
    /// selection.
    pub open spec fn start_edit_todo(self) -> AppView {
        match self.selected_todo() {
            Some(todo) if self.shows_todos() => self.start_input(InputMode::EditTodo, todo.description),
            _ => self,
        }
    }

    /// Editing the name of a project starts from the name that it has.
    pub open spec fn start_edit_project_name(self) -> AppView {
        match self.project_in_focus() {
            Some(project) => self.start_input(InputMode::EditProjectName, project.name),
            None => self,
        }
    }

    /// Editing the details of the expanded todo starts from the details that
    /// it has.
    pub open spec fn start_edit_todo_details(self) -> AppView {
        match self.expanded_todo() {
            Some(todo) if self.shows_todos() => self.start_input(
                InputMode::EditTodoDetails,
                text_or_empty(todo.details),
            ),
            _ => self,
        }
    }

    /// The todo under the selection is expanded, or collapsed if it is the
    /// expanded one.
    pub open spec fn toggle_todo_expand(self) -> AppView {
        match self.selected_todo() {
            Some(todo) if self.shows_todos() => AppView {
                expanded_todo_id: if self.expanded_todo_id == Some(todo.id) {
                    None
                } else {
                    Some(todo.id)
                },
                ..self
            },
            _ => self,
        }
    }

    /// The state with another store.
    pub open spec fn with_store(self, store: DatabaseView) -> AppView {
        AppView { store, ..self }
    }

    /// The projects are read from the store: all of them where the archive is
    /// shown, else those that are not archived.
    pub open spec fn load_projects(self) -> AppView {
        let projects = self.store.project_listing(self.view_mode == ViewMode::ArchivedProjects);
        AppView { projects, selected_index: clamp_selection(self.selected_index, projects.len()), ..self }
    }

    /// The todos of the project are read from the store, with the completed
    /// ones where they are shown.
    pub open spec fn load_todos(self, project_id: i64) -> AppView {
        let todos = self.store.todo_listing(project_id, self.show_completed);
        AppView { todos, selected_index: clamp_selection(self.selected_index, todos.len()), ..self }
    }

    /// Whether the project under the selection is gone from the store.
    pub open spec fn enter_project_fails(self) -> bool {
        self.selected_project() matches Some(project) && !self.store.has_project(project.id)
    }

    /// The todos of the project under the selection are shown.
    pub open spec fn enter_project(self) -> AppView {
        match self.selected_project() {
            Some(project) if self.store.has_project(project.id) => (AppView {
                current_project: Some(self.store.project(project.id)),
                view_mode: ViewMode::TodoList(project.id),
                selected_index: 0,
                ..self
            }).load_todos(project.id),
            _ => self,
        }
    }

    /// The projects that are not archived are shown.
    pub open spec fn back_to_projects(self) -> AppView {
        (AppView { view_mode: ViewMode::ProjectList, current_project: None, selected_index: 0, ..self }).load_projects()
    }

    /// In a list of projects, the archive is shown or hidden.
    pub open spec fn toggle_archived(self) -> AppView {
        match self.view_mode {
            ViewMode::ProjectList => (AppView {
                view_mode: ViewMode::ArchivedProjects,
                selected_index: 0,
                ..self
            }).load_projects(),
            ViewMode::ArchivedProjects => (AppView {
                view_mode: ViewMode::ProjectList,
                selected_index: 0,
                ..self
            }).load_projects(),
            _ => self,
        }
    }

    /// In a list of todos, the completed todos are shown or hidden.
    pub open spec fn toggle_completed(self) -> AppView {
        match self.view_mode {
            ViewMode::TodoList(project_id) => (AppView {
                show_completed: !self.show_completed,
                selected_index: 0,
                ..self
            }).load_todos(project_id),
            _ => self,
        }
    }

    /// Whether the project whose description was edited is gone from the store.
    pub open spec fn save_description_fails(self) -> bool {
        self.view_mode matches ViewMode::TodoList(project_id) && !self.store.has_project(project_id)
    }

    /// What was typed becomes the description of the project of the list.
    pub open spec fn save_description(self) -> AppView {
        match self.view_mode {
            ViewMode::TodoList(project_id) => if self.store.has_project(project_id) {
                let store = self.store.update_project_description(
                    project_id,
                    normalized(Some(self.input_buffer)),
                );
                (AppView {
                    store,
                    current_project: Some(store.project(project_id)),
                    ..self
                }).set_status("Description updated"@).cancel_input()
            } else {
                self
            },
            _ => self.cancel_input(),
        }
    }

    /// Whether the todo whose details were edited is gone from the store.
    pub open spec fn save_todo_details_fails(self) -> bool {
        self.expanded_todo_id matches Some(id) && !self.store.has_todo(id)
    }

    /// What was typed becomes the details of the expanded todo.
    pub open spec fn save_todo_details(self) -> AppView {
        match self.expanded_todo_id {
            Some(id) => if self.store.has_todo(id) {
                let saved = self.with_store(
                    self.store.update_todo_details(id, normalized(Some(self.input_buffer))),
                );
                let loaded = match self.view_mode {
                    ViewMode::TodoList(project_id) => saved.load_todos(project_id),
                    _ => saved,
                };
                loaded.set_status("Details updated"@).cancel_input()
            } else {
                self
            },
            None => self.cancel_input(),
        }
    }

    /// What was typed becomes the name of the project in focus, if it is a
    /// name; the status line says how it went.
    pub open spec fn save_project_name(self) -> AppView {
        let name = trimmed(self.input_buffer);
        match self.project_in_focus() {
            Some(project) if name.len() > 0 => {
                if !self.store.has_project(project.id) {
                    self.set_status("Error: "@ + DocketError::NotFound(Missing::Project).message_text())
                } else if !valid_project_name(name) {
                    self.set_status("Error: "@ + project_name_fault(name).message_text())
                } else {
                    let saved = self.with_store(
                        self.store.update_project_name(project.id, trimmed(name)),
                    ).set_status("Project name updated"@);
                    if self.shows_todos() {
                        AppView { current_project: Some(saved.store.project(project.id)), ..saved }
                    } else {
                        saved.load_projects()
                    }
                }
            }.cancel_input(),
            _ => self.cancel_input(),
        }
    }

    /// What was typed becomes the description of the todo under the selection,
    /// if it is a description; the status line says how it went.
    pub open spec fn save_todo(self) -> AppView {
        let description = trimmed(self.input_buffer);
        match (self.view_mode, self.selected_todo()) {
            (ViewMode::TodoList(project_id), Some(todo)) if description.len() > 0 => {
                if !self.store.has_todo(todo.id) {
                    self.set_status("Error: "@ + DocketError::NotFound(Missing::Todo).message_text())
                } else if !valid_todo_description(description) {
                    self.set_status("Error: "@ + todo_description_fault(description).message_text())
                } else {
                    self.with_store(self.store.update_todo(todo.id, trimmed(description))).load_todos(
                        project_id,
                    ).set_status("Todo updated"@)
                }
            }.cancel_input(),
            _ => self.cancel_input(),
        }
    }
}

/// `prefix` followed by the message of `e`.
pub fn error_message(prefix: &str, e: DocketError) -> (r: String)
    ensures
        r@ == prefix@ + e.message_text(),
{
    let message = e.message();
    String::from_str(prefix).concat(message.as_str())
}

/// A copy of an optional text, empty where there is none.
fn copy_or_empty(text: &Option<String>) -> (r: String)
    ensures
        r@ == text_or_empty(text_view(*text)),
{
    match text {
        Some(text) => text.clone(),
        None => String::new(),
    }
}

impl App {
    /// The interface on `service`, showing the projects, which are yet to be
    /// loaded.
    pub fn new(service: DocketService) -> (app: App)
        ensures
            app@ == AppView::initial(service@),
    {
        App {
            service,
            view_mode: ViewMode::ProjectList,
            input_mode: InputMode::Normal,
            projects: Vec::new(),
            todos: Vec::new(),
            current_project: None,
            selected_index: 0,
            input_buffer: String::new(),
            status_message: None,
            show_completed: true,
            should_quit: false,
            expanded_todo_id: None,
        }
    }

    /// The length of the list that is shown.
    pub fn list_len(&self) -> (len: usize)
        ensures
            len == self@.list_len(),
    {
        match self.view_mode {
            ViewMode::ProjectList | ViewMode::ArchivedProjects => self.projects.len(),
            ViewMode::TodoList(_) => self.todos.len(),
            ViewMode::Help => 0,
        }
    }

    /// Moves the selection to the entry before.
    pub fn previous_item(&mut self)
        ensures
            final(self)@ == old(self)@.previous_item(),
    {
        let len = self.list_len();
        if len > 0 && self.selected_index > 0 {
            self.selected_index -= 1;
        }
    }

    /// Moves the selection to the next entry.
    pub fn next_item(&mut self)
        ensures
            final(self)@ == old(self)@.next_item(),
    {
        let len = self.list_len();
        if len > 0 && self.selected_index < len - 1 {
            self.selected_index += 1;
        }
    }

    /// Shows the help.
    pub fn show_help(&mut self)
        ensures
            final(self)@ == old(self)@.show_help(),
    {
        self.view_mode = ViewMode::Help;
    }

    /// Sets the message of the status line.
    pub fn set_status(&mut self, message: String)
        ensures
            final(self)@ == old(self)@.set_status(message@),
    {
        self.status_message = Some(message);
    }

    /// Clears the status line.
    pub fn clear_status(&mut self)
        ensures
            final(self)@ == old(self)@.clear_status(),
    {
        self.status_message = None;
    }

    /// Starts taking the name of a new project.
    pub fn start_add_project(&mut self)
        ensures
            final(self)@ == old(self)@.start_add_project(),
    {
        self.input_mode = InputMode::AddProject;
        self.input_buffer = String::new();
    }

    /// Starts taking the description of a new todo, in a list of todos.
    pub fn start_add_todo(&mut self)
        ensures
            final(self)@ == old(self)@.start_add_todo(),
    {
        if let ViewMode::TodoList(_) = self.view_mode {
            self.input_mode = InputMode::AddTodo;
            self.input_buffer = String::new();
        }
    }

    /// Starts editing the description of the project, in a list of todos.
    pub fn start_edit_description(&mut self)
        ensures
            final(self)@ == old(self)@.start_edit_description(),
    {
        if let ViewMode::TodoList(_) = self.view_mode {
            self.input_mode = InputMode::EditDescription;
            self.input_buffer =
            match &self.current_project {
                Some(project) => copy_or_empty(&project.description),
                None => String::new(),
            };
        }
    }

    /// Starts taking a command.
    pub fn start_command_mode(&mut self)
        ensures
            final(self)@ == old(self)@.start_command_mode(),
    {
        self.input_mode = InputMode::Command;
        self.input_buffer = String::new();
    }

    /// Leaves the input and drops what was typed.
    pub fn cancel_input(&mut self)
        ensures
            final(self)@ == old(self)@.cancel_input(),
    {
        self.input_mode = InputMode::Normal;
        self.input_buffer = String::new();
    }

    /// Expands the todo under the selection, or collapses it if it is the
    /// expanded one.
    pub fn toggle_todo_expand(&mut self)
        ensures
            final(self)@ == old(self)@.toggle_todo_expand(),
    {
        if let ViewMode::TodoList(_) = self.view_mode {
            if self.selected_index < self.todos.len() {
                let id = self.todos[self.selected_index].id;
                let expanded = match self.expanded_todo_id {
                    Some(expanded) => expanded == id,
                    None => false,
                };
                if expanded {
                    self.expanded_todo_id = None;
                } else {
                    self.expanded_todo_id = Some(id);
                }
            }
        }
    }

    /// The todo that is shown with its details.
    pub fn get_expanded_todo(&self) -> (r: Option<&Todo>)
        ensures
            match r {
                Some(todo) => self@.expanded_todo() == Some(todo@),
                None => self@.expanded_todo() is None,
            },
    {
        let id = match self.expanded_todo_id {
            Some(id) => id,
            None => {
                return None;
            },
        };
        let ghost views = todo_views(self.todos@);
        let mut n: usize = 0;
        proof {
            assert(views.skip(0) =~= views);
        }
        while n < self.todos.len()
            invariant
                n <= self.todos.len(),
                self.expanded_todo_id == Some(id),
                views == todo_views(self.todos@),
                find_by_id(views, id) == find_by_id(views.skip(n as int), id),
            decreases self.todos.len() - n,
        {
            proof {
                assert(views.skip(n as int)[0] == views[n as int]);
                assert(views[n as int] == self.todos@[n as int]@);
                assert(views.skip(n as int).drop_first() =~= views.skip(n + 1));
            }
            if self.todos[n].id == id {
                return Some(&self.todos[n]);
            }
            n += 1;
        }
        None
    }

    /// Starts editing the todo under the selection.
    pub fn start_edit_todo(&mut self)
        ensures
            final(self)@ == old(self)@.start_edit_todo(),
    {
        if let ViewMode::TodoList(_) = self.view_mode {
            if self.selected_index < self.todos.len() {
                self.input_mode = InputMode::EditTodo;
                self.input_buffer = self.todos[self.selected_index].description.clone();
            }
        }
    }

    /// Starts editing the name of the project in focus.
    pub fn start_edit_project_name(&mut self)
        ensures
            final(self)@ == old(self)@.start_edit_project_name(),
    {
        let name = match self.view_mode {
            ViewMode::ProjectList | ViewMode::ArchivedProjects => {
                if self.selected_index < self.projects.len() {
                    Some(self.projects[self.selected_index].project.name.clone())
                } else {
                    None
                }
            },
            ViewMode::TodoList(_) => match &self.current_project {
                Some(project) => Some(project.name.clone()),
                None => None,
            },
            ViewMode::Help => None,
        };
        if let Some(name) = name {
            self.input_mode = InputMode::EditProjectName;
            self.input_buffer = name;
        }
    }

    /// Starts editing the details of the expanded todo.
    pub fn start_edit_todo_details(&mut self)
        ensures
            final(self)@ == old(self)@.start_edit_todo_details(),
    {
        if let ViewMode::TodoList(_) = self.view_mode {
            let details = match self.get_expanded_todo() {
                Some(todo) => Some(copy_or_empty(&todo.details)),
                None => None,
            };
            if let Some(details) = details {
                self.input_buffer = details;
                self.input_mode = InputMode::EditTodoDetails;
            }
        }
    }

    /// Loads the projects.
    pub fn init(&mut self)
        ensures
            final(self)@ == old(self)@.load_projects(),
            final(self)@.store.wf(),
    {
        self.load_projects();
    }

    /// Reads the projects from the store and keeps the selection within them.
    pub fn load_projects(&mut self)
        ensures
            final(self)@ == old(self)@.load_projects(),
            final(self)@.store.wf(),
    {
        self.projects =
        match self.view_mode {
            ViewMode::ArchivedProjects => self.service.list_all_projects(),
            _ => self.service.list_active_projects(),
        };
        if self.selected_index >= self.projects.len() && self.projects.len() > 0 {
            self.selected_index = self.projects.len() - 1;
        }
    }

    /// Reads the todos of the project from the store and keeps the selection
    /// within them.
    pub fn load_todos(&mut self, project_id: i64)
        ensures
            final(self)@ == old(self)@.load_todos(project_id),
            final(self)@.store.wf(),
    {
        self.todos =
        if self.show_completed {
            self.service.list_all_todos(project_id)
        } else {
            self.service.list_active_todos(project_id)
        };
        if self.selected_index >= self.todos.len() && self.todos.len() > 0 {
            self.selected_index = self.todos.len() - 1;
        }
    }

    /// Shows the todos of the project under the selection. Fails, and changes
    /// nothing, where that project is gone from the store.
    pub fn enter_project(&mut self) -> (r: Result<(), DocketError>)
        ensures
            final(self)@ == old(self)@.enter_project(),
            r == if old(self)@.enter_project_fails() {
                Err::<(), DocketError>(DocketError::NotFound(Missing::Project))
            } else {
                Ok(())
            },
    {
        if self.selected_index < self.projects.len() {
            let project_id = self.projects[self.selected_index].project.id;
            match self.service.get_project(project_id) {
                Ok(project) => {
                    self.current_project = Some(project);
                    self.view_mode = ViewMode::TodoList(project_id);
                    self.selected_index = 0;
                    self.load_todos(project_id);
                },
                Err(e) => {
                    return Err(e);
                },
            }
        }
        Ok(())
    }

    /// Goes back to the projects that are not archived.
    pub fn back_to_projects(&mut self)
        ensures
            final(self)@ == old(self)@.back_to_projects(),
    {
        self.view_mode = ViewMode::ProjectList;
        self.current_project = None;
        self.selected_index = 0;
        self.load_projects();
    }

    /// Shows or hides the archive, in a list of projects.
    pub fn toggle_archived(&mut self)
        ensures
            final(self)@ == old(self)@.toggle_archived(),
    {
        match self.view_mode {
            ViewMode::ProjectList => {
                self.view_mode = ViewMode::ArchivedProjects;
            },
            ViewMode::ArchivedProjects => {
                self.view_mode = ViewMode::ProjectList;
            },
            _ => {
                return ;
            },
        }
        self.selected_index = 0;
        self.load_projects();
    }

    /// Shows or hides the completed todos, in a list of todos.
    pub fn toggle_completed(&mut self)
        ensures
            final(self)@ == old(self)@.toggle_completed(),
    {
        if let ViewMode::TodoList(project_id) = self.view_mode {
            self.show_completed = !self.show_completed;
            self.selected_index = 0;
            self.load_todos(project_id);
        }
    }

    /// Saves what was typed as the description of the project of the list.
    /// Fails, and changes nothing, where that project is gone from the store.
    pub fn save_description(&mut self) -> (r: Result<(), DocketError>)
        ensures
            final(self)@ == old(self)@.save_description(),
            r == if old(self)@.save_description_fails() {
                Err::<(), DocketError>(DocketError::NotFound(Missing::Project))
            } else {
                Ok(())
            },
    {
        if let ViewMode::TodoList(project_id) = self.view_mode {
            let typed = self.input_buffer.clone();
            let description = if is_blank(typed.as_str()) {
                None
            } else {
                Some(typed.as_str())
            };
            match self.service.update_project_description(project_id, description) {
                Ok(_) => {},
                Err(e) => {
                    return Err(e);
                },
            }
            proof {
                let at = old(self)@.store.project_index(project_id);
                assert(self@.store.projects[at].id == project_id);
                crate::consistency::lemma_project_index(self@.store, at);
            }
            match self.service.get_project(project_id) {
                Ok(project) => {
                    self.current_project = Some(project);
                },
                Err(e) => {
                    return Err(e);
                },
            }
            self.set_status(String::from_str("Description updated"));
        }
        self.cancel_input();
        Ok(())
    }

    /// Saves what was typed as the details of the expanded todo. Fails, and
    /// changes nothing, where that todo is gone from the store.
    pub fn save_todo_details(&mut self) -> (r: Result<(), DocketError>)
        ensures
            final(self)@ == old(self)@.save_todo_details(),
            r == if old(self)@.save_todo_details_fails() {
                Err::<(), DocketError>(DocketError::NotFound(Missing::Todo))
            } else {
                Ok(())
            },
    {
        if let Some(todo_id) = self.expanded_todo_id {
            let typed = self.input_buffer.clone();
            let details = if is_blank(typed.as_str()) {
                None
            } else {
                Some(typed.as_str())
            };
            match self.service.update_todo_details(todo_id, details) {
                Ok(_) => {},
                Err(e) => {
                    return Err(e);
                },
            }
            if let ViewMode::TodoList(project_id) = self.view_mode {
                self.load_todos(project_id);
            }
            self.set_status(String::from_str("Details updated"));
        }
        self.cancel_input();
        Ok(())
    }

    /// Saves what was typed as the name of the project in focus, and says in
    /// the status line how it went. Nothing is saved where nothing but white
    /// space was typed.
    pub fn save_project_name(&mut self) -> (r: Result<(), DocketError>)
        ensures
            final(self)@ == old(self)@.save_project_name(),
            r is Ok,
    {
        let project_id = match self.view_mode {
            ViewMode::ProjectList | ViewMode::ArchivedProjects => {
                if self.selected_index < self.projects.len() {
                    Some(self.projects[self.selected_index].project.id)
                } else {
                    None
                }
            },
            ViewMode::TodoList(_) => match &self.current_project {
                Some(project) => Some(project.id),
                None => None,
            },
            ViewMode::Help => None,
        };
        if let Some(id) = project_id {
            let name = trim(self.input_buffer.as_str()).to_owned();
            if !name.as_str().is_empty() {
                match self.service.update_project_name(id, name.as_str()) {
                    Ok(_) => {
                        self.set_status(String::from_str("Project name updated"));
                        if let ViewMode::TodoList(_) = self.view_mode {
                            proof {
                                let at = old(self)@.store.project_index(id);
                                assert(self@.store.projects[at].id == id);
                                crate::consistency::lemma_project_index(self@.store, at);
                            }
                            match self.service.get_project(id) {
                                Ok(project) => {
                                    self.current_project = Some(project);
                                },
                                Err(e) => {
                                    return Err(e);
                                },
                            }
                        } else {
                            self.load_projects();
                        }
                    },
                    Err(e) => {
                        self.set_status(error_message("Error: ", e));
                    },
                }
            }
        }
        self.cancel_input();
        Ok(())
    }

    /// Saves what was typed as the description of the todo under the
    /// selection, and says in the status line how it went. Nothing is saved
    /// where nothing but white space was typed.
    pub fn save_todo(&mut self) -> (r: Result<(), DocketError>)
        ensures
            final(self)@ == old(self)@.save_todo(),
            r is Ok,
    {
        if let ViewMode::TodoList(project_id) = self.view_mode {
            if self.selected_index < self.todos.len() {
                let todo_id = self.todos[self.selected_index].id;
                let description = trim(self.input_buffer.as_str()).to_owned();
                if !description.as_str().is_empty() {
                    match self.service.update_todo(todo_id, description.as_str()) {
                        Ok(_) => {
                            self.load_todos(project_id);
                            self.set_status(String::from_str("Todo updated"));
                        },
                        Err(e) => {
                            self.set_status(error_message("Error: ", e));
                        },
                    }
                }
            }
        }
        self.cancel_input();
        Ok(())
    }
}

} // verus!
