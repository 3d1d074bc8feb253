use crate::models::{Project, ProjectView, Todo, TodoView};
use crate::tui::app::{text_or_empty, App, AppView, InputMode, ViewMode};
use vstd::prelude::*;
use vstd::string::StringExecFns;

verus! {

/// The colour in which the line at the foot of the screen is written.
#[derive(Clone, Copy, Debug, PartialEq, Eq, Structural)]
pub enum Tone {
    /// Text is being typed.
    Green,
    /// A message, or a command that is being typed.
    Yellow,
    /// The keys that can be pressed.
    DarkGray,
}

/// How a row of a list is drawn.
#[derive(Clone, Copy, Debug, PartialEq, Eq, Structural)]
pub enum RowShade {
    /// The row under the selection.
    Selected,
    /// A completed todo.
    Completed,
    Plain,
}

/// The line at the foot of the screen.
pub struct Footer {
    pub content: String,
    pub tone: Tone,
}

/// The window that lies over the screen while a text is edited.
pub struct Modal {
    pub title: String,
    pub content: String,
    /// The share of the screen that the window takes in height, in percent.
    pub height: u16,
}

/// The keys of a list of projects.
pub open spec fn project_list_hints() -> Seq<char> {
    "j/k: navigate | Enter: open | a: add | d: delete | r: rename | A: archive | v: toggle archived | ?: help | q: quit"@
}

/// The keys of a list of todos.
pub open spec fn todo_list_hints() -> Seq<char> {
    "j/k: navigate | Enter: expand | Space: toggle | a: add | d: delete | r: rename | e: edit desc | Esc: back"@
}

/// The keys of a list of todos of which one is expanded.
pub open spec fn expanded_todo_hints() -> Seq<char> {
    "Enter/Esc: collapse | e: edit details | Space: toggle | d: delete"@
}

/// The keys of the archive.
pub open spec fn archive_hints() -> Seq<char> {
    "j/k: navigate | Enter: open | d: delete | A: unarchive | v: back to active | ?: help | q: quit"@
}

/// What stands under the text in a window.
pub open spec fn modal_keys() -> Seq<char> {
    "\n\n[Enter] Save  [Esc] Cancel"@
}

impl AppView {
    /// The title at the head of the screen.
    pub open spec fn header_title(self) -> Seq<char> {
        match self.view_mode {
            ViewMode::ProjectList => "Docket - Projects"@,
            ViewMode::TodoList(_) => match self.current_project {
                Some(project) => "Docket - "@ + project.name,
                None => "Docket - Todos"@,
            },
            ViewMode::ArchivedProjects => "Docket - Archived Projects"@,
            ViewMode::Help => "Docket - Help"@,
        }
    }

    /// The keys that can be pressed in what is shown.
    pub open spec fn hints(self) -> Seq<char> {
        match self.view_mode {
            ViewMode::ProjectList => project_list_hints(),
            ViewMode::TodoList(_) => if self.expanded_todo_id is Some {
                expanded_todo_hints()
            } else {
                todo_list_hints()
            },
            ViewMode::ArchivedProjects => archive_hints(),
            ViewMode::Help => "Press Esc or Enter to close help"@,
        }
    }

    /// The text of the line at the foot of the screen: the message or the keys
    /// where keys are commands, else what is typed.
    pub open spec fn footer_content(self) -> Seq<char> {
        match self.input_mode {
            InputMode::Normal => match self.status_message {
                Some(message) => message,
                None => self.hints(),
            },
            InputMode::AddProject => "Add Project: "@ + self.input_buffer,
            InputMode::AddTodo => "Add Todo: "@ + self.input_buffer,
            InputMode::EditDescription => "Editing description... (Enter to save, Esc to cancel)"@,
            InputMode::EditTodoDetails => "Editing details... (Enter to save, Esc to cancel)"@,
            InputMode::EditTodo => "Edit Todo: "@ + self.input_buffer,
            InputMode::EditProjectName => "Edit Project Name: "@ + self.input_buffer,
            InputMode::Command => ":"@ + self.input_buffer,
        }
    }

    /// The colour of the line at the foot of the screen.
    pub open spec fn footer_tone(self) -> Tone {
        match self.input_mode {
            InputMode::Normal => if self.status_message is Some {
                Tone::Yellow
            } else {
                Tone::DarkGray
            },
            InputMode::Command => Tone::Yellow,
            _ => Tone::Green,
        }
    }

    /// Whether a window lies over the screen.
    pub open spec fn has_modal(self) -> bool {
        self.input_mode == InputMode::EditDescription || self.input_mode == InputMode::EditTodoDetails
            || self.input_mode == InputMode::EditTodo || self.input_mode == InputMode::EditProjectName
    }

    /// The title of the window.
    pub open spec fn modal_title(self) -> Seq<char> {
        match self.input_mode {
            InputMode::EditDescription => "Edit Project Description"@,
            InputMode::EditTodoDetails => "Edit Todo Details"@,
            InputMode::EditTodo => "Edit Todo Description"@,
            _ => "Edit Project Name"@,
        }
    }

    /// What the window shows in place of an empty text.
    pub open spec fn modal_placeholder(self) -> Seq<char> {
        match self.input_mode {
            InputMode::EditDescription => "(empty - press Enter to clear description)"@,
            InputMode::EditTodoDetails => "(empty - press Enter to clear details)"@,
            _ => "(empty)"@,
        }
    }

    /// The text of the window: what is typed, and the keys under it.
    pub open spec fn modal_content(self) -> Seq<char> {
        if self.input_buffer.len() == 0 {
            self.modal_placeholder() + modal_keys()
        } else {
            self.input_buffer + modal_keys()
        }
    }

    /// The height of the window in percent of the screen: 30 for texts of
    /// several lines, 10 for those of one line.
    pub open spec fn modal_height(self) -> u16 {
        match self.input_mode {
            InputMode::EditDescription | InputMode::EditTodoDetails => 30,
            _ => 10,
        }
    }

    /// Whether the description of the project is shown above its todos.
    pub open spec fn shows_description(self) -> bool {
        self.current_project matches Some(project) && text_or_empty(project.description).len() > 0
    }

    /// How the row `row` of a list of todos is drawn.
    pub open spec fn todo_shade(self, row: int) -> RowShade {
        if row == self.selected_index {
            RowShade::Selected
        } else if self.todos[row].is_completed() {
            RowShade::Completed
        } else {
            RowShade::Plain
        }
    }

    /// The mark in front of the todo at `row`: a tick for a completed todo,
    /// a triangle for the expanded one, else a blank.
    pub open spec fn todo_mark(self, row: int) -> Seq<char> {
        if self.todos[row].is_completed() {
            "✓"@
        } else if self.expanded_todo_id == Some(self.todos[row].id) {
            "▼"@
        } else {
            " "@
        }
    }
}

impl ProjectView {
    /// The name of the project in a list, with a mark on an archived one.
    pub open spec fn label(self) -> Seq<char> {
        if self.is_archived() {
            self.name + " [ARCHIVED]"@
        } else {
            self.name
        }
    }
}

impl TodoView {
    /// The head of the details of the todo.
    pub open spec fn details_heading(self) -> Seq<char> {
        "Details for: "@ + self.description
    }

    /// The details of the todo, or a hint where it has none.
    pub open spec fn details_text(self) -> Seq<char> {
        match self.details {
            Some(details) => details,
            None => "[no details - press 'e' to add]"@,
        }
    }
}

/// `prefix` followed by `text`.
fn prefixed(prefix: &str, text: &str) -> (r: String)
    ensures
        r@ == prefix@ + text@,
{
    String::from_str(prefix).concat(text)
}

/// The title at the head of the screen.
pub fn header_title(app: &App) -> (title: String)
    ensures
        title@ == app@.header_title(),
{
    match app.view_mode {
        ViewMode::ProjectList => String::from_str("Docket - Projects"),
        ViewMode::TodoList(_) => match &app.current_project {
            Some(project) => prefixed("Docket - ", project.name.as_str()),
            None => String::from_str("Docket - Todos"),
        },
        ViewMode::ArchivedProjects => String::from_str("Docket - Archived Projects"),
        ViewMode::Help => String::from_str("Docket - Help"),
    }
}

/// The keys that can be pressed in what is shown.
pub fn hints(app: &App) -> (text: &'static str)
    ensures
        text@ == app@.hints(),
{
    match app.view_mode {
        ViewMode::ProjectList => {
            "j/k: navigate | Enter: open | a: add | d: delete | r: rename | A: archive | v: toggle archived | ?: help | q: quit"
        },
        ViewMode::TodoList(_) => {
            if app.expanded_todo_id.is_some() {
                "Enter/Esc: collapse | e: edit details | Space: toggle | d: delete"
            } else {
                "j/k: navigate | Enter: expand | Space: toggle | a: add | d: delete | r: rename | e: edit desc | Esc: back"
            }
        },
        ViewMode::ArchivedProjects => {
            "j/k: navigate | Enter: open | d: delete | A: unarchive | v: back to active | ?: help | q: quit"
        },
        ViewMode::Help => "Press Esc or Enter to close help",
    }
}

/// The line at the foot of the screen.
pub fn footer(app: &App) -> (line: Footer)
    ensures
        line.content@ == app@.footer_content(),
        line.tone == app@.footer_tone(),
{
    let typed = app.input_buffer.as_str();
    match app.input_mode {
        InputMode::Normal => match &app.status_message {
            Some(message) => Footer { content: message.clone(), tone: Tone::Yellow },
            None => Footer { content: String::from_str(hints(app)), tone: Tone::DarkGray },
        },
        InputMode::AddProject => Footer { content: prefixed("Add Project: ", typed), tone: Tone::Green },
        InputMode::AddTodo => Footer { content: prefixed("Add Todo: ", typed), tone: Tone::Green },
        InputMode::EditDescription => Footer {
            content: String::from_str("Editing description... (Enter to save, Esc to cancel)"),
            tone: Tone::Green,
        },
        InputMode::EditTodoDetails => Footer {
            content: String::from_str("Editing details... (Enter to save, Esc to cancel)"),
            tone: Tone::Green,
        },
        InputMode::EditTodo => Footer { content: prefixed("Edit Todo: ", typed), tone: Tone::Green },
        InputMode::EditProjectName => Footer { content: prefixed("Edit Project Name: ", typed), tone: Tone::Green },
        InputMode::Command => Footer { content: prefixed(":", typed), tone: Tone::Yellow },
    }
}

/// The window that lies over the screen, while a text is edited in one.
pub fn modal(app: &App) -> (r: Option<Modal>)
    ensures
        r is Some == app@.has_modal(),
        r matches Some(window) ==> {
            &&& window.title@ == app@.modal_title()
            &&& window.content@ == app@.modal_content()
            &&& window.height == app@.modal_height()
        },
{
    let (title, placeholder, height): (&str, &str, u16) = match app.input_mode {
        InputMode::EditDescription => (
            "Edit Project Description",
            "(empty - press Enter to clear description)",
            30,
        ),
        InputMode::EditTodoDetails => ("Edit Todo Details", "(empty - press Enter to clear details)", 30),
        InputMode::EditTodo => ("Edit Todo Description", "(empty)", 10),
        InputMode::EditProjectName => ("Edit Project Name", "(empty)", 10),
        _ => {
            return None;
        },
    };
    let text = if app.input_buffer.as_str().is_empty() {
        placeholder
    } else {
        app.input_buffer.as_str()
    };
    Some(
        Modal {
            title: String::from_str(title),
            content: String::from_str(text).concat("\n\n[Enter] Save  [Esc] Cancel"),
            height,
        },
    )
}

/// Whether the description of the project is shown above its todos.
pub fn shows_description(app: &App) -> (b: bool)
    ensures
        b == app@.shows_description(),
{
    match &app.current_project {
        Some(project) => match &project.description {
            Some(description) => !description.as_str().is_empty(),
            None => false,
        },
        None => false,
    }
}

/// How the row `row` of the list of todos is drawn.
pub fn todo_shade(app: &App, row: usize) -> (shade: RowShade)
    requires
        row < app.todos.len(),
    ensures
        shade == app@.todo_shade(row as int),
{
    if row == app.selected_index {
        RowShade::Selected
    } else if app.todos[row].is_completed() {
        RowShade::Completed
    } else {
        RowShade::Plain
    }
}

/// The mark in front of the todo at `row`.
pub fn todo_mark(app: &App, row: usize) -> (mark: &'static str)
    requires
        row < app.todos.len(),
    ensures
        mark@ == app@.todo_mark(row as int),
{
    let todo = &app.todos[row];
    let expanded = match app.expanded_todo_id {
        Some(id) => id == todo.id,
        None => false,
    };
    if todo.is_completed() {
        "✓"
    } else if expanded {
        "▼"
    } else {
        " "
    }
}

/// The name of a project in a list, with a mark on an archived one.
pub fn project_label(project: &Project) -> (label: String)
    ensures
        label@ == project@.label(),
{
    if project.is_archived() {
        project.name.clone().concat(" [ARCHIVED]")
    } else {
        project.name.clone()
    }
}

/// The head of the details of a todo.
pub fn details_heading(todo: &Todo) -> (heading: String)
    ensures
        heading@ == todo@.details_heading(),
{
    prefixed("Details for: ", todo.description.as_str())
}

/// The details of a todo, or a hint where it has none.
pub fn details_text(todo: &Todo) -> (text: String)
    ensures
        text@ == todo@.details_text(),
{
    match &todo.details {
        Some(details) => details.clone(),
        None => String::from_str("[no details - press 'e' to add]"),
    }
}

} // verus!
