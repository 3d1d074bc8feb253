use crate::error::{DocketError, Missing};
use crate::ordering::Direction;
use crate::text::{
    lowercased, pop_char, project_name_fault, push_char, same_text, to_lowercase, todo_description_fault, trim,
    trimmed, valid_project_name, valid_todo_description, without_last,
};
use crate::tui::app::{error_message, App, AppView, InputMode, ViewMode};
use vstd::prelude::*;
use vstd::string::StringExecFns;

verus! {

/// The key of a key press, as far as the interface tells keys apart.
#[derive(Clone, Copy, Debug, PartialEq, Eq, Structural)]
pub enum KeyCode {
    Char(char),
    Enter,
    Esc,
    Backspace,
    Up,
    Down,
    Other,
}

/// A key press: the key, and whether Control and Shift were held.
#[derive(Clone, Copy, Debug, PartialEq, Eq, Structural)]
pub struct KeyEvent {
    pub code: KeyCode,
    pub control: bool,
    pub shift: bool,
}

impl AppView {
    /// The interface is to be left.
    pub open spec fn quit(self) -> AppView {
        AppView { should_quit: true, ..self }
    }

    /// Why the todo `id` cannot be moved, if it cannot.
    pub open spec fn move_fault(self, id: i64) -> Option<DocketError> {
        if !self.store.has_todo(id) {
            Some(DocketError::NotFound(Missing::Todo))
        } else if !self.store.todo(id).is_active() {
            Some(DocketError::InvalidOperation)
        } else {
            None
        }
    }

    /// The selection one entry further in `direction`, if there is one.
    pub open spec fn follow(self, direction: Direction) -> AppView {
        match direction {
            Direction::Down => if self.selected_index + 1 < self.todos.len() {
                AppView { selected_index: (self.selected_index + 1) as usize, ..self }
            } else {
                self
            },
            Direction::Up => if self.selected_index > 0 {
                AppView { selected_index: (self.selected_index - 1) as usize, ..self }
            } else {
                self
            },
        }
    }

    /// In a list of todos, the todo under the selection is moved in
    /// `direction`, and the selection goes with it. A completed todo stays,
    /// and the status line says so.
    pub open spec fn move_selected(self, direction: Direction) -> AppView {
        match (self.view_mode, self.selected_todo()) {
            (ViewMode::TodoList(project_id), Some(todo)) => if !todo.is_active() {
                self.set_status("Cannot reorder completed todos"@)
            } else {
                match self.move_fault(todo.id) {
                    Some(e) => self.set_status("Error moving todo: "@ + e.message_text()),
                    None => self.with_store(self.store.reorder_todo(todo.id, direction)).load_todos(
                        project_id,
                    ).follow(direction),
                }
            },
            _ => self,
        }
    }

    /// The project or the todo under the selection is deleted.
    pub open spec fn delete_selected(self) -> AppView {
        match self.view_mode {
            ViewMode::ProjectList | ViewMode::ArchivedProjects => match self.selected_project() {
                Some(project) => if self.store.has_project(project.id) {
                    self.with_store(self.store.delete_project(project.id)).set_status(
                        "Project deleted"@,
                    ).load_projects()
                } else {
                    self.set_status(
                        "Error deleting project: "@ + DocketError::NotFound(Missing::Project).message_text(),
                    )
                },
                None => self,
            },
            ViewMode::TodoList(project_id) => match self.selected_todo() {
                Some(todo) => if self.store.has_todo(todo.id) {
                    self.with_store(self.store.delete_todo(todo.id)).set_status("Todo deleted"@).load_todos(
                        project_id,
                    )
                } else {
                    self.set_status(
                        "Error deleting todo: "@ + DocketError::NotFound(Missing::Todo).message_text(),
                    )
                },
                None => self,
            },
            ViewMode::Help => self,
        }
    }

    /// Why the todo `id` cannot be toggled, if it cannot.
    pub open spec fn toggle_fault(self, id: i64) -> Option<DocketError> {
        if !self.store.has_todo(id) {
            Some(DocketError::NotFound(Missing::Todo))
        } else if self.store.todo(id).is_completed() && !self.store.has_room_for_position(
            self.store.todo(id).project_id,
        ) {
            Some(DocketError::Exhausted)
        } else {
            None
        }
    }

    /// In a list of todos, the todo under the selection is completed at the
    /// time `now`, or made active again.
    pub open spec fn toggle_selected(self, now: i64) -> AppView {
        match (self.view_mode, self.selected_todo()) {
            (ViewMode::TodoList(project_id), Some(todo)) => match self.toggle_fault(todo.id) {
                Some(e) => self.set_status("Error toggling todo: "@ + e.message_text()),
                None => self.with_store(
                    if self.store.todo(todo.id).is_active() {
                        self.store.complete_todo(todo.id, now)
                    } else {
                        self.store.uncomplete_todo(todo.id)
                    },
                ).load_todos(project_id),
            },
            _ => self,
        }
    }

    /// The project under the selection is archived at the time `now`, or taken
    /// out of the archive where the archive is shown.
    pub open spec fn archive_selected(self, now: i64) -> AppView {
        match (self.view_mode, self.selected_project()) {
            (ViewMode::ProjectList, Some(project)) => if self.store.has_project(project.id) {
                self.with_store(self.store.archive_project(project.id, now)).set_status(
                    "Project archived"@,
                ).load_projects()
            } else {
                self.set_status(
                    "Error archiving project: "@ + DocketError::NotFound(Missing::Project).message_text(),
                )
            },
            (ViewMode::ArchivedProjects, Some(project)) => if self.store.has_project(project.id) {
                self.with_store(self.store.unarchive_project(project.id)).set_status(
                    "Project unarchived"@,
                ).load_projects()
            } else {
                self.set_status(
                    "Error unarchiving project: "@ + DocketError::NotFound(Missing::Project).message_text(),
                )
            },
            _ => self,
        }
    }

    /// What Enter does where keys are commands.
    pub open spec fn normal_enter(self) -> AppView {
        match self.view_mode {
            ViewMode::ProjectList | ViewMode::ArchivedProjects => self.enter_project(),
            ViewMode::TodoList(_) => self.toggle_todo_expand(),
            ViewMode::Help => AppView { view_mode: ViewMode::ProjectList, ..self },
        }
    }

    /// What Escape does where keys are commands.
    pub open spec fn normal_esc(self) -> AppView {
        match self.view_mode {
            ViewMode::TodoList(_) => if self.expanded_todo_id is Some {
                AppView { expanded_todo_id: None, ..self }
            } else {
                self.back_to_projects()
            },
            ViewMode::Help => AppView { view_mode: ViewMode::ProjectList, ..self },
            ViewMode::ArchivedProjects => (AppView { view_mode: ViewMode::ProjectList, ..self }).load_projects(),
            ViewMode::ProjectList => self,
        }
    }

    /// What the character `c` does where keys are commands.
    pub open spec fn normal_char(self, c: char, key: KeyEvent, now: i64) -> AppView {
        if c == 'q' {
            self.quit()
        } else if c == 'c' && key.control {
            self.quit()
        } else if c == 'j' {
            self.next_item()
        } else if c == 'k' {
            self.previous_item()
        } else if c == 'J' {
            if key.shift {
                self.move_selected(Direction::Down)
            } else {
                self
            }
        } else if c == 'K' {
            if key.shift {
                self.move_selected(Direction::Up)
            } else {
                self
            }
        } else if c == 'a' {
            match self.view_mode {
                ViewMode::ProjectList => self.start_add_project(),
                ViewMode::TodoList(_) => self.start_add_todo(),
                _ => self,
            }
        } else if c == 'd' {
            self.delete_selected()
        } else if c == ' ' {
            self.toggle_selected(now)
        } else if c == 'A' {
            self.archive_selected(now)
        } else if c == 'v' {
            self.toggle_archived()
        } else if c == 'c' {
            self.toggle_completed()
        } else if c == 'e' {
            if !self.shows_todos() {
                self
            } else if self.expanded_todo_id is Some {
                self.start_edit_todo_details()
            } else {
                self.start_edit_description()
            }
        } else if c == 'r' {
            match self.view_mode {
                ViewMode::TodoList(_) => self.start_edit_todo(),
                ViewMode::ProjectList | ViewMode::ArchivedProjects => self.start_edit_project_name(),
                ViewMode::Help => self,
            }
        } else if c == '?' {
            self.show_help()
        } else if c == ':' {
            self.start_command_mode()
        } else {
            self
        }
    }

    /// Whether a key fails where keys are commands: Enter on a project that is
    /// gone from the store.
    pub open spec fn normal_key_fails(self, key: KeyEvent) -> bool {
        key.code == KeyCode::Enter && (self.view_mode == ViewMode::ProjectList || self.view_mode
            == ViewMode::ArchivedProjects) && self.enter_project_fails()
    }

    /// What a key does where keys are commands. The status line is cleared
    /// first.
    pub open spec fn normal_key(self, key: KeyEvent, now: i64) -> AppView {
        let app = self.clear_status();
        match key.code {
            KeyCode::Char(c) => app.normal_char(c, key, now),
            KeyCode::Down => app.next_item(),
            KeyCode::Up => app.previous_item(),
            KeyCode::Enter => app.normal_enter(),
            KeyCode::Esc => app.normal_esc(),
            _ => app,
        }
    }

    /// What a key does to the text that is typed: Escape drops it and leaves
    /// the input, a character is added, Backspace takes the last one away.
    /// Enter is not handled here.
    pub open spec fn edit_key(self, key: KeyEvent) -> AppView {
        match key.code {
            KeyCode::Esc => self.cancel_input(),
            KeyCode::Char(c) => AppView { input_buffer: self.input_buffer.push(c), ..self },
            KeyCode::Backspace => AppView { input_buffer: without_last(self.input_buffer), ..self },
            _ => self,
        }
    }

    /// Why no project of the name `name` can be created, if none can.
    pub open spec fn create_project_fault(self, name: Seq<char>) -> Option<DocketError> {
        if !valid_project_name(name) {
            Some(project_name_fault(name))
        } else if !self.store.has_room_for_project() {
            Some(DocketError::Exhausted)
        } else {
            None
        }
    }

    /// What was typed becomes the name of a new project, created at the time
    /// `now`, if something was typed; the status line says how it went.
    pub open spec fn submit_project(self, now: i64) -> AppView {
        let name = trimmed(self.input_buffer);
        if name.len() > 0 {
            match self.create_project_fault(name) {
                Some(e) => self.set_status("Error: "@ + e.message_text()),
                None => self.with_store(self.store.create_project(trimmed(name), None, now)).set_status(
                    "Project '"@ + name + "' created"@,
                ).load_projects(),
            }
        } else {
            self
        }.cancel_input()
    }

    /// Why no todo of the description `description` can be created in the
    /// project, if none can.
    pub open spec fn create_todo_fault(self, project_id: i64, description: Seq<char>) -> Option<DocketError> {
        if !valid_todo_description(description) {
            Some(todo_description_fault(description))
        } else if !self.store.has_project(project_id) {
            Some(DocketError::NotFound(Missing::Project))
        } else if !self.store.has_room_for_todo(project_id) {
            Some(DocketError::Exhausted)
        } else {
            None
        }
    }

    /// In a list of todos, what was typed becomes the description of a new
    /// todo of the project, created at the time `now`, if something was typed;
    /// the status line says how it went.
    pub open spec fn submit_todo(self, now: i64) -> AppView {
        let description = trimmed(self.input_buffer);
        match self.view_mode {
            ViewMode::TodoList(project_id) if description.len() > 0 => match self.create_todo_fault(
                project_id,
                description,
            ) {
                Some(e) => self.set_status("Error: "@ + e.message_text()),
                None => self.with_store(
                    self.store.create_todo(project_id, trimmed(description), now),
                ).set_status("Todo created"@).load_todos(project_id),
            },
            _ => self,
        }.cancel_input()
    }

    /// What `save` leaves where it went well, and else the failure in the
    /// status line and the input dropped.
    pub open spec fn saved_or_failed(self, saved: AppView, failure: Option<DocketError>) -> AppView {
        match failure {
            Some(e) => self.set_status("Error: "@ + e.message_text()).cancel_input(),
            None => saved,
        }
    }

    /// What Enter does where the description of the project is edited.
    pub open spec fn submit_description(self) -> AppView {
        self.saved_or_failed(
            self.save_description(),
            if self.save_description_fails() {
                Some(DocketError::NotFound(Missing::Project))
            } else {
                None
            },
        )
    }

    /// What Enter does where the details of a todo are edited.
    pub open spec fn submit_todo_details(self) -> AppView {
        self.saved_or_failed(
            self.save_todo_details(),
            if self.save_todo_details_fails() {
                Some(DocketError::NotFound(Missing::Todo))
            } else {
                None
            },
        )
    }

    /// What the command `command` does: `q` and `quit` leave the interface,
    /// `help` shows the help, and anything else is not known. The input ends.
    pub open spec fn run_command(self, command: Seq<char>) -> AppView {
        if command == "q"@ || command == "quit"@ {
            self.quit()
        } else if command == "help"@ {
            self.show_help()
        } else {
            self.set_status("Unknown command: "@ + command)
        }.cancel_input()
    }

    /// What a key does where text is typed in the mode of the input.
    pub open spec fn input_key(self, key: KeyEvent, now: i64) -> AppView {
        if key.code == KeyCode::Enter {
            match self.input_mode {
                InputMode::Normal => self.normal_key(key, now),
                InputMode::AddProject => self.submit_project(now),
                InputMode::AddTodo => self.submit_todo(now),
                InputMode::EditDescription => self.submit_description(),
                InputMode::EditTodoDetails => self.submit_todo_details(),
                InputMode::EditTodo => self.save_todo(),
                InputMode::EditProjectName => self.save_project_name(),
                InputMode::Command => self.run_command(lowercased(trimmed(self.input_buffer))),
            }
        } else if self.input_mode == InputMode::Normal {
            self.normal_key(key, now)
        } else {
            self.edit_key(key)
        }
    }
}

/// `prefix`, `text` and `suffix` in a row.
fn framed(prefix: &str, text: &str, suffix: &str) -> (r: String)
    ensures
        r@ == prefix@ + text@ + suffix@,
{
    String::from_str(prefix).concat(text).concat(suffix)
}

/// Moves the todo under the selection in `direction`, in a list of todos.
pub fn move_selected(app: &mut App, direction: Direction)
    ensures
        final(app)@ == old(app)@.move_selected(direction),
{
    if let ViewMode::TodoList(project_id) = app.view_mode {
        if app.selected_index < app.todos.len() {
            let todo_id = app.todos[app.selected_index].id;
            if app.todos[app.selected_index].can_reorder() {
                let moved = match direction {
                    Direction::Up => app.service.move_todo_up(todo_id),
                    Direction::Down => app.service.move_todo_down(todo_id),
                };
                match moved {
                    Err(e) => {
                        app.set_status(error_message("Error moving todo: ", e));
                    },
                    Ok(_) => {
                        app.load_todos(project_id);
                        match direction {
                            Direction::Down => {
                                if app.todos.len() > 0 && app.selected_index < app.todos.len() - 1 {
                                    app.selected_index += 1;
                                }
                            },
                            Direction::Up => {
                                if app.selected_index > 0 {
                                    app.selected_index -= 1;
                                }
                            },
                        }
                    },
                }
            } else {
                app.set_status(String::from_str("Cannot reorder completed todos"));
            }
        }
    }
}

/// Deletes the project or the todo under the selection.
pub fn delete_selected(app: &mut App)
    ensures
        final(app)@ == old(app)@.delete_selected(),
{
    match app.view_mode {
        ViewMode::ProjectList | ViewMode::ArchivedProjects => {
            if app.selected_index < app.projects.len() {
                let project_id = app.projects[app.selected_index].project.id;
                match app.service.delete_project(project_id) {
                    Err(e) => {
                        app.set_status(error_message("Error deleting project: ", e));
                    },
                    Ok(_) => {
                        app.set_status(String::from_str("Project deleted"));
                        app.load_projects();
                    },
                }
            }
        },
        ViewMode::TodoList(project_id) => {
            if app.selected_index < app.todos.len() {
                let todo_id = app.todos[app.selected_index].id;
                match app.service.delete_todo(todo_id) {
                    Err(e) => {
                        app.set_status(error_message("Error deleting todo: ", e));
                    },
                    Ok(_) => {
                        app.set_status(String::from_str("Todo deleted"));
                        app.load_todos(project_id);
                    },
                }
            }
        },
        ViewMode::Help => {},
    }
}

/// Completes the todo under the selection at the time `now`, or makes it
/// active again, in a list of todos.
pub fn toggle_selected(app: &mut App, now: i64)
    ensures
        final(app)@ == old(app)@.toggle_selected(now),
{
    if let ViewMode::TodoList(project_id) = app.view_mode {
        if app.selected_index < app.todos.len() {
            let todo_id = app.todos[app.selected_index].id;
            match app.service.toggle_todo(todo_id, now) {
                Err(e) => {
                    app.set_status(error_message("Error toggling todo: ", e));
                },
                Ok(_) => {
                    app.load_todos(project_id);
                },
            }
        }
    }
}

/// Archives the project under the selection at the time `now`, or takes it
/// out of the archive where the archive is shown.
pub fn archive_selected(app: &mut App, now: i64)
    ensures
        final(app)@ == old(app)@.archive_selected(now),
{
    match app.view_mode {
        ViewMode::ProjectList => {
            if app.selected_index < app.projects.len() {
                let project_id = app.projects[app.selected_index].project.id;
                match app.service.archive_project(project_id, now) {
                    Err(e) => {
                        app.set_status(error_message("Error archiving project: ", e));
                    },
                    Ok(_) => {
                        app.set_status(String::from_str("Project archived"));
                        app.load_projects();
                    },
                }
            }
        },
        ViewMode::ArchivedProjects => {
            if app.selected_index < app.projects.len() {
                let project_id = app.projects[app.selected_index].project.id;
                match app.service.unarchive_project(project_id) {
                    Err(e) => {
                        app.set_status(error_message("Error unarchiving project: ", e));
                    },
                    Ok(_) => {
                        app.set_status(String::from_str("Project unarchived"));
                        app.load_projects();
                    },
                }
            }
        },
        _ => {},
    }
}

/// Handles a key where keys are commands. It fails where Enter is pressed on
/// a project that is gone from the store.
pub fn handle_normal_mode(app: &mut App, key: KeyEvent, now: i64) -> (r: Result<(), DocketError>)
    ensures
        final(app)@ == old(app)@.normal_key(key, now),
        r == if old(app)@.normal_key_fails(key) {
            Err::<(), DocketError>(DocketError::NotFound(Missing::Project))
        } else {
            Ok(())
        },
{
    app.clear_status();
    match key.code {
        KeyCode::Char(c) => {
            if c == 'q' {
                app.should_quit = true;
            } else if c == 'c' && key.control {
                app.should_quit = true;
            } else if c == 'j' {
                app.next_item();
            } else if c == 'k' {
                app.previous_item();
            } else if c == 'J' {
                if key.shift {
                    move_selected(app, Direction::Down);
                }
            } else if c == 'K' {
                if key.shift {
                    move_selected(app, Direction::Up);
                }
            } else if c == 'a' {
                match app.view_mode {
                    ViewMode::ProjectList => app.start_add_project(),
                    ViewMode::TodoList(_) => app.start_add_todo(),
                    _ => {},
                }
            } else if c == 'd' {
                delete_selected(app);
            } else if c == ' ' {
                toggle_selected(app, now);
            } else if c == 'A' {
                archive_selected(app, now);
            } else if c == 'v' {
                app.toggle_archived();
            } else if c == 'c' {
                app.toggle_completed();
            } else if c == 'e' {
                if let ViewMode::TodoList(_) = app.view_mode {
                    if app.expanded_todo_id.is_some() {
                        app.start_edit_todo_details();
                    } else {
                        app.start_edit_description();
                    }
                }
            } else if c == 'r' {
                match app.view_mode {
                    ViewMode::TodoList(_) => app.start_edit_todo(),
                    ViewMode::ProjectList | ViewMode::ArchivedProjects => app.start_edit_project_name(),
                    ViewMode::Help => {},
                }
            } else if c == '?' {
                app.show_help();
            } else if c == ':' {
                app.start_command_mode();
            }
            Ok(())
        },
        KeyCode::Down => {
            app.next_item();
            Ok(())
        },
        KeyCode::Up => {
            app.previous_item();
            Ok(())
        },
        KeyCode::Enter => match app.view_mode {
            ViewMode::ProjectList | ViewMode::ArchivedProjects => app.enter_project(),
            ViewMode::TodoList(_) => {
                app.toggle_todo_expand();
                Ok(())
            },
            ViewMode::Help => {
                app.view_mode = ViewMode::ProjectList;
                Ok(())
            },
        },
        KeyCode::Esc => {
            match app.view_mode {
                ViewMode::TodoList(_) => {
                    if app.expanded_todo_id.is_some() {
                        app.expanded_todo_id = None;
                    } else {
                        app.back_to_projects();
                    }
                },
                ViewMode::Help => {
                    app.view_mode = ViewMode::ProjectList;
                },
                ViewMode::ArchivedProjects => {
                    app.view_mode = ViewMode::ProjectList;
                    app.load_projects();
                },
                ViewMode::ProjectList => {},
            }
            Ok(())
        },
        _ => Ok(()),
    }
}

/// Handles a key, other than Enter, where text is typed.
pub fn edit_key(app: &mut App, key: KeyEvent)
    ensures
        final(app)@ == old(app)@.edit_key(key),
{
    match key.code {
        KeyCode::Esc => app.cancel_input(),
        KeyCode::Char(c) => {
            push_char(&mut app.input_buffer, c);
        },
        KeyCode::Backspace => {
            let _ = pop_char(&mut app.input_buffer);
        },
        _ => {},
    }
}

/// Handles a key where the name of a new project is typed.
pub fn handle_add_project_mode(app: &mut App, key: KeyEvent, now: i64) -> (r: Result<(), DocketError>)
    ensures
        final(app)@ == if key.code == KeyCode::Enter {
            old(app)@.submit_project(now)
        } else {
            old(app)@.edit_key(key)
        },
        r == Ok::<(), DocketError>(()),
{
    match key.code {
        KeyCode::Enter => {
            let name = trim(app.input_buffer.as_str()).to_owned();
            if !name.as_str().is_empty() {
                match app.service.create_project(name.as_str(), now) {
                    Ok(_) => {
                        app.set_status(framed("Project '", name.as_str(), "' created"));
                        app.load_projects();
                    },
                    Err(e) => {
                        app.set_status(error_message("Error: ", e));
                    },
                }
            }
            app.cancel_input();
        },
        _ => edit_key(app, key),
    }
    Ok(())
}

/// Handles a key where the description of a new todo is typed.
pub fn handle_add_todo_mode(app: &mut App, key: KeyEvent, now: i64) -> (r: Result<(), DocketError>)
    ensures
        final(app)@ == if key.code == KeyCode::Enter {
            old(app)@.submit_todo(now)
        } else {
            old(app)@.edit_key(key)
        },
        r == Ok::<(), DocketError>(()),
{
    match key.code {
        KeyCode::Enter => {
            if let ViewMode::TodoList(project_id) = app.view_mode {
                let description = trim(app.input_buffer.as_str()).to_owned();
                if !description.as_str().is_empty() {
                    match app.service.create_todo(project_id, description.as_str(), now) {
                        Ok(_) => {
                            app.set_status(String::from_str("Todo created"));
                            app.load_todos(project_id);
                        },
                        Err(e) => {
                            app.set_status(error_message("Error: ", e));
                        },
                    }
                }
            }
            app.cancel_input();
        },
        _ => edit_key(app, key),
    }
    Ok(())
}

/// Handles a key where the description of the project is edited.
pub fn handle_edit_description_mode(app: &mut App, key: KeyEvent) -> (r: Result<(), DocketError>)
    ensures
        final(app)@ == if key.code == KeyCode::Enter {
            old(app)@.submit_description()
        } else {
            old(app)@.edit_key(key)
        },
        r == Ok::<(), DocketError>(()),
{
    match key.code {
        KeyCode::Enter => {
            if let Err(e) = app.save_description() {
                app.set_status(error_message("Error: ", e));
                app.cancel_input();
            }
        },
        _ => edit_key(app, key),
    }
    Ok(())
}

/// Handles a key where the details of a todo are edited.
pub fn handle_edit_todo_details_mode(app: &mut App, key: KeyEvent) -> (r: Result<(), DocketError>)
    ensures
        final(app)@ == if key.code == KeyCode::Enter {
            old(app)@.submit_todo_details()
        } else {
            old(app)@.edit_key(key)
        },
        r == Ok::<(), DocketError>(()),
{
    match key.code {
        KeyCode::Enter => {
            if let Err(e) = app.save_todo_details() {
                app.set_status(error_message("Error: ", e));
                app.cancel_input();
            }
        },
        _ => edit_key(app, key),
    }
    Ok(())
}

/// Handles a key where the description of a todo is edited.
pub fn handle_edit_todo_mode(app: &mut App, key: KeyEvent) -> (r: Result<(), DocketError>)
    ensures
        final(app)@ == if key.code == KeyCode::Enter {
            old(app)@.save_todo()
        } else {
            old(app)@.edit_key(key)
        },
        r == Ok::<(), DocketError>(()),
{
    match key.code {
        KeyCode::Enter => {
            if let Err(e) = app.save_todo() {
                app.set_status(error_message("Error: ", e));
                app.cancel_input();
            }
        },
        _ => edit_key(app, key),
    }
    Ok(())
}

/// Handles a key where the name of a project is edited.
pub fn handle_edit_project_name_mode(app: &mut App, key: KeyEvent) -> (r: Result<(), DocketError>)
    ensures
        final(app)@ == if key.code == KeyCode::Enter {
            old(app)@.save_project_name()
        } else {
            old(app)@.edit_key(key)
        },
        r == Ok::<(), DocketError>(()),
{
    match key.code {
        KeyCode::Enter => {
            if let Err(e) = app.save_project_name() {
                app.set_status(error_message("Error: ", e));
                app.cancel_input();
            }
        },
        _ => edit_key(app, key),
    }
    Ok(())
}

/// Runs the command `command`, which is in lower case and without white space
/// at its ends, and ends the input.
pub fn run_command(app: &mut App, command: &str)
    ensures
        final(app)@ == old(app)@.run_command(command@),
{
    if same_text(command, "q") || same_text(command, "quit") {
        app.should_quit = true;
    } else if same_text(command, "help") {
        app.show_help();
    } else {
        app.set_status(String::from_str("Unknown command: ").concat(command));
    }
    app.cancel_input();
}

/// Handles a key where a command is typed. What was typed is run in lower
/// case and without the white space at its ends.
pub fn handle_command_mode(app: &mut App, key: KeyEvent) -> (r: Result<(), DocketError>)
    ensures
        final(app)@ == if key.code == KeyCode::Enter {
            old(app)@.run_command(lowercased(trimmed(old(app)@.input_buffer)))
        } else {
            old(app)@.edit_key(key)
        },
        r == Ok::<(), DocketError>(()),
{
    match key.code {
        KeyCode::Enter => {
            let command = to_lowercase(trim(app.input_buffer.as_str()));
            run_command(app, command.as_str());
        },
        _ => edit_key(app, key),
    }
    Ok(())
}

/// Handles a key press at the time `now`, as the mode of the input takes it.
/// It fails where Enter is pressed on a project that is gone from the store.
pub fn handle_input(app: &mut App, key: KeyEvent, now: i64) -> (r: Result<(), DocketError>)
    ensures
        final(app)@ == old(app)@.input_key(key, now),
        r == if old(app)@.input_mode == InputMode::Normal && old(app)@.normal_key_fails(key) {
            Err::<(), DocketError>(DocketError::NotFound(Missing::Project))
        } else {
            Ok(())
        },
{
    match app.input_mode {
        InputMode::Normal => handle_normal_mode(app, key, now),
        InputMode::AddProject => handle_add_project_mode(app, key, now),
        InputMode::AddTodo => handle_add_todo_mode(app, key, now),
        InputMode::EditDescription => handle_edit_description_mode(app, key),
        InputMode::EditTodoDetails => handle_edit_todo_details_mode(app, key),
        InputMode::EditTodo => handle_edit_todo_mode(app, key),
        InputMode::EditProjectName => handle_edit_project_name_mode(app, key),
        InputMode::Command => handle_command_mode(app, key),
    }
}

} // verus!
