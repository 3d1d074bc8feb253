use docket::db::Database;
use docket::error::{DocketError, Missing};
use docket::ordering::Direction;
use docket::service::DocketService;
use docket::tui::app::{error_message, App, InputMode, ViewMode};
use docket::tui::view::{
    details_heading, details_text, footer, header_title, hints, modal, project_label, shows_description, todo_mark,
    todo_shade, RowShade, Tone,
};
use docket::tui::input::{
    archive_selected, delete_selected, edit_key, handle_input, handle_normal_mode, move_selected, run_command,
    toggle_selected, KeyCode, KeyEvent,
};

fn key(code: KeyCode) -> KeyEvent {
    KeyEvent { code, control: false, shift: false }
}

fn ch(c: char) -> KeyEvent {
    key(KeyCode::Char(c))
}

fn shifted(c: char) -> KeyEvent {
    KeyEvent { code: KeyCode::Char(c), control: false, shift: true }
}

fn type_text(app: &mut App, text: &str) {
    for c in text.chars() {
        handle_input(app, ch(c), 0).unwrap();
    }
}

/// An interface on a store with the project "Home" and the todos a, b, c.
fn app_with_todos() -> App {
    let mut service = DocketService::new(Database::new());
    let project = service.create_project("Home", 10).unwrap();
    service.create_todo(project.id, "a", 1).unwrap();
    service.create_todo(project.id, "b", 2).unwrap();
    service.create_todo(project.id, "c", 3).unwrap();
    let mut app = App::new(service);
    app.init();
    app
}

fn descriptions(app: &App) -> Vec<String> {
    app.todos.iter().map(|t| t.description.clone()).collect()
}

#[test]
fn the_interface_starts_with_the_projects() {
    let app = app_with_todos();
    assert_eq!(app.view_mode, ViewMode::ProjectList);
    assert_eq!(app.input_mode, InputMode::Normal);
    assert_eq!(app.projects.len(), 1);
    assert_eq!(app.projects[0].total_todos, 3);
    assert_eq!(app.selected_index, 0);
    assert!(app.show_completed);
    assert!(!app.should_quit);
    assert_eq!(app.status_message, None);
    assert_eq!(app.expanded_todo_id, None);
    assert!(app.todos.is_empty());
}

#[test]
fn enter_opens_the_project_and_escape_goes_back() {
    let mut app = app_with_todos();
    handle_input(&mut app, key(KeyCode::Enter), 0).unwrap();
    assert_eq!(app.view_mode, ViewMode::TodoList(1));
    assert_eq!(app.current_project.as_ref().unwrap().name, "Home");
    assert_eq!(descriptions(&app), vec!["a", "b", "c"]);
    handle_input(&mut app, key(KeyCode::Esc), 0).unwrap();
    assert_eq!(app.view_mode, ViewMode::ProjectList);
    assert_eq!(app.current_project, None);
}

#[test]
fn entering_a_project_that_is_gone_fails() {
    let mut app = app_with_todos();
    app.service.delete_project(1).unwrap();
    assert_eq!(
        handle_input(&mut app, key(KeyCode::Enter), 0),
        Err(DocketError::NotFound(Missing::Project))
    );
    assert_eq!(app.view_mode, ViewMode::ProjectList);
    assert_eq!(app.enter_project(), Err(DocketError::NotFound(Missing::Project)));
}

#[test]
fn the_selection_stays_within_the_list() {
    let mut app = app_with_todos();
    app.enter_project().unwrap();
    handle_input(&mut app, ch('k'), 0).unwrap();
    assert_eq!(app.selected_index, 0);
    handle_input(&mut app, ch('j'), 0).unwrap();
    handle_input(&mut app, key(KeyCode::Down), 0).unwrap();
    assert_eq!(app.selected_index, 2);
    handle_input(&mut app, ch('j'), 0).unwrap();
    assert_eq!(app.selected_index, 2);
    handle_input(&mut app, key(KeyCode::Up), 0).unwrap();
    assert_eq!(app.selected_index, 1);
    assert_eq!(app.list_len(), 3);
}

#[test]
fn shift_j_moves_the_todo_down_and_follows_it() {
    let mut app = app_with_todos();
    app.enter_project().unwrap();
    handle_input(&mut app, shifted('J'), 0).unwrap();
    assert_eq!(descriptions(&app), vec!["b", "a", "c"]);
    assert_eq!(app.selected_index, 1);
    handle_input(&mut app, shifted('K'), 0).unwrap();
    assert_eq!(descriptions(&app), vec!["a", "b", "c"]);
    assert_eq!(app.selected_index, 0);
    // without Shift the key does nothing
    handle_input(&mut app, ch('J'), 0).unwrap();
    assert_eq!(descriptions(&app), vec!["a", "b", "c"]);
    assert_eq!(app.selected_index, 0);
}

#[test]
fn a_completed_todo_is_not_moved() {
    let mut app = app_with_todos();
    app.enter_project().unwrap();
    handle_input(&mut app, ch(' '), 500).unwrap();
    assert_eq!(descriptions(&app), vec!["b", "c", "a"]);
    assert_eq!(app.todos[2].completed_at, Some(500));
    app.selected_index = 2;
    move_selected(&mut app, Direction::Up);
    assert_eq!(app.status_message, Some("Cannot reorder completed todos".to_string()));
    assert_eq!(descriptions(&app), vec!["b", "c", "a"]);
    // a key clears the status line before it acts
    handle_input(&mut app, key(KeyCode::Other), 0).unwrap();
    assert_eq!(app.status_message, None);
}

#[test]
fn the_store_is_asked_even_where_the_list_is_stale() {
    let mut app = app_with_todos();
    app.enter_project().unwrap();
    let first = app.todos[0].id;
    app.service.toggle_todo(first, 9).unwrap();
    move_selected(&mut app, Direction::Down);
    assert_eq!(app.status_message, Some("Error moving todo: cannot reorder completed items".to_string()));
    app.service.delete_todo(first).unwrap();
    move_selected(&mut app, Direction::Down);
    assert_eq!(app.status_message, Some("Error moving todo: Failed to get todo".to_string()));
    toggle_selected(&mut app, 1);
    assert_eq!(app.status_message, Some("Error toggling todo: Failed to get todo".to_string()));
    delete_selected(&mut app);
    assert_eq!(app.status_message, Some("Error deleting todo: Failed to get todo".to_string()));
}

#[test]
fn space_toggles_and_c_hides_completed_todos() {
    let mut app = app_with_todos();
    app.enter_project().unwrap();
    toggle_selected(&mut app, 40);
    assert_eq!(descriptions(&app), vec!["b", "c", "a"]);
    handle_input(&mut app, ch('c'), 0).unwrap();
    assert!(!app.show_completed);
    assert_eq!(descriptions(&app), vec!["b", "c"]);
    handle_input(&mut app, ch('c'), 0).unwrap();
    assert_eq!(descriptions(&app), vec!["b", "c", "a"]);
    app.selected_index = 2;
    toggle_selected(&mut app, 41);
    assert_eq!(descriptions(&app), vec!["b", "c", "a"]);
    assert_eq!(app.todos[2].position, 4);
    assert_eq!(app.todos[2].completed_at, None);
}

#[test]
fn d_deletes_what_is_selected() {
    let mut app = app_with_todos();
    app.enter_project().unwrap();
    app.selected_index = 2;
    handle_input(&mut app, ch('d'), 0).unwrap();
    assert_eq!(descriptions(&app), vec!["a", "b"]);
    assert_eq!(app.status_message, Some("Todo deleted".to_string()));
    assert_eq!(app.selected_index, 1);
    app.back_to_projects();
    handle_input(&mut app, ch('d'), 0).unwrap();
    assert!(app.projects.is_empty());
    assert_eq!(app.status_message, Some("Project deleted".to_string()));
    app.projects = vec![];
    delete_selected(&mut app);
    assert_eq!(app.status_message, Some("Project deleted".to_string()));
}

#[test]
fn capital_a_archives_and_v_shows_the_archive() {
    let mut app = app_with_todos();
    handle_input(&mut app, ch('A'), 77).unwrap();
    assert_eq!(app.status_message, Some("Project archived".to_string()));
    assert!(app.projects.is_empty());
    handle_input(&mut app, ch('v'), 0).unwrap();
    assert_eq!(app.view_mode, ViewMode::ArchivedProjects);
    assert_eq!(app.projects.len(), 1);
    assert_eq!(app.projects[0].project.archived_at, Some(77));
    archive_selected(&mut app, 0);
    assert_eq!(app.status_message, Some("Project unarchived".to_string()));
    assert_eq!(app.projects[0].project.archived_at, None);
    handle_input(&mut app, key(KeyCode::Esc), 0).unwrap();
    assert_eq!(app.view_mode, ViewMode::ProjectList);
    assert_eq!(app.projects.len(), 1);
}

#[test]
fn a_project_is_added_by_typing_its_name() {
    let mut app = app_with_todos();
    handle_input(&mut app, ch('a'), 0).unwrap();
    assert_eq!(app.input_mode, InputMode::AddProject);
    type_text(&mut app, " Workk");
    handle_input(&mut app, key(KeyCode::Backspace), 0).unwrap();
    assert_eq!(app.input_buffer, " Work");
    handle_input(&mut app, key(KeyCode::Enter), 99).unwrap();
    assert_eq!(app.input_mode, InputMode::Normal);
    assert_eq!(app.input_buffer, "");
    assert_eq!(app.status_message, Some("Project 'Work' created".to_string()));
    assert_eq!(app.projects.len(), 2);
    assert_eq!(app.projects[0].project.name, "Work");
    assert_eq!(app.projects[0].project.created_at, 99);
}

#[test]
fn a_name_that_is_too_long_is_reported() {
    let mut app = app_with_todos();
    app.start_add_project();
    app.input_buffer = "x".repeat(256);
    handle_input(&mut app, key(KeyCode::Enter), 0).unwrap();
    assert_eq!(
        app.status_message,
        Some("Error: Project name is too long (max 255 characters)".to_string())
    );
    assert_eq!(app.projects.len(), 1);
    // nothing typed: nothing happens
    app.start_add_project();
    type_text(&mut app, "   ");
    handle_input(&mut app, key(KeyCode::Enter), 0).unwrap();
    assert_eq!(app.input_mode, InputMode::Normal);
    assert_eq!(app.projects.len(), 1);
}

#[test]
fn a_todo_is_added_at_the_end() {
    let mut app = app_with_todos();
    handle_input(&mut app, ch('a'), 0).unwrap();
    handle_input(&mut app, key(KeyCode::Esc), 0).unwrap();
    assert_eq!(app.input_mode, InputMode::Normal);
    app.enter_project().unwrap();
    handle_input(&mut app, ch('a'), 0).unwrap();
    assert_eq!(app.input_mode, InputMode::AddTodo);
    type_text(&mut app, "d");
    handle_input(&mut app, key(KeyCode::Enter), 5).unwrap();
    assert_eq!(app.status_message, Some("Todo created".to_string()));
    assert_eq!(descriptions(&app), vec!["a", "b", "c", "d"]);
    assert_eq!(app.todos[3].position, 4);
}

#[test]
fn adding_a_todo_needs_a_list_of_todos() {
    let mut app = app_with_todos();
    app.start_add_todo();
    assert_eq!(app.input_mode, InputMode::Normal);
    app.show_help();
    handle_input(&mut app, ch('a'), 0).unwrap();
    assert_eq!(app.input_mode, InputMode::Normal);
    handle_input(&mut app, key(KeyCode::Enter), 0).unwrap();
    assert_eq!(app.view_mode, ViewMode::ProjectList);
}

#[test]
fn r_renames_the_todo_under_the_selection() {
    let mut app = app_with_todos();
    app.enter_project().unwrap();
    app.selected_index = 1;
    handle_input(&mut app, ch('r'), 0).unwrap();
    assert_eq!(app.input_mode, InputMode::EditTodo);
    assert_eq!(app.input_buffer, "b");
    type_text(&mut app, "!");
    handle_input(&mut app, key(KeyCode::Enter), 0).unwrap();
    assert_eq!(app.status_message, Some("Todo updated".to_string()));
    assert_eq!(descriptions(&app), vec!["a", "b!", "c"]);
    assert_eq!(app.input_mode, InputMode::Normal);
}

#[test]
fn r_renames_the_project_in_either_view() {
    let mut app = app_with_todos();
    handle_input(&mut app, ch('r'), 0).unwrap();
    assert_eq!(app.input_mode, InputMode::EditProjectName);
    assert_eq!(app.input_buffer, "Home");
    type_text(&mut app, " 2");
    handle_input(&mut app, key(KeyCode::Enter), 0).unwrap();
    assert_eq!(app.status_message, Some("Project name updated".to_string()));
    assert_eq!(app.projects[0].project.name, "Home 2");
    app.enter_project().unwrap();
    app.start_edit_project_name();
    assert_eq!(app.input_buffer, "Home 2");
    app.input_buffer = "Flat".to_string();
    assert_eq!(app.save_project_name(), Ok(()));
    assert_eq!(app.current_project.as_ref().unwrap().name, "Flat");
    app.start_edit_project_name();
    app.input_buffer = "y".repeat(300);
    assert_eq!(app.save_project_name(), Ok(()));
    assert_eq!(
        app.status_message,
        Some("Error: Project name is too long (max 255 characters)".to_string())
    );
    assert_eq!(app.current_project.as_ref().unwrap().name, "Flat");
}

#[test]
fn e_edits_the_description_of_the_project() {
    let mut app = app_with_todos();
    app.enter_project().unwrap();
    handle_input(&mut app, ch('e'), 0).unwrap();
    assert_eq!(app.input_mode, InputMode::EditDescription);
    assert_eq!(app.input_buffer, "");
    type_text(&mut app, "  chores ");
    handle_input(&mut app, key(KeyCode::Enter), 0).unwrap();
    assert_eq!(app.status_message, Some("Description updated".to_string()));
    assert_eq!(app.current_project.as_ref().unwrap().description, Some("chores".to_string()));
    handle_input(&mut app, ch('e'), 0).unwrap();
    assert_eq!(app.input_buffer, "chores");
    app.input_buffer = "  ".to_string();
    handle_input(&mut app, key(KeyCode::Enter), 0).unwrap();
    assert_eq!(app.current_project.as_ref().unwrap().description, None);
}

#[test]
fn saving_for_a_project_that_is_gone_is_reported() {
    let mut app = app_with_todos();
    app.enter_project().unwrap();
    app.start_edit_description();
    app.service.delete_project(1).unwrap();
    type_text(&mut app, "x");
    assert_eq!(handle_input(&mut app, key(KeyCode::Enter), 0), Ok(()));
    assert_eq!(app.status_message, Some("Error: Failed to get project".to_string()));
    assert_eq!(app.input_mode, InputMode::Normal);
    assert_eq!(app.save_description(), Err(DocketError::NotFound(Missing::Project)));
}

#[test]
fn enter_expands_a_todo_and_e_edits_its_details() {
    let mut app = app_with_todos();
    app.enter_project().unwrap();
    app.selected_index = 1;
    handle_input(&mut app, key(KeyCode::Enter), 0).unwrap();
    let id = app.todos[1].id;
    assert_eq!(app.expanded_todo_id, Some(id));
    assert_eq!(app.get_expanded_todo().unwrap().description, "b");
    handle_input(&mut app, ch('e'), 0).unwrap();
    assert_eq!(app.input_mode, InputMode::EditTodoDetails);
    type_text(&mut app, "by noon");
    handle_input(&mut app, key(KeyCode::Enter), 0).unwrap();
    assert_eq!(app.status_message, Some("Details updated".to_string()));
    assert_eq!(app.todos[1].details, Some("by noon".to_string()));
    app.start_edit_todo_details();
    assert_eq!(app.input_buffer, "by noon");
    app.cancel_input();
    // Escape collapses first, then goes back
    handle_input(&mut app, key(KeyCode::Esc), 0).unwrap();
    assert_eq!(app.expanded_todo_id, None);
    assert_eq!(app.view_mode, ViewMode::TodoList(1));
    handle_input(&mut app, key(KeyCode::Enter), 0).unwrap();
    handle_input(&mut app, key(KeyCode::Enter), 0).unwrap();
    assert_eq!(app.expanded_todo_id, None);
    assert_eq!(app.get_expanded_todo(), None);
    handle_input(&mut app, key(KeyCode::Esc), 0).unwrap();
    assert_eq!(app.view_mode, ViewMode::ProjectList);
}

#[test]
fn details_of_a_todo_that_is_gone_are_reported() {
    let mut app = app_with_todos();
    app.enter_project().unwrap();
    app.toggle_todo_expand();
    app.start_edit_todo_details();
    app.service.delete_todo(1).unwrap();
    assert_eq!(app.save_todo_details(), Err(DocketError::NotFound(Missing::Todo)));
    assert_eq!(handle_input(&mut app, key(KeyCode::Enter), 0), Ok(()));
    assert_eq!(app.status_message, Some("Error: Failed to get todo".to_string()));
}

#[test]
fn commands_are_read_in_lower_case() {
    let mut app = app_with_todos();
    handle_input(&mut app, ch(':'), 0).unwrap();
    assert_eq!(app.input_mode, InputMode::Command);
    type_text(&mut app, " HeLP ");
    handle_input(&mut app, key(KeyCode::Enter), 0).unwrap();
    assert_eq!(app.view_mode, ViewMode::Help);
    assert_eq!(app.input_mode, InputMode::Normal);
    app.start_command_mode();
    type_text(&mut app, "Nope");
    handle_input(&mut app, key(KeyCode::Enter), 0).unwrap();
    assert_eq!(app.status_message, Some("Unknown command: nope".to_string()));
    assert!(!app.should_quit);
    app.start_command_mode();
    type_text(&mut app, "QUIT");
    handle_input(&mut app, key(KeyCode::Enter), 0).unwrap();
    assert!(app.should_quit);
}

#[test]
fn run_command_knows_q_quit_and_help() {
    let mut app = app_with_todos();
    run_command(&mut app, "q");
    assert!(app.should_quit);
    let mut app = app_with_todos();
    run_command(&mut app, "help");
    assert_eq!(app.view_mode, ViewMode::Help);
    run_command(&mut app, "Q");
    assert_eq!(app.status_message, Some("Unknown command: Q".to_string()));
    assert!(!app.should_quit);
}

#[test]
fn q_and_control_c_quit() {
    let mut app = app_with_todos();
    handle_normal_mode(&mut app, ch('q'), 0).unwrap();
    assert!(app.should_quit);
    let mut app = app_with_todos();
    handle_normal_mode(&mut app, KeyEvent { code: KeyCode::Char('c'), control: true, shift: false }, 0).unwrap();
    assert!(app.should_quit);
    let mut app = app_with_todos();
    handle_normal_mode(&mut app, ch('c'), 0).unwrap();
    assert!(!app.should_quit);
    handle_normal_mode(&mut app, ch('?'), 0).unwrap();
    assert_eq!(app.view_mode, ViewMode::Help);
    assert_eq!(app.list_len(), 0);
    handle_normal_mode(&mut app, key(KeyCode::Esc), 0).unwrap();
    assert_eq!(app.view_mode, ViewMode::ProjectList);
}

#[test]
fn typing_edits_the_buffer() {
    let mut app = app_with_todos();
    app.start_command_mode();
    edit_key(&mut app, ch('a'));
    edit_key(&mut app, ch('é'));
    assert_eq!(app.input_buffer, "aé");
    edit_key(&mut app, key(KeyCode::Backspace));
    edit_key(&mut app, key(KeyCode::Backspace));
    edit_key(&mut app, key(KeyCode::Backspace));
    assert_eq!(app.input_buffer, "");
    edit_key(&mut app, key(KeyCode::Up));
    assert_eq!(app.input_mode, InputMode::Command);
    edit_key(&mut app, key(KeyCode::Esc));
    assert_eq!(app.input_mode, InputMode::Normal);
}

#[test]
fn status_line_can_be_set_and_cleared() {
    let mut app = app_with_todos();
    app.set_status("hello".to_string());
    assert_eq!(app.status_message, Some("hello".to_string()));
    app.clear_status();
    assert_eq!(app.status_message, None);
    assert_eq!(error_message("Error: ", DocketError::InvalidOperation), "Error: cannot reorder completed items");
}

#[test]
fn the_head_of_the_screen_names_what_is_shown() {
    let mut app = app_with_todos();
    assert_eq!(header_title(&app), "Docket - Projects");
    app.enter_project().unwrap();
    assert_eq!(header_title(&app), "Docket - Home");
    app.current_project = None;
    assert_eq!(header_title(&app), "Docket - Todos");
    app.view_mode = ViewMode::ArchivedProjects;
    assert_eq!(header_title(&app), "Docket - Archived Projects");
    app.show_help();
    assert_eq!(header_title(&app), "Docket - Help");
    assert_eq!(hints(&app), "Press Esc or Enter to close help");
}

#[test]
fn the_foot_of_the_screen_shows_message_keys_or_input() {
    let mut app = app_with_todos();
    let line = footer(&app);
    assert_eq!(line.tone, Tone::DarkGray);
    assert!(line.content.starts_with("j/k: navigate | Enter: open | a: add"));
    app.set_status("Saved".to_string());
    let line = footer(&app);
    assert_eq!((line.content.as_str(), line.tone), ("Saved", Tone::Yellow));
    app.start_add_project();
    app.input_buffer = "Wo".to_string();
    let line = footer(&app);
    assert_eq!((line.content.as_str(), line.tone), ("Add Project: Wo", Tone::Green));
    app.input_mode = InputMode::Command;
    let line = footer(&app);
    assert_eq!((line.content.as_str(), line.tone), (":Wo", Tone::Yellow));
    app.input_mode = InputMode::EditTodo;
    assert_eq!(footer(&app).content, "Edit Todo: Wo");
    app.input_mode = InputMode::AddTodo;
    assert_eq!(footer(&app).content, "Add Todo: Wo");
    app.input_mode = InputMode::EditProjectName;
    assert_eq!(footer(&app).content, "Edit Project Name: Wo");
    app.input_mode = InputMode::EditDescription;
    assert_eq!(footer(&app).content, "Editing description... (Enter to save, Esc to cancel)");
    app.input_mode = InputMode::EditTodoDetails;
    assert_eq!(footer(&app).content, "Editing details... (Enter to save, Esc to cancel)");
    app.cancel_input();
    app.clear_status();
    app.enter_project().unwrap();
    assert!(hints(&app).contains("Enter: expand"));
    app.toggle_todo_expand();
    assert_eq!(hints(&app), "Enter/Esc: collapse | e: edit details | Space: toggle | d: delete");
}

#[test]
fn a_window_lies_over_the_screen_while_a_text_is_edited() {
    let mut app = app_with_todos();
    assert!(modal(&app).is_none());
    app.start_add_project();
    assert!(modal(&app).is_none());
    app.enter_project().unwrap();
    app.cancel_input();
    app.start_edit_description();
    let window = modal(&app).unwrap();
    assert_eq!(window.title, "Edit Project Description");
    assert_eq!(window.height, 30);
    assert_eq!(window.content, "(empty - press Enter to clear description)\n\n[Enter] Save  [Esc] Cancel");
    app.input_buffer = "chores".to_string();
    assert_eq!(modal(&app).unwrap().content, "chores\n\n[Enter] Save  [Esc] Cancel");
    app.input_mode = InputMode::EditTodoDetails;
    app.input_buffer.clear();
    let window = modal(&app).unwrap();
    assert_eq!(window.title, "Edit Todo Details");
    assert_eq!(window.content, "(empty - press Enter to clear details)\n\n[Enter] Save  [Esc] Cancel");
    app.input_mode = InputMode::EditTodo;
    let window = modal(&app).unwrap();
    assert_eq!((window.title.as_str(), window.height), ("Edit Todo Description", 10));
    assert_eq!(window.content, "(empty)\n\n[Enter] Save  [Esc] Cancel");
    app.input_mode = InputMode::EditProjectName;
    assert_eq!(modal(&app).unwrap().title, "Edit Project Name");
}

#[test]
fn rows_are_marked_and_shaded() {
    let mut app = app_with_todos();
    app.enter_project().unwrap();
    toggle_selected(&mut app, 3);
    app.selected_index = 1;
    app.toggle_todo_expand();
    app.selected_index = 0;
    assert_eq!(todo_shade(&app, 0), RowShade::Selected);
    assert_eq!(todo_shade(&app, 1), RowShade::Plain);
    assert_eq!(todo_shade(&app, 2), RowShade::Completed);
    assert_eq!(todo_mark(&app, 0), " ");
    assert_eq!(todo_mark(&app, 1), "▼");
    assert_eq!(todo_mark(&app, 2), "✓");
    assert_eq!(details_heading(&app.todos[1]), "Details for: c");
    assert_eq!(details_text(&app.todos[1]), "[no details - press 'e' to add]");
    app.todos[1].details = Some("soon".to_string());
    assert_eq!(details_text(&app.todos[1]), "soon");
    assert!(!shows_description(&app));
    app.current_project.as_mut().unwrap().description = Some("about".to_string());
    assert!(shows_description(&app));
    app.current_project.as_mut().unwrap().description = Some(String::new());
    assert!(!shows_description(&app));
    let mut project = app.current_project.clone().unwrap();
    assert_eq!(project_label(&project), "Home");
    project.archived_at = Some(1);
    assert_eq!(project_label(&project), "Home [ARCHIVED]");
}
