use docket::db::Database;
use docket::error::{DocketError, Invalid, Missing};
use docket::service::DocketService;
use docket::text::{
    accept_project_name, accept_todo_description, check_project_name, check_todo_description, is_blank, normalize,
    present, same_text,
};

fn service() -> DocketService {
    DocketService::new(Database::new())
}

#[test]
fn project_names_are_trimmed() {
    let mut service = service();
    let project = service.create_project("  Home \t\n", 5).unwrap();
    assert_eq!(project.name, "Home");
    assert_eq!(project.id, 1);
    assert_eq!(project.description, None);
    assert_eq!(project.created_at, 5);
    assert_eq!(project.archived_at, None);
    assert_eq!(service.get_project(1).unwrap(), project);
}

#[test]
fn inner_white_space_is_kept() {
    assert_eq!(check_project_name("  a  b  "), Ok("a  b"));
    assert_eq!(check_todo_description("\u{a0}buy milk\u{3000}"), Ok("buy milk"));
}

#[test]
fn blank_texts_are_refused() {
    assert_eq!(check_project_name(""), Err(DocketError::ValidationError(Invalid::EmptyProjectName)));
    assert_eq!(check_project_name(" \t "), Err(DocketError::ValidationError(Invalid::EmptyProjectName)));
    assert_eq!(
        check_todo_description("\n"),
        Err(DocketError::ValidationError(Invalid::EmptyTodoDescription))
    );
    assert!(is_blank("  "));
    assert!(is_blank(""));
    assert!(!is_blank(" x "));
}

#[test]
fn project_name_length_limit() {
    let longest = "n".repeat(255);
    let too_long = "n".repeat(256);
    assert_eq!(check_project_name(&longest), Ok(longest.as_str()));
    assert_eq!(
        check_project_name(&too_long),
        Err(DocketError::ValidationError(Invalid::ProjectNameTooLong))
    );
    // the limit holds for what is left after trimming
    let padded = format!("  {}  ", longest);
    assert_eq!(check_project_name(&padded), Ok(longest.as_str()));
}

#[test]
fn todo_description_length_limit() {
    let longest = "d".repeat(500);
    let too_long = "d".repeat(501);
    assert_eq!(check_todo_description(&longest), Ok(longest.as_str()));
    assert_eq!(
        check_todo_description(&too_long),
        Err(DocketError::ValidationError(Invalid::TodoDescriptionTooLong))
    );
}

#[test]
fn lengths_count_characters() {
    let name = "é".repeat(255);
    assert_eq!(check_project_name(&name), Ok(name.as_str()));
    let name = "é".repeat(256);
    assert_eq!(check_project_name(&name), Err(DocketError::ValidationError(Invalid::ProjectNameTooLong)));
}

#[test]
fn optional_texts_are_normalized() {
    assert_eq!(normalize(None), None);
    assert_eq!(normalize(Some("")), None);
    assert_eq!(normalize(Some("   ")), None);
    assert_eq!(normalize(Some("  note ")), Some("note"));
}

#[test]
fn same_text_compares_characters() {
    assert!(same_text("up", "up"));
    assert!(!same_text("up", "Up"));
    assert!(!same_text("up", "up "));
    assert!(same_text("", ""));
}

#[test]
fn create_todo_checks_description_before_project() {
    let mut service = service();
    assert_eq!(
        service.create_todo(42, "  ", 1),
        Err(DocketError::ValidationError(Invalid::EmptyTodoDescription))
    );
    assert_eq!(service.create_todo(42, "x", 1), Err(DocketError::NotFound(Missing::Project)));
}

#[test]
fn create_todo_trims_the_description() {
    let mut service = service();
    let project = service.create_project("p", 1).unwrap().id;
    let todo = service.create_todo(project, "  call  ", 2).unwrap();
    assert_eq!(todo.description, "call");
}

#[test]
fn update_todo_looks_for_the_todo_first() {
    let mut service = service();
    assert_eq!(service.update_todo(9, ""), Err(DocketError::NotFound(Missing::Todo)));
    let project = service.create_project("p", 1).unwrap().id;
    let todo = service.create_todo(project, "old", 2).unwrap();
    assert_eq!(
        service.update_todo(todo.id, "  "),
        Err(DocketError::ValidationError(Invalid::EmptyTodoDescription))
    );
    assert_eq!(
        service.update_todo(todo.id, &"x".repeat(501)),
        Err(DocketError::ValidationError(Invalid::TodoDescriptionTooLong))
    );
    assert_eq!(service.get_todo(todo.id).unwrap().description, "old");
    assert_eq!(service.update_todo(todo.id, " new "), Ok(()));
    let stored = service.get_todo(todo.id).unwrap();
    assert_eq!(stored.description, "new");
    assert_eq!(stored.position, todo.position);
}

#[test]
fn update_project_name_looks_for_the_project_first() {
    let mut service = service();
    assert_eq!(service.update_project_name(3, ""), Err(DocketError::NotFound(Missing::Project)));
    let project = service.create_project("p", 1).unwrap().id;
    assert_eq!(
        service.update_project_name(project, " "),
        Err(DocketError::ValidationError(Invalid::EmptyProjectName))
    );
    assert_eq!(
        service.update_project_name(project, &"x".repeat(256)),
        Err(DocketError::ValidationError(Invalid::ProjectNameTooLong))
    );
    assert_eq!(service.update_project_name(project, " q "), Ok(()));
    assert_eq!(service.get_project(project).unwrap().name, "q");
}

#[test]
fn details_and_description_are_optional_texts() {
    let mut service = service();
    let project = service.create_project("p", 1).unwrap().id;
    let todo = service.create_todo(project, "t", 2).unwrap();
    assert_eq!(service.update_todo_details(todo.id, Some("  more ")), Ok(()));
    assert_eq!(service.get_todo(todo.id).unwrap().details, Some("more".to_string()));
    assert_eq!(service.update_todo_details(todo.id, Some("   ")), Ok(()));
    assert_eq!(service.get_todo(todo.id).unwrap().details, None);
    assert_eq!(service.update_todo_details(77, Some("x")), Err(DocketError::NotFound(Missing::Todo)));
    assert_eq!(service.update_project_description(project, Some(" about ")), Ok(()));
    assert_eq!(service.get_project(project).unwrap().description, Some("about".to_string()));
    assert_eq!(service.update_project_description(project, None), Ok(()));
    assert_eq!(service.get_project(project).unwrap().description, None);
    assert_eq!(
        service.update_project_description(77, None),
        Err(DocketError::NotFound(Missing::Project))
    );
}

#[test]
fn missing_records_are_not_found() {
    let mut service = service();
    assert_eq!(service.get_project(1), Err(DocketError::NotFound(Missing::Project)));
    assert_eq!(service.get_todo(1), Err(DocketError::NotFound(Missing::Todo)));
    assert_eq!(service.toggle_todo(1, 0), Err(DocketError::NotFound(Missing::Todo)));
    assert_eq!(service.delete_todo(1), Err(DocketError::NotFound(Missing::Todo)));
    assert_eq!(service.delete_project(1), Err(DocketError::NotFound(Missing::Project)));
    assert_eq!(service.archive_project(1, 0), Err(DocketError::NotFound(Missing::Project)));
    assert_eq!(service.unarchive_project(1), Err(DocketError::NotFound(Missing::Project)));
    assert!(service.list_all_todos(1).is_empty());
}

#[test]
fn archiving_hides_a_project_from_the_active_list() {
    let mut service = service();
    let a = service.create_project("a", 10).unwrap().id;
    let b = service.create_project("b", 20).unwrap().id;
    service.archive_project(a, 30).unwrap();
    let stored = service.get_project(a).unwrap();
    assert_eq!(stored.archived_at, Some(30));
    assert!(stored.is_archived());
    let active: Vec<i64> = service.list_active_projects().iter().map(|p| p.project.id).collect();
    assert_eq!(active, vec![b]);
    let all: Vec<i64> = service.list_all_projects().iter().map(|p| p.project.id).collect();
    assert_eq!(all, vec![b, a]);
    service.unarchive_project(a).unwrap();
    assert!(!service.get_project(a).unwrap().is_archived());
    assert_eq!(service.list_active_projects().len(), 2);
}

#[test]
fn projects_are_listed_latest_first_with_their_numbers() {
    let mut service = service();
    let a = service.create_project("a", 10).unwrap().id;
    let b = service.create_project("b", 30).unwrap().id;
    let c = service.create_project("c", 20).unwrap().id;
    let d = service.create_project("d", 20).unwrap().id;
    let t1 = service.create_todo(a, "1", 1).unwrap();
    service.create_todo(a, "2", 2).unwrap();
    service.create_todo(a, "3", 3).unwrap();
    service.create_todo(c, "4", 4).unwrap();
    service.toggle_todo(t1.id, 5).unwrap();
    let listing = service.list_all_projects();
    let order: Vec<i64> = listing.iter().map(|p| p.project.id).collect();
    assert_eq!(order, vec![b, c, d, a]);
    let numbers: Vec<(i64, i64, i64)> =
        listing.iter().map(|p| (p.total_todos, p.completed_todos, p.active_todos())).collect();
    assert_eq!(numbers, vec![(0, 0, 0), (1, 0, 1), (0, 0, 0), (3, 1, 2)]);
}

#[test]
fn deleting_a_project_deletes_its_todos() {
    let mut service = service();
    let a = service.create_project("a", 10).unwrap().id;
    let b = service.create_project("b", 20).unwrap().id;
    let t1 = service.create_todo(a, "1", 1).unwrap();
    let t2 = service.create_todo(b, "2", 2).unwrap();
    let t3 = service.create_todo(a, "3", 3).unwrap();
    assert_eq!(service.delete_project(a), Ok(()));
    assert_eq!(service.get_project(a), Err(DocketError::NotFound(Missing::Project)));
    assert_eq!(service.get_todo(t1.id), Err(DocketError::NotFound(Missing::Todo)));
    assert_eq!(service.get_todo(t3.id), Err(DocketError::NotFound(Missing::Todo)));
    assert_eq!(service.get_todo(t2.id).unwrap(), t2);
    assert_eq!(service.database().list_todos(a, true).len(), 0);
    // identifiers are not given out twice
    let c = service.create_project("c", 30).unwrap().id;
    assert_eq!(c, 3);
    let t4 = service.create_todo(c, "4", 4).unwrap();
    assert_eq!(t4.id, 4);
}

#[test]
fn deleting_a_todo_removes_it_for_good() {
    let mut service = service();
    let a = service.create_project("a", 10).unwrap().id;
    let t1 = service.create_todo(a, "1", 1).unwrap();
    assert_eq!(service.delete_todo(t1.id), Ok(()));
    assert_eq!(service.delete_todo(t1.id), Err(DocketError::NotFound(Missing::Todo)));
    assert!(service.list_all_todos(a).is_empty());
}

#[test]
fn store_level_completion_is_repeatable() {
    let mut db = Database::new();
    let p = db.create_project("p", Some("about"), 1).unwrap();
    assert_eq!(p.description, Some("about".to_string()));
    let t = db.create_todo(p.id, "t", 2).unwrap();
    assert_eq!(db.complete_todo(t.id, 10), Ok(()));
    assert_eq!(db.complete_todo(t.id, 20), Ok(()));
    assert_eq!(db.get_todo(t.id).unwrap().completed_at, Some(20));
    assert_eq!(db.complete_todo(99, 20), Err(DocketError::NotFound(Missing::Todo)));
    assert_eq!(db.uncomplete_todo(99), Err(DocketError::NotFound(Missing::Todo)));
    assert_eq!(db.create_todo(99, "t", 2), Err(DocketError::NotFound(Missing::Project)));
}

#[test]
fn white_space_is_what_unicode_lists() {
    let white = [
        '\u{0009}', '\u{000A}', '\u{000B}', '\u{000C}', '\u{000D}', '\u{0020}', '\u{0085}', '\u{00A0}',
        '\u{1680}', '\u{2000}', '\u{2001}', '\u{2002}', '\u{2003}', '\u{2004}', '\u{2005}', '\u{2006}',
        '\u{2007}', '\u{2008}', '\u{2009}', '\u{200A}', '\u{2028}', '\u{2029}', '\u{202F}', '\u{205F}',
        '\u{3000}',
    ];
    assert_eq!(white.len(), 25);
    for c in white {
        let padded = format!("{}name{}", c, c);
        assert_eq!(check_project_name(&padded), Ok("name"));
        assert!(is_blank(&c.to_string()));
    }
    // neighbours of the listed characters, and characters that only look blank
    let other = [
        '\u{0008}', '\u{000E}', '\u{001F}', '\u{0021}', '\u{0084}', '\u{0086}', '\u{009F}', '\u{00A1}',
        '\u{167F}', '\u{1681}', '\u{180E}', '\u{1FFF}', '\u{200B}', '\u{200C}', '\u{2027}', '\u{202A}',
        '\u{202E}', '\u{2030}', '\u{205E}', '\u{2060}', '\u{2FFF}', '\u{3001}', '\u{FEFF}', '_', '0',
    ];
    for c in other {
        let padded = format!("{}name{}", c, c);
        assert_eq!(check_project_name(&padded), Ok(padded.as_str()));
        assert!(!is_blank(&c.to_string()));
    }
}

#[test]
fn trimmed_texts_are_accepted_by_their_length() {
    assert_eq!(accept_project_name(""), Err(DocketError::ValidationError(Invalid::EmptyProjectName)));
    assert_eq!(accept_project_name("a"), Ok("a"));
    // what is handed over counts as it is: nothing is trimmed here
    assert_eq!(accept_project_name(" "), Ok(" "));
    let longest = "n".repeat(255);
    assert_eq!(accept_project_name(&longest), Ok(longest.as_str()));
    assert_eq!(
        accept_project_name(&"n".repeat(256)),
        Err(DocketError::ValidationError(Invalid::ProjectNameTooLong))
    );
    assert_eq!(
        accept_todo_description(""),
        Err(DocketError::ValidationError(Invalid::EmptyTodoDescription))
    );
    let longest = "d".repeat(500);
    assert_eq!(accept_todo_description(&longest), Ok(longest.as_str()));
    assert_eq!(
        accept_todo_description(&"d".repeat(501)),
        Err(DocketError::ValidationError(Invalid::TodoDescriptionTooLong))
    );
    assert_eq!(present(""), None);
    assert_eq!(present(" "), Some(" "));
    assert_eq!(present("x"), Some("x"));
}
