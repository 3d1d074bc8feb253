use docket::db::Database;
use docket::error::DocketError;
use docket::service::DocketService;
use docket::models::{Project, Todo};
use docket::snapshot::{check_positions, check_project_ids, check_todo_ids, check_todo_projects};

fn project(id: i64) -> Project {
    Project { id, name: format!("p{}", id), description: None, created_at: 0, archived_at: None }
}

fn todo(id: i64, project_id: i64, completed_at: Option<i64>, position: i64) -> Todo {
    Todo { id, project_id, description: "t".to_string(), details: None, created_at: 0, completed_at, position }
}

#[test]
fn a_store_comes_back_from_its_records() {
    let mut db = Database::new();
    let p = db.create_project("p", None, 1).unwrap();
    let a = db.create_todo(p.id, "a", 2).unwrap();
    let b = db.create_todo(p.id, "b", 3).unwrap();
    db.complete_todo(a.id, 4).unwrap();
    db.reorder_todo(b.id, docket::ordering::Direction::Up).unwrap();
    let projects = db.projects().clone();
    let todos = db.todos().clone();
    assert_eq!(db.next_project_id(), 2);
    assert_eq!(db.next_todo_id(), 3);
    let mut again = Database::restore(projects, todos, db.next_project_id(), db.next_todo_id()).unwrap();
    assert_eq!(again.projects(), db.projects());
    assert_eq!(again.todos(), db.todos());
    let c = again.create_todo(p.id, "c", 5).unwrap();
    assert_eq!(c.id, 3);
    // b kept position 2: the completed todo was no neighbour to change places with
    assert_eq!(c.position, 3);
}

#[test]
fn an_empty_store_comes_back() {
    let db = Database::restore(vec![], vec![], 1, 1).unwrap();
    assert!(db.projects().is_empty());
    assert!(db.todos().is_empty());
    assert!(Database::restore(vec![], vec![], 0, 1).is_none());
    assert!(Database::restore(vec![], vec![], 1, -5).is_none());
}

#[test]
fn records_that_break_the_rules_are_refused() {
    let p = || vec![project(1), project(2)];
    // a fine one first
    assert!(Database::restore(p(), vec![todo(1, 1, None, 1), todo(2, 1, None, 2), todo(3, 2, None, 1)], 3, 4).is_some());
    // two active todos of one project on one position
    assert!(Database::restore(p(), vec![todo(1, 1, None, 1), todo(2, 1, None, 1)], 3, 3).is_none());
    // a completed todo with a position
    assert!(Database::restore(p(), vec![todo(1, 1, Some(5), 1)], 3, 2).is_none());
    // an active todo without one
    assert!(Database::restore(p(), vec![todo(1, 1, None, 0)], 3, 2).is_none());
    // a todo of no project
    assert!(Database::restore(p(), vec![todo(1, 7, None, 1)], 3, 2).is_none());
    // identifiers out of order, twice, or not below the next
    assert!(Database::restore(p(), vec![todo(2, 1, None, 1), todo(1, 1, None, 2)], 3, 3).is_none());
    assert!(Database::restore(p(), vec![todo(1, 1, None, 1), todo(1, 1, None, 2)], 3, 3).is_none());
    assert!(Database::restore(p(), vec![todo(1, 1, None, 1)], 3, 1).is_none());
    assert!(Database::restore(vec![project(2), project(1)], vec![], 3, 1).is_none());
    assert!(Database::restore(vec![project(0)], vec![], 3, 1).is_none());
    assert!(Database::restore(p(), vec![], 2, 1).is_none());
}

#[test]
fn the_checks_one_by_one() {
    assert!(check_project_ids(&vec![project(1), project(5)], 6));
    assert!(!check_project_ids(&vec![project(1), project(5)], 5));
    assert!(!check_project_ids(&vec![project(5), project(5)], 9));
    assert!(check_todo_ids(&vec![], 1));
    assert!(check_todo_ids(&vec![todo(3, 1, None, 1)], 4));
    assert!(!check_todo_ids(&vec![todo(-3, 1, None, 1)], 4));
    assert!(check_todo_projects(&vec![project(1)], &vec![todo(1, 1, None, 1)]));
    assert!(!check_todo_projects(&vec![project(1)], &vec![todo(1, 2, None, 1)]));
    assert!(check_positions(&vec![todo(1, 1, None, 4), todo(2, 2, None, 4), todo(3, 1, Some(1), 0)]));
    assert!(!check_positions(&vec![todo(1, 1, None, 4), todo(2, 2, None, 4), todo(3, 1, None, 4)]));
}

#[test]
fn a_store_without_identifiers_left_is_exhausted() {
    let mut db = Database::restore(vec![project(1)], vec![], i64::MAX, i64::MAX).unwrap();
    assert_eq!(db.create_project("p", None, 0), Err(DocketError::Exhausted));
    assert_eq!(db.create_todo(1, "t", 0), Err(DocketError::Exhausted));
    assert!(db.todos().is_empty());
    assert_eq!(db.projects().len(), 1);
    let mut db = Database::restore(vec![project(1)], vec![], i64::MAX - 1, i64::MAX - 1).unwrap();
    assert_eq!(db.create_project("p", None, 0).unwrap().id, i64::MAX - 1);
    assert_eq!(db.create_todo(1, "t", 0).unwrap().id, i64::MAX - 1);
    assert_eq!(db.create_project("p", None, 0), Err(DocketError::Exhausted));
    assert_eq!(db.create_todo(1, "t", 0), Err(DocketError::Exhausted));
}

#[test]
fn a_project_without_positions_left_is_exhausted() {
    let todos = vec![todo(1, 1, None, i64::MAX), todo(2, 1, Some(3), 0), todo(3, 2, None, 1)];
    let db = Database::restore(vec![project(1), project(2)], todos, 3, 4).unwrap();
    let mut service = DocketService::new(db);
    assert_eq!(service.create_todo(1, "t", 0), Err(DocketError::Exhausted));
    assert_eq!(service.toggle_todo(2, 0), Err(DocketError::Exhausted));
    assert_eq!(service.get_todo(2).unwrap().position, 0);
    // the other project has room
    assert_eq!(service.create_todo(2, "t", 0).unwrap().position, 2);
    // and completing makes room
    assert_eq!(service.toggle_todo(1, 0), Ok(()));
    assert_eq!(service.toggle_todo(2, 0), Ok(()));
    assert_eq!(service.get_todo(2).unwrap().position, 1);
}
