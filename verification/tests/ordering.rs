use docket::db::Database;
use docket::error::{DocketError, Invalid, Missing};
use docket::models::Todo;
use docket::ordering::{find_swap_target, greatest_active_position, position_after_all, Direction};
use docket::service::DocketService;

fn service_with_project() -> (DocketService, i64) {
    let mut service = DocketService::new(Database::new());
    let project = service.create_project("Home", 1_000).unwrap();
    (service, project.id)
}

fn ids(todos: &[Todo]) -> Vec<i64> {
    todos.iter().map(|t| t.id).collect()
}

fn positions(todos: &[Todo]) -> Vec<i64> {
    todos.iter().map(|t| t.position).collect()
}

fn todo(id: i64, project_id: i64, completed_at: Option<i64>, position: i64) -> Todo {
    Todo {
        id,
        project_id,
        description: format!("todo {}", id),
        details: None,
        created_at: 0,
        completed_at,
        position,
    }
}

#[test]
fn first_todo_of_a_project_gets_position_one() {
    let (mut service, project) = service_with_project();
    let a = service.create_todo(project, "a", 1).unwrap();
    assert_eq!(a.position, 1);
    assert_eq!(a.project_id, project);
    assert_eq!(a.completed_at, None);
    assert_eq!(a.created_at, 1);
    assert_eq!(a.details, None);
}

#[test]
fn new_todo_follows_greatest_active_position() {
    let (mut service, project) = service_with_project();
    let a = service.create_todo(project, "a", 1).unwrap();
    let b = service.create_todo(project, "b", 2).unwrap();
    let c = service.create_todo(project, "c", 3).unwrap();
    assert_eq!((a.position, b.position, c.position), (1, 2, 3));
    // a gap stays a gap: positions are not renumbered
    service.delete_todo(b.id).unwrap();
    let d = service.create_todo(project, "d", 4).unwrap();
    assert_eq!(d.position, 4);
    assert_eq!(positions(&service.list_active_todos(project)), vec![1, 3, 4]);
}

#[test]
fn positions_are_counted_per_project() {
    let (mut service, first) = service_with_project();
    let second = service.create_project("Work", 2_000).unwrap().id;
    service.create_todo(first, "a", 1).unwrap();
    service.create_todo(first, "b", 2).unwrap();
    let other = service.create_todo(second, "c", 3).unwrap();
    assert_eq!(other.position, 1);
}

#[test]
fn completed_todos_do_not_count_for_the_next_position() {
    let (mut service, project) = service_with_project();
    let a = service.create_todo(project, "a", 1).unwrap();
    let b = service.create_todo(project, "b", 2).unwrap();
    service.toggle_todo(b.id, 10).unwrap();
    let c = service.create_todo(project, "c", 3).unwrap();
    assert_eq!(c.position, 2);
    service.toggle_todo(a.id, 11).unwrap();
    service.toggle_todo(c.id, 12).unwrap();
    let d = service.create_todo(project, "d", 4).unwrap();
    assert_eq!(d.position, 1);
}

#[test]
fn completing_resets_the_position_to_zero() {
    let (mut service, project) = service_with_project();
    let a = service.create_todo(project, "a", 1).unwrap();
    service.toggle_todo(a.id, 77).unwrap();
    let stored = service.get_todo(a.id).unwrap();
    assert_eq!(stored.position, 0);
    assert_eq!(stored.completed_at, Some(77));
    assert!(stored.is_completed());
    assert!(!stored.can_reorder());
}

#[test]
fn uncompleting_places_the_todo_after_all_active_ones() {
    let (mut service, project) = service_with_project();
    let a = service.create_todo(project, "a", 1).unwrap();
    let b = service.create_todo(project, "b", 2).unwrap();
    let c = service.create_todo(project, "c", 3).unwrap();
    service.toggle_todo(a.id, 10).unwrap();
    service.toggle_todo(a.id, 11).unwrap();
    let again = service.get_todo(a.id).unwrap();
    assert_eq!(again.position, 4);
    assert_eq!(again.completed_at, None);
    assert_eq!(ids(&service.list_active_todos(project)), vec![b.id, c.id, a.id]);
}

#[test]
fn uncompleting_an_active_todo_moves_it_to_the_end() {
    let mut db = Database::new();
    let project = db.create_project("Home", None, 0).unwrap().id;
    let a = db.create_todo(project, "a", 1).unwrap();
    let b = db.create_todo(project, "b", 2).unwrap();
    db.uncomplete_todo(a.id).unwrap();
    assert_eq!(db.get_todo(a.id).unwrap().position, 3);
    assert_eq!(ids(&db.list_todos(project, false)), vec![b.id, a.id]);
}

#[test]
fn moving_the_last_todo_down_changes_nothing() {
    let (mut service, project) = service_with_project();
    service.create_todo(project, "a", 1).unwrap();
    service.create_todo(project, "b", 2).unwrap();
    let c = service.create_todo(project, "c", 3).unwrap();
    let before = service.list_all_todos(project);
    assert_eq!(service.move_todo_down(c.id), Ok(()));
    assert_eq!(service.list_all_todos(project), before);
}

#[test]
fn moving_the_first_todo_up_changes_nothing() {
    let (mut service, project) = service_with_project();
    let a = service.create_todo(project, "a", 1).unwrap();
    service.create_todo(project, "b", 2).unwrap();
    let before = service.list_all_todos(project);
    assert_eq!(service.move_todo_up(a.id), Ok(()));
    assert_eq!(service.list_all_todos(project), before);
}

#[test]
fn moving_an_only_todo_changes_nothing() {
    let (mut service, project) = service_with_project();
    let a = service.create_todo(project, "a", 1).unwrap();
    assert_eq!(service.move_todo_up(a.id), Ok(()));
    assert_eq!(service.move_todo_down(a.id), Ok(()));
    assert_eq!(service.get_todo(a.id).unwrap().position, 1);
}

#[test]
fn reordering_a_completed_todo_is_refused() {
    let (mut service, project) = service_with_project();
    let a = service.create_todo(project, "a", 1).unwrap();
    service.create_todo(project, "b", 2).unwrap();
    service.create_todo(project, "c", 3).unwrap();
    service.toggle_todo(a.id, 10).unwrap();
    let before = service.list_all_todos(project);
    assert_eq!(service.move_todo_up(a.id), Err(DocketError::InvalidOperation));
    assert_eq!(service.move_todo_down(a.id), Err(DocketError::InvalidOperation));
    assert_eq!(service.list_all_todos(project), before);
    assert_eq!(positions(&before), vec![2, 3, 0]);
}

#[test]
fn reordering_a_missing_todo_is_not_found() {
    let (mut service, _) = service_with_project();
    assert_eq!(service.move_todo_up(99), Err(DocketError::NotFound(Missing::Todo)));
    assert_eq!(service.move_todo_down(99), Err(DocketError::NotFound(Missing::Todo)));
}

#[test]
fn create_two_and_move_first_down_swaps_them() {
    let (mut service, project) = service_with_project();
    let other = service.create_todo(project, "other", 1).unwrap();
    let a = service.create_todo(project, "a", 2).unwrap();
    let b = service.create_todo(project, "b", 3).unwrap();
    assert_eq!(b.position, a.position + 1);
    service.move_todo_down(a.id).unwrap();
    let moved_a = service.get_todo(a.id).unwrap();
    let moved_b = service.get_todo(b.id).unwrap();
    assert_eq!(moved_a.position, b.position);
    assert_eq!(moved_b.position, a.position);
    assert_eq!(moved_a.description, "a");
    assert_eq!(moved_b.description, "b");
    assert_eq!(service.get_todo(other.id).unwrap(), other);
    // and back again
    service.move_todo_up(a.id).unwrap();
    assert_eq!(service.get_todo(a.id).unwrap(), a);
    assert_eq!(service.get_todo(b.id).unwrap(), b);
}

#[test]
fn move_third_of_three_up() {
    let (mut service, project) = service_with_project();
    let a = service.create_todo(project, "A", 1).unwrap();
    let b = service.create_todo(project, "B", 2).unwrap();
    let c = service.create_todo(project, "C", 3).unwrap();
    assert_eq!((a.position, b.position, c.position), (1, 2, 3));
    service.move_todo_up(c.id).unwrap();
    assert_eq!(service.get_todo(a.id).unwrap().position, 1);
    assert_eq!(service.get_todo(b.id).unwrap().position, 3);
    assert_eq!(service.get_todo(c.id).unwrap().position, 2);
    assert_eq!(ids(&service.list_active_todos(project)), vec![a.id, c.id, b.id]);
}

#[test]
fn completed_todos_are_listed_last_latest_first() {
    let (mut service, project) = service_with_project();
    let a = service.create_todo(project, "A", 1).unwrap();
    let b = service.create_todo(project, "B", 2).unwrap();
    let c = service.create_todo(project, "C", 3).unwrap();
    let d = service.create_todo(project, "D", 4).unwrap();
    service.toggle_todo(a.id, 100).unwrap();
    assert_eq!(ids(&service.list_active_todos(project)), vec![b.id, c.id, d.id]);
    assert_eq!(ids(&service.list_all_todos(project)), vec![b.id, c.id, d.id, a.id]);
    service.toggle_todo(c.id, 200).unwrap();
    assert_eq!(ids(&service.list_all_todos(project)), vec![b.id, d.id, c.id, a.id]);
    // completed at the same time: the older todo first
    service.toggle_todo(b.id, 200).unwrap();
    assert_eq!(ids(&service.list_all_todos(project)), vec![d.id, b.id, c.id, a.id]);
    assert_eq!(ids(&service.list_active_todos(project)), vec![d.id]);
}

#[test]
fn moving_skips_completed_and_foreign_todos() {
    let (mut service, project) = service_with_project();
    let second = service.create_project("Work", 5).unwrap().id;
    let a = service.create_todo(project, "a", 1).unwrap();
    let b = service.create_todo(project, "b", 2).unwrap();
    let foreign = service.create_todo(second, "x", 3).unwrap();
    let c = service.create_todo(project, "c", 4).unwrap();
    service.toggle_todo(b.id, 50).unwrap();
    service.move_todo_down(a.id).unwrap();
    assert_eq!(service.get_todo(a.id).unwrap().position, 3);
    assert_eq!(service.get_todo(c.id).unwrap().position, 1);
    assert_eq!(service.get_todo(b.id).unwrap().position, 0);
    assert_eq!(service.get_todo(foreign.id).unwrap(), foreign);
    assert_eq!(ids(&service.list_active_todos(project)), vec![c.id, a.id]);
}

#[test]
fn moving_across_a_gap_exchanges_the_positions() {
    let (mut service, project) = service_with_project();
    let a = service.create_todo(project, "a", 1).unwrap();
    let b = service.create_todo(project, "b", 2).unwrap();
    let c = service.create_todo(project, "c", 3).unwrap();
    service.delete_todo(b.id).unwrap();
    service.move_todo_up(c.id).unwrap();
    assert_eq!(service.get_todo(c.id).unwrap().position, 1);
    assert_eq!(service.get_todo(a.id).unwrap().position, 3);
}

#[test]
fn active_positions_stay_distinct() {
    let (mut service, project) = service_with_project();
    let mut made = Vec::new();
    for n in 0..6 {
        made.push(service.create_todo(project, "t", n).unwrap().id);
    }
    service.move_todo_up(made[3]).unwrap();
    service.toggle_todo(made[1], 10).unwrap();
    service.move_todo_down(made[0]).unwrap();
    service.toggle_todo(made[1], 11).unwrap();
    service.toggle_todo(made[4], 12).unwrap();
    service.delete_todo(made[2]).unwrap();
    service.move_todo_up(made[5]).unwrap();
    let all = service.list_all_todos(project);
    let mut seen = Vec::new();
    for t in all.iter() {
        if t.completed_at.is_some() {
            assert_eq!(t.position, 0);
        } else {
            assert!(t.position >= 1);
            assert!(!seen.contains(&t.position));
            seen.push(t.position);
        }
    }
    assert_eq!(seen.len(), 4);
}

#[test]
fn policy_functions_on_plain_records() {
    let todos = vec![
        todo(1, 7, None, 5),
        todo(2, 7, Some(9), 0),
        todo(3, 8, None, 40),
        todo(4, 7, None, 2),
        todo(5, 7, None, 9),
    ];
    assert_eq!(greatest_active_position(&todos, 7), Some(9));
    assert_eq!(greatest_active_position(&todos, 8), Some(40));
    assert_eq!(greatest_active_position(&todos, 9), None);
    assert_eq!(position_after_all(&todos, 7), Some(10));
    assert_eq!(position_after_all(&todos, 9), Some(1));
    assert_eq!(find_swap_target(&todos, 0, Direction::Up), Some(3));
    assert_eq!(find_swap_target(&todos, 0, Direction::Down), Some(4));
    assert_eq!(find_swap_target(&todos, 3, Direction::Up), None);
    assert_eq!(find_swap_target(&todos, 4, Direction::Down), None);
    assert_eq!(find_swap_target(&todos, 2, Direction::Up), None);
    assert_eq!(find_swap_target(&todos, 3, Direction::Down), Some(0));
}

#[test]
fn position_after_all_stops_at_the_greatest_integer() {
    let todos = vec![todo(1, 7, None, i64::MAX)];
    assert_eq!(position_after_all(&todos, 7), None);
    let todos = vec![todo(1, 7, None, i64::MAX - 1)];
    assert_eq!(position_after_all(&todos, 7), Some(i64::MAX));
    let todos = vec![todo(1, 7, None, -3)];
    assert_eq!(position_after_all(&todos, 7), Some(-2));
}

#[test]
fn first_of_equally_near_neighbours_is_taken() {
    let todos = vec![todo(1, 7, None, 5), todo(2, 7, None, 8), todo(3, 7, None, 8)];
    assert_eq!(find_swap_target(&todos, 0, Direction::Down), Some(1));
}

#[test]
fn validation_errors_name_the_rule() {
    let (mut service, project) = service_with_project();
    assert_eq!(
        service.create_todo(project, "   ", 1),
        Err(DocketError::ValidationError(Invalid::EmptyTodoDescription))
    );
    assert_eq!(
        service.create_project("", 1),
        Err(DocketError::ValidationError(Invalid::EmptyProjectName))
    );
}
