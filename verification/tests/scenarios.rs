use std::time::{SystemTime, UNIX_EPOCH};

use mash_todo::memory::InMemoryTodoDao;
use mash_todo::state::AppState;
use mash_todo::todos::{toggle_transition, Todo, TodoDao, TodoError};
use mash_todo::views::{AddTodoForm, AddedTodo, Home, ToggledTodo};

fn millis_now() -> i64 {
    SystemTime::now()
        .duration_since(UNIX_EPOCH)
        .unwrap()
        .as_millis() as i64
}

#[test]
fn test_created_ids_are_distinct() {
    let mut dao = InMemoryTodoDao::new();

    let a = dao.add_todo("one".to_string()).unwrap();
    let b = dao.add_todo("two".to_string()).unwrap();
    let c = dao.add_todo("one".to_string()).unwrap();

    assert_ne!(a.id, b.id);
    assert_ne!(a.id, c.id);
    assert_ne!(b.id, c.id);
}

#[test]
fn test_create_echoes_description_and_starts_incomplete() {
    let mut dao = InMemoryTodoDao::new();

    let todo = dao.add_todo("Water the plants".to_string()).unwrap();

    assert_eq!(todo.description, "Water the plants");
    assert!(todo.completed_at.is_none());
    assert!(!todo.is_completed());
}

#[test]
fn test_list_is_sorted_by_ascending_id() {
    let mut dao = InMemoryTodoDao::new();

    dao.add_todo("Buy milk".to_string()).unwrap();
    dao.add_todo("Buy eggs".to_string()).unwrap();
    dao.add_todo("Make breakfast".to_string()).unwrap();
    dao.toggle_todo(2).unwrap();
    let todos = dao.get_all_todos().unwrap();

    assert_eq!(todos.len(), 3);
    assert!(todos[0].id < todos[1].id);
    assert!(todos[1].id < todos[2].id);
    let descriptions: Vec<&str> = todos.iter().map(|t| t.description.as_str()).collect();
    assert_eq!(descriptions, vec!["Buy milk", "Buy eggs", "Make breakfast"]);
}

#[test]
fn test_three_creates_listed_in_order_and_incomplete() {
    let mut dao = InMemoryTodoDao::new();

    dao.add_todo("Buy milk".to_string()).unwrap();
    dao.add_todo("Buy eggs".to_string()).unwrap();
    dao.add_todo("Make breakfast".to_string()).unwrap();
    let todos = dao.get_all_todos().unwrap();

    let descriptions: Vec<&str> = todos.iter().map(|t| t.description.as_str()).collect();
    assert_eq!(descriptions, vec!["Buy milk", "Buy eggs", "Make breakfast"]);
    assert!(todos.iter().all(|t| t.completed_at.is_none()));
}

#[test]
fn test_first_create_gets_id_one_and_toggle_records_an_instant() {
    let mut dao = InMemoryTodoDao::new();

    let created = dao.add_todo("Buy milk".to_string()).unwrap();
    assert_eq!(created.id, 1);
    assert!(!created.is_completed());

    let before = millis_now();
    let toggled = dao.toggle_todo(1).unwrap();

    assert_eq!(toggled.id, 1);
    assert!(toggled.is_completed());
    assert!(toggled.completed_at.unwrap() >= before);
}

#[test]
fn test_toggle_twice_clears_the_instant_again() {
    let mut dao = InMemoryTodoDao::new();

    dao.add_todo("Buy milk".to_string()).unwrap();
    let first = dao.toggle_todo(1).unwrap();
    let second = dao.toggle_todo(1).unwrap();

    assert!(first.completed_at.is_some());
    assert!(second.completed_at.is_none());
    assert!(!second.is_completed());
    assert_eq!(second.description, "Buy milk");
}

#[test]
fn test_toggle_unknown_id_fails_with_not_found() {
    let mut dao = InMemoryTodoDao::new();

    let result = dao.toggle_todo(999);

    assert_eq!(result.unwrap_err(), TodoError::NotFound);
}

#[test]
fn test_toggle_transition_completes_at_the_given_instant() {
    let todo = Todo {
        id: 7,
        description: "Sweep the floor".to_string(),
        completed_at: None,
    };

    let done = toggle_transition(&todo, 42);
    assert_eq!(done.id, 7);
    assert_eq!(done.description, "Sweep the floor");
    assert_eq!(done.completed_at, Some(42));
    assert!(done.is_completed());

    let undone = toggle_transition(&done, 99);
    assert_eq!(undone.id, 7);
    assert_eq!(undone.description, "Sweep the floor");
    assert_eq!(undone.completed_at, None);
}

#[test]
fn test_app_state_holds_the_injected_store() {
    let mut dao = InMemoryTodoDao::new();
    dao.add_todo("Buy milk".to_string()).unwrap();

    let mut state = AppState::new(dao);
    let todos = state.dao.get_all_todos().unwrap();
    assert_eq!(todos.len(), 1);

    state.dao.toggle_todo(1).unwrap();
    let todos = state.dao.get_all_todos().unwrap();
    assert!(todos[0].is_completed());
}

#[test]
fn test_view_values_carry_their_records() {
    let mut dao = InMemoryTodoDao::new();
    let created = dao.add_todo("Buy milk".to_string()).unwrap();

    let added = AddedTodo(created);
    assert_eq!(added.0.id, 1);

    let toggled = ToggledTodo(dao.toggle_todo(1).unwrap());
    assert!(toggled.0.is_completed());

    let home = Home(dao.get_all_todos().unwrap());
    assert_eq!(home.0.len(), 1);

    let form = AddTodoForm {
        description: "Buy milk".to_string(),
    };
    assert_eq!(form.description, "Buy milk");
}
