use std::collections::HashSet;

use mash_todo::memory::InMemoryTodoDao;
use mash_todo::todos::TodoDao;

fn get_dao() -> InMemoryTodoDao {
    InMemoryTodoDao::new()
}

#[test]
fn test_get_all_todos_empty() {
    let dao = get_dao();

    let todos = dao.get_all_todos().unwrap();

    assert!(todos.is_empty());
}

#[test]
fn test_get_all_todos() {
    let mut dao = get_dao();

    dao.add_todo("Buy milk".to_string()).unwrap();
    dao.add_todo("Buy eggs".to_string()).unwrap();
    dao.add_todo("Make breakfast".to_string()).unwrap();
    let todos = dao.get_all_todos().unwrap();

    assert_eq!(3, todos.len());
    let descriptions = todos
        .into_iter()
        .map(|t| t.description)
        .collect::<HashSet<_>>();
    assert_eq!(
        descriptions,
        HashSet::from([
            "Buy milk".to_string(),
            "Buy eggs".to_string(),
            "Make breakfast".to_string()
        ])
    );
}

#[test]
fn test_add_todo() {
    let mut pool = get_dao();

    let todo = pool.add_todo("Buy milk".to_string()).unwrap();

    assert_eq!(todo.description, "Buy milk");
    assert!(todo.completed_at.is_none());
}

#[test]
fn test_toggle_todo() {
    let mut dao = get_dao();

    let mut todo = dao.add_todo("Buy milk".to_string()).unwrap();
    todo = dao.toggle_todo(todo.id).unwrap();

    assert!(todo.is_completed());
}

#[test]
fn test_toggle_nonexistent_todo() {
    let mut dao = get_dao();

    let result = dao.toggle_todo(999);

    assert!(result.is_err());
}
