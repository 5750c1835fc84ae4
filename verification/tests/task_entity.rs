use taskcore::entity::Entity;
use taskcore::error::DomainError;
use taskcore::task::Task;
use taskcore::value_objects::{TaskId, UserId};

#[test]
fn task_new_should_reject_empty_title() {
    let user_id = UserId::new("user1").expect("valid user id");
    let result = Task::new(TaskId::generate(), user_id, String::new(), String::new());
    assert!(matches!(result, Err(DomainError::Validation(_))));
}

#[test]
fn task_new_should_succeed_with_valid_input() {
    let user_id = UserId::new("user1").expect("valid user id");
    let result = Task::new(TaskId::generate(), user_id, "Buy milk".to_string(), String::new());
    assert!(result.is_ok());
}

#[test]
fn task_complete_should_mark_as_completed() {
    let user_id = UserId::new("user1").expect("valid user id");
    let mut task = Task::new(TaskId::generate(), user_id, "Buy milk".to_string(), String::new())
        .expect("valid task");
    assert!(!task.is_completed());
    task.complete().expect("first complete should succeed");
    assert!(task.is_completed());
}

#[test]
fn task_complete_should_reject_already_completed() {
    let user_id = UserId::new("user1").expect("valid user id");
    let mut task = Task::new(TaskId::generate(), user_id, "Buy milk".to_string(), String::new())
        .expect("valid task");
    task.complete().expect("first complete should succeed");
    assert!(matches!(task.complete(), Err(DomainError::Validation(_))));
}

#[test]
fn task_id_new_should_reject_empty() {
    assert!(matches!(TaskId::new(""), Err(DomainError::Validation(_))));
}

#[test]
fn task_new_echoes_its_fields_and_starts_open() {
    let id = TaskId::new("t1").expect("valid task id");
    let user_id = UserId::new("u1").expect("valid user id");
    let task = Task::new(id, user_id, "Buy milk".to_string(), "2 liters".to_string())
        .expect("valid task");
    assert_eq!(task.id().value(), "t1");
    assert_eq!(task.user_id().value(), "u1");
    assert_eq!(task.title(), "Buy milk");
    assert_eq!(task.description(), "2 liters");
    assert!(!task.is_completed());
}

#[test]
fn task_new_rejects_empty_title_with_message() {
    let user_id = UserId::new("u1").expect("valid user id");
    match Task::new(TaskId::generate(), user_id, String::new(), String::new()) {
        Err(DomainError::Validation(m)) => assert_eq!(m, "Title cannot be empty"),
        _ => panic!("empty title must be a validation error"),
    }
}

#[test]
fn task_second_complete_keeps_state_and_message() {
    let user_id = UserId::new("u1").expect("valid user id");
    let mut task = Task::new(TaskId::generate(), user_id, "Buy milk".to_string(), String::new())
        .expect("valid task");
    task.complete().expect("first complete should succeed");
    match task.complete() {
        Err(DomainError::Validation(m)) => assert_eq!(m, "Task is already completed"),
        _ => panic!("second complete must be a validation error"),
    }
    assert!(task.is_completed());
}

#[test]
fn task_reconstitute_bypasses_validation() {
    let task = Task::reconstitute(
        TaskId::from_trusted("t1".to_string()),
        UserId::from_trusted("u1".to_string()),
        "Buy milk".to_string(),
        String::new(),
        true,
        None,
    );
    assert_eq!(task.id().value(), "t1");
    assert!(task.is_completed());
}
