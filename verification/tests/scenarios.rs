use taskcore::api::{ApiError, TaskResponse, UserResponse};
use taskcore::entity::Entity;
use taskcore::error::DomainError;
use taskcore::store::MemoryStore;
use taskcore::task_usecases::{
    complete_task, create_task, delete_task, get_task, list_tasks, CreateTaskCommand,
};
use taskcore::user_usecases::{
    create_user, delete_user, get_user, list_users, update_user, CreateUserCommand,
    UpdateUserCommand,
};

fn alice_command() -> CreateUserCommand {
    CreateUserCommand { name: "Alice".to_string(), email: "alice@example.com".to_string() }
}

#[test]
fn create_user_echoes_generated_id_name_and_email() {
    let mut store = MemoryStore::new();
    let user = create_user(&mut store, alice_command()).expect("creation succeeds");
    let response = UserResponse::from(user);
    assert!(!response.id.is_empty());
    assert_eq!(response.name, "Alice");
    assert_eq!(response.email, "alice@example.com");
}

#[test]
fn create_user_with_duplicate_email_conflicts() {
    let mut store = MemoryStore::new();
    create_user(&mut store, alice_command()).expect("first creation succeeds");
    let second = CreateUserCommand {
        name: "Bob".to_string(),
        email: "alice@example.com".to_string(),
    };
    let err = create_user(&mut store, second).expect_err("duplicate email must conflict");
    match &err {
        DomainError::AlreadyExists(m) => assert!(m.contains("Email already exists")),
        _ => panic!("duplicate email must be a conflict"),
    }
    let rendered = ApiError::from(err);
    assert_eq!(rendered.status, 409);
    assert_eq!(rendered.code, "ALREADY_EXISTS");
    assert!(rendered.message.contains("Email already exists"));
}

#[test]
fn user_round_trip_preserves_all_public_fields() {
    let mut store = MemoryStore::new();
    let created = create_user(&mut store, alice_command()).expect("creation succeeds");
    let id = created.id().value().to_string();
    let read_back = get_user(&store, &id).expect("created user is found");
    assert_eq!(read_back.id().value(), created.id().value());
    assert_eq!(read_back.name(), created.name());
    assert_eq!(read_back.email().value(), created.email().value());
}

#[test]
fn task_round_trip_preserves_all_public_fields() {
    let mut store = MemoryStore::new();
    let owner = create_user(&mut store, alice_command()).expect("creation succeeds");
    let command = CreateTaskCommand {
        user_id: owner.id().value().to_string(),
        title: "Buy milk".to_string(),
        description: "2 liters".to_string(),
    };
    let created = create_task(&mut store, command).expect("task creation succeeds");
    let id = created.id().value().to_string();
    let read_back = get_task(&store, &id).expect("created task is found");
    assert_eq!(read_back.id().value(), created.id().value());
    assert_eq!(read_back.user_id().value(), created.user_id().value());
    assert_eq!(read_back.title(), created.title());
    assert_eq!(read_back.description(), created.description());
    assert_eq!(read_back.is_completed(), created.is_completed());
}

#[test]
fn task_lifecycle_create_get_complete_complete() {
    let mut store = MemoryStore::new();
    let owner = create_user(&mut store, alice_command()).expect("creation succeeds");
    let command = CreateTaskCommand {
        user_id: owner.id().value().to_string(),
        title: "Buy milk".to_string(),
        description: String::new(),
    };
    let created = create_task(&mut store, command).expect("task creation succeeds");
    let response = TaskResponse::from(created);
    assert!(!response.id.is_empty());
    assert_eq!(response.user_id, owner.id().value());
    assert_eq!(response.title, "Buy milk");
    assert_eq!(response.description, "");
    assert!(!response.completed);

    let fetched = get_task(&store, &response.id).expect("task is found");
    assert!(!fetched.is_completed());

    let completed = complete_task(&mut store, &response.id).expect("first complete succeeds");
    assert!(completed.is_completed());

    let err = complete_task(&mut store, &response.id).expect_err("second complete fails");
    assert!(matches!(err, DomainError::Validation(_)));
    let rendered = ApiError::from(err);
    assert_eq!(rendered.status, 400);
    assert_eq!(rendered.code, "VALIDATION_ERROR");

    let still_completed = get_task(&store, &response.id).expect("task is still found");
    assert!(still_completed.is_completed());
}

#[test]
fn create_task_for_unknown_user_is_not_found() {
    let mut store = MemoryStore::new();
    let command = CreateTaskCommand {
        user_id: "no-such-user".to_string(),
        title: "Buy milk".to_string(),
        description: String::new(),
    };
    let err = create_task(&mut store, command).expect_err("missing owner must fail");
    assert!(matches!(err, DomainError::NotFound(_)));
    let rendered = ApiError::from(err);
    assert_eq!(rendered.status, 404);
    assert_eq!(rendered.code, "NOT_FOUND");
}

#[test]
fn deleting_a_user_cascades_to_its_tasks() {
    let mut store = MemoryStore::new();
    let owner = create_user(&mut store, alice_command()).expect("creation succeeds");
    let owner_id = owner.id().value().to_string();
    let first = create_task(&mut store, CreateTaskCommand {
        user_id: owner_id.clone(),
        title: "Buy milk".to_string(),
        description: String::new(),
    })
    .expect("task creation succeeds");
    let second = create_task(&mut store, CreateTaskCommand {
        user_id: owner_id.clone(),
        title: "Walk dog".to_string(),
        description: String::new(),
    })
    .expect("task creation succeeds");
    let first_id = first.id().value().to_string();
    let second_id = second.id().value().to_string();

    delete_user(&mut store, &owner_id).expect("deletion succeeds");

    let user_err = get_user(&store, &owner_id).expect_err("user is gone");
    assert!(matches!(user_err, DomainError::NotFound(_)));
    let first_err = get_task(&store, &first_id).expect_err("first task is gone");
    assert!(matches!(first_err, DomainError::NotFound(_)));
    let second_err = get_task(&store, &second_id).expect_err("second task is gone");
    assert!(matches!(second_err, DomainError::NotFound(_)));
}

#[test]
fn get_unknown_task_is_not_found_with_message() {
    let store = MemoryStore::new();
    let err = get_task(&store, "unknown-id").expect_err("unknown task must fail");
    match &err {
        DomainError::NotFound(m) => assert_eq!(m, "Task not found"),
        _ => panic!("unknown task must be not found"),
    }
    let rendered = ApiError::from(err);
    assert_eq!(rendered.status, 404);
    assert_eq!(rendered.code, "NOT_FOUND");
    assert_eq!(rendered.message, "Task not found");
}

#[test]
fn get_unknown_user_is_not_found_with_message() {
    let store = MemoryStore::new();
    let err = get_user(&store, "unknown-id").expect_err("unknown user must fail");
    match err {
        DomainError::NotFound(m) => assert_eq!(m, "User not found"),
        _ => panic!("unknown user must be not found"),
    }
}

#[test]
fn list_users_returns_all_in_insertion_order() {
    let mut store = MemoryStore::new();
    create_user(&mut store, alice_command()).expect("creation succeeds");
    create_user(&mut store, CreateUserCommand {
        name: "Bob".to_string(),
        email: "bob@example.com".to_string(),
    })
    .expect("creation succeeds");
    let users = list_users(&store).expect("listing succeeds");
    assert_eq!(users.len(), 2);
    assert_eq!(users[0].name(), "Alice");
    assert_eq!(users[1].name(), "Bob");
}

#[test]
fn list_tasks_filters_by_user() {
    let mut store = MemoryStore::new();
    let alice = create_user(&mut store, alice_command()).expect("creation succeeds");
    let bob = create_user(&mut store, CreateUserCommand {
        name: "Bob".to_string(),
        email: "bob@example.com".to_string(),
    })
    .expect("creation succeeds");
    let alice_id = alice.id().value().to_string();
    let bob_id = bob.id().value().to_string();
    create_task(&mut store, CreateTaskCommand {
        user_id: alice_id.clone(),
        title: "Buy milk".to_string(),
        description: String::new(),
    })
    .expect("task creation succeeds");
    create_task(&mut store, CreateTaskCommand {
        user_id: bob_id.clone(),
        title: "Walk dog".to_string(),
        description: String::new(),
    })
    .expect("task creation succeeds");

    let all = list_tasks(&store, None).expect("listing succeeds");
    assert_eq!(all.len(), 2);
    let only_alice = list_tasks(&store, Some(&alice_id)).expect("listing succeeds");
    assert_eq!(only_alice.len(), 1);
    assert_eq!(only_alice[0].title(), "Buy milk");
    assert_eq!(only_alice[0].user_id().value(), alice_id);
}

#[test]
fn update_user_persists_both_fields() {
    let mut store = MemoryStore::new();
    let created = create_user(&mut store, alice_command()).expect("creation succeeds");
    let id = created.id().value().to_string();
    let updated = update_user(&mut store, &id, UpdateUserCommand {
        name: "Alicia".to_string(),
        email: "alicia@example.com".to_string(),
    })
    .expect("update succeeds");
    assert_eq!(updated.name(), "Alicia");
    assert_eq!(updated.email().value(), "alicia@example.com");
    let read_back = get_user(&store, &id).expect("user is found");
    assert_eq!(read_back.name(), "Alicia");
    assert_eq!(read_back.email().value(), "alicia@example.com");
}

#[test]
fn update_user_to_taken_email_conflicts() {
    let mut store = MemoryStore::new();
    create_user(&mut store, alice_command()).expect("creation succeeds");
    let bob = create_user(&mut store, CreateUserCommand {
        name: "Bob".to_string(),
        email: "bob@example.com".to_string(),
    })
    .expect("creation succeeds");
    let bob_id = bob.id().value().to_string();
    let err = update_user(&mut store, &bob_id, UpdateUserCommand {
        name: "Bob".to_string(),
        email: "alice@example.com".to_string(),
    })
    .expect_err("taken email must conflict");
    match err {
        DomainError::AlreadyExists(m) => assert_eq!(m, "Email already exists"),
        _ => panic!("taken email must be a conflict"),
    }
    let read_back = get_user(&store, &bob_id).expect("user is unchanged");
    assert_eq!(read_back.email().value(), "bob@example.com");
}

#[test]
fn update_unknown_user_is_not_found() {
    let mut store = MemoryStore::new();
    let err = update_user(&mut store, "missing", UpdateUserCommand {
        name: "Nobody".to_string(),
        email: "nobody@example.com".to_string(),
    })
    .expect_err("unknown user must fail");
    assert!(matches!(err, DomainError::NotFound(_)));
}

#[test]
fn delete_task_removes_only_that_task() {
    let mut store = MemoryStore::new();
    let owner = create_user(&mut store, alice_command()).expect("creation succeeds");
    let owner_id = owner.id().value().to_string();
    let first = create_task(&mut store, CreateTaskCommand {
        user_id: owner_id.clone(),
        title: "Buy milk".to_string(),
        description: String::new(),
    })
    .expect("task creation succeeds");
    let second = create_task(&mut store, CreateTaskCommand {
        user_id: owner_id.clone(),
        title: "Walk dog".to_string(),
        description: String::new(),
    })
    .expect("task creation succeeds");
    let first_id = first.id().value().to_string();
    let second_id = second.id().value().to_string();

    delete_task(&mut store, &first_id).expect("deletion succeeds");
    assert!(get_task(&store, &first_id).is_err());
    assert!(get_task(&store, &second_id).is_ok());
}

#[test]
fn delete_unknown_task_is_not_found() {
    let mut store = MemoryStore::new();
    let err = delete_task(&mut store, "missing").expect_err("unknown task must fail");
    match err {
        DomainError::NotFound(m) => assert_eq!(m, "Task not found"),
        _ => panic!("unknown task must be not found"),
    }
}

#[test]
fn delete_unknown_user_is_not_found() {
    let mut store = MemoryStore::new();
    let err = delete_user(&mut store, "missing").expect_err("unknown user must fail");
    match err {
        DomainError::NotFound(m) => assert_eq!(m, "User not found"),
        _ => panic!("unknown user must be not found"),
    }
}

#[test]
fn empty_ids_are_rejected_before_touching_the_store() {
    let mut store = MemoryStore::new();
    assert!(matches!(get_user(&store, ""), Err(DomainError::Validation(_))));
    assert!(matches!(get_task(&store, ""), Err(DomainError::Validation(_))));
    assert!(matches!(delete_user(&mut store, ""), Err(DomainError::Validation(_))));
    assert!(matches!(delete_task(&mut store, ""), Err(DomainError::Validation(_))));
    assert!(matches!(complete_task(&mut store, ""), Err(DomainError::Validation(_))));
    assert!(matches!(list_tasks(&store, Some("")), Err(DomainError::Validation(_))));
}
