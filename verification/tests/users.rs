use resource_store::memstore::InMemoryStore;
use resource_store::models::{User, UserDTO};
use resource_store::service::{
    create_user, delete_user, get_user, get_users, update_user, ServiceError,
};

fn dto(name: &str, email: &str) -> UserDTO {
    UserDTO { name: name.to_string(), email: email.to_string() }
}

fn created(store: &mut InMemoryStore, name: &str, email: &str) -> User {
    match create_user(store, &dto(name, email)) {
        Ok(u) => u,
        Err(e) => panic!("create failed: {:?}", e),
    }
}

#[test]
fn test_create_user() {
    let mut store = InMemoryStore::new();
    let body = created(&mut store, "Test User", "test@example.com");
    assert_eq!(body.name, "Test User");
    assert_eq!(body.email, "test@example.com");
}

#[test]
fn test_get_users() {
    let mut store = InMemoryStore::new();
    created(&mut store, "Test User", "test@example.com");
    let response_body = get_users(&store);
    assert_eq!(response_body.len(), 1);
    assert_eq!(response_body[0].name, "Test User");
    assert_eq!(response_body[0].email, "test@example.com");
}

#[test]
fn test_get_user() {
    let mut store = InMemoryStore::new();
    let body = created(&mut store, "Test User", "test@example.com");
    let response_body = get_user(&store, body.id).unwrap();
    assert_eq!(response_body.name, "Test User");
    assert_eq!(response_body.email, "test@example.com");
}

#[test]
fn test_update_user() {
    let mut store = InMemoryStore::new();
    let body = created(&mut store, "Test User", "test@example.com");
    let update = dto("Test User_updated", "test_updated@example.com");
    let response_body = update_user(&mut store, body.id, &update).unwrap();
    assert_eq!(response_body.name, "Test User_updated");
    assert_eq!(response_body.email, "test_updated@example.com");
}

#[test]
fn test_delete_user() {
    let mut store = InMemoryStore::new();
    let body = created(&mut store, "Test User", "test@example.com");
    let deleted = delete_user(&mut store, body.id);
    assert!(deleted.is_ok());
}

#[test]
fn create_then_get_returns_created_record() {
    let mut store = InMemoryStore::new();
    let body = created(&mut store, "Grace", "grace@example.com");
    let again = get_user(&store, body.id).unwrap();
    assert_eq!(again.id, body.id);
    assert_eq!(again.name, body.name);
    assert_eq!(again.email, body.email);
}

#[test]
fn absent_id_is_not_found_everywhere() {
    let mut store = InMemoryStore::new();
    let missing: u128 = 12345;
    assert!(matches!(get_user(&store, missing), Err(ServiceError::NotFound)));
    assert!(matches!(
        update_user(&mut store, missing, &dto("x", "y")),
        Err(ServiceError::NotFound)
    ));
    assert!(matches!(delete_user(&mut store, missing), Err(ServiceError::NotFound)));
}

#[test]
fn delete_is_terminal() {
    let mut store = InMemoryStore::new();
    let body = created(&mut store, "Alan", "alan@example.com");
    delete_user(&mut store, body.id).unwrap();
    assert!(matches!(get_user(&store, body.id), Err(ServiceError::NotFound)));
    assert!(matches!(
        update_user(&mut store, body.id, &dto("Alan", "alan@example.com")),
        Err(ServiceError::NotFound)
    ));
    assert!(matches!(delete_user(&mut store, body.id), Err(ServiceError::NotFound)));
}

#[test]
fn list_after_creating_n_distinct_records() {
    let mut store = InMemoryStore::new();
    let mut made = Vec::new();
    for k in 0..5 {
        made.push(created(
            &mut store,
            &format!("user-{}", k),
            &format!("user-{}@example.com", k),
        ));
    }
    for a in 0..made.len() {
        for b in 0..a {
            assert_ne!(made[a].id, made[b].id);
        }
    }
    let listed = get_users(&store);
    assert_eq!(listed.len(), 5);
    for m in &made {
        let hit = listed.iter().find(|u| u.id == m.id).unwrap();
        assert_eq!(hit.name, m.name);
        assert_eq!(hit.email, m.email);
    }
}

#[test]
fn empty_payload_fields_are_rejected() {
    let mut store = InMemoryStore::new();
    assert!(matches!(
        create_user(&mut store, &dto("", "a@b.c")),
        Err(ServiceError::Validation)
    ));
    assert!(matches!(
        create_user(&mut store, &dto("A", "")),
        Err(ServiceError::Validation)
    ));
    assert_eq!(get_users(&store).len(), 0);
    let body = created(&mut store, "A", "a@b.c");
    assert!(matches!(
        update_user(&mut store, body.id, &dto("", "a@b.c")),
        Err(ServiceError::Validation)
    ));
    assert_eq!(get_user(&store, body.id).unwrap().name, "A");
}

#[test]
fn ada_scenario() {
    let mut store = InMemoryStore::new();
    let body = created(&mut store, "Ada", "ada@x.io");
    assert_eq!(body.name, "Ada");
    assert_eq!(body.email, "ada@x.io");
    let updated = update_user(&mut store, body.id, &dto("Ada L.", "ada@x.io")).unwrap();
    assert_eq!(updated.id, body.id);
    assert_eq!(get_user(&store, body.id).unwrap().name, "Ada L.");
    delete_user(&mut store, body.id).unwrap();
    assert!(matches!(get_user(&store, body.id), Err(ServiceError::NotFound)));
}

#[test]
fn error_reasons_are_short_and_fixed() {
    assert_eq!(ServiceError::Validation.reason(), "invalid payload");
    assert_eq!(ServiceError::NotFound.reason(), "not found");
    assert_eq!(ServiceError::Backend.reason(), "service unavailable");
}

#[test]
fn each_failure_kind_has_one_status() {
    assert_eq!(ServiceError::Validation.status_code(), 400);
    assert_eq!(ServiceError::NotFound.status_code(), 404);
    assert_eq!(ServiceError::Backend.status_code(), 500);
}
