use user_service::model::{CreateUserRequest, UpdateUserRequest, UserError, UserStore};

fn create_req(name: &str, email: &str, password: &str) -> CreateUserRequest {
    CreateUserRequest {
        name: name.to_string(),
        email: email.to_string(),
        password: password.to_string(),
    }
}

fn empty_patch() -> UpdateUserRequest {
    UpdateUserRequest { name: None, email: None, password: None }
}

#[test]
fn create_then_find_by_id_returns_equal_record() {
    let mut store = UserStore::new();
    let created = store.create(&create_req("Ann", "ann@x.com", "p1")).unwrap();
    let found = store.find_by_id(created.id).unwrap();
    assert_eq!(found.id, created.id);
    assert_eq!(found.name, created.name);
    assert_eq!(found.email, created.email);
    assert_eq!(found.password, created.password);
    assert_eq!(found.created_at, created.created_at);
    assert_eq!(found.updated_at, created.updated_at);
}

#[test]
fn duplicate_email_second_create_fails_store_keeps_one_row() {
    let mut store = UserStore::new();
    store.create(&create_req("Ann", "ann@x.com", "p1")).unwrap();
    let second = store.create(&create_req("Bob", "ann@x.com", "p2"));
    assert!(matches!(second, Err(UserError::EmailExists)));
    let all = store.find_all();
    assert_eq!(all.len(), 1);
    assert_eq!(all[0].name, "Ann");
    assert_eq!(all[0].email, "ann@x.com");
}

#[test]
fn empty_update_keeps_fields_and_refreshes_timestamp() {
    let mut store = UserStore::new();
    let created = store.create(&create_req("Ann", "ann@x.com", "p1")).unwrap();
    let updated = store.update(created.id, &empty_patch()).unwrap();
    assert_eq!(updated.name, created.name);
    assert_eq!(updated.email, created.email);
    assert_eq!(updated.password, created.password);
    assert_eq!(updated.created_at, created.created_at);
    assert!(updated.updated_at >= created.updated_at);
}

#[test]
fn update_missing_id_fails_without_side_effect() {
    let mut store = UserStore::new();
    let r = store.update(7, &empty_patch());
    assert!(matches!(r, Err(UserError::NotFound)));
    assert_eq!(store.find_all().len(), 0);
}

#[test]
fn update_resolves_set_fields_only() {
    let mut store = UserStore::new();
    let created = store.create(&create_req("Ann", "ann@x.com", "p1")).unwrap();
    let patch = UpdateUserRequest {
        name: Some("Anna".to_string()),
        email: None,
        password: None,
    };
    let updated = store.update(created.id, &patch).unwrap();
    assert_eq!(updated.name, "Anna");
    assert_eq!(updated.email, "ann@x.com");
    assert_eq!(updated.password, "p1");
    let found = store.find_by_id(created.id).unwrap();
    assert_eq!(found.name, "Anna");
}

#[test]
fn update_to_taken_email_fails() {
    let mut store = UserStore::new();
    store.create(&create_req("Ann", "ann@x.com", "p1")).unwrap();
    let bob = store.create(&create_req("Bob", "bob@x.com", "p2")).unwrap();
    let patch = UpdateUserRequest {
        name: None,
        email: Some("ann@x.com".to_string()),
        password: None,
    };
    let r = store.update(bob.id, &patch);
    assert!(matches!(r, Err(UserError::EmailExists)));
    let kept = store.find_by_id(bob.id).unwrap();
    assert_eq!(kept.email, "bob@x.com");
}

#[test]
fn update_to_own_email_succeeds() {
    let mut store = UserStore::new();
    let ann = store.create(&create_req("Ann", "ann@x.com", "p1")).unwrap();
    let patch = UpdateUserRequest {
        name: None,
        email: Some("ann@x.com".to_string()),
        password: Some("p9".to_string()),
    };
    let updated = store.update(ann.id, &patch).unwrap();
    assert_eq!(updated.email, "ann@x.com");
    assert_eq!(updated.password, "p9");
}

#[test]
fn delete_missing_id_fails_delete_then_find_is_absent() {
    let mut store = UserStore::new();
    let r = store.delete(3);
    assert!(matches!(r, Err(UserError::NotFound)));
    let ann = store.create(&create_req("Ann", "ann@x.com", "p1")).unwrap();
    store.delete(ann.id).unwrap();
    assert!(store.find_by_id(ann.id).is_none());
    assert_eq!(store.find_all().len(), 0);
}

#[test]
fn find_all_returns_all_newest_first() {
    let mut store = UserStore::new();
    store.create(&create_req("A", "a@x.com", "p")).unwrap();
    store.create(&create_req("B", "b@x.com", "p")).unwrap();
    store.create(&create_req("C", "c@x.com", "p")).unwrap();
    let all = store.find_all();
    assert_eq!(all.len(), 3);
    assert_eq!(all[0].name, "C");
    assert_eq!(all[1].name, "B");
    assert_eq!(all[2].name, "A");
    assert!(all[0].created_at > all[1].created_at);
    assert!(all[1].created_at > all[2].created_at);
}

#[test]
fn find_by_email_finds_the_row_or_nothing() {
    let mut store = UserStore::new();
    store.create(&create_req("Ann", "ann@x.com", "p1")).unwrap();
    let hit = store.find_by_email(&"ann@x.com".to_string()).unwrap();
    assert_eq!(hit.name, "Ann");
    assert!(store.find_by_email(&"bob@x.com".to_string()).is_none());
}

#[test]
fn timestamps_respect_creation_order_and_invariant() {
    let mut store = UserStore::new();
    let a = store.create(&create_req("A", "a@x.com", "p")).unwrap();
    let b = store.create(&create_req("B", "b@x.com", "p")).unwrap();
    assert!(b.created_at > a.created_at);
    assert!(a.updated_at >= a.created_at);
    let updated = store.update(a.id, &empty_patch()).unwrap();
    assert!(updated.updated_at >= updated.created_at);
    assert!(updated.updated_at > b.created_at);
}

#[test]
fn error_messages_match_the_service_wording() {
    assert_eq!(UserError::NotFound.message(), "用户不存在");
    assert_eq!(UserError::EmailExists.message(), "邮箱已存在");
    assert_eq!(
        UserError::Database("连接失败".to_string()).message(),
        "数据库错误: 连接失败"
    );
}
