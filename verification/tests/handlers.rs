use user_service::handler::{
    create_user, delete_user, get_all_users, get_user, update_user, STATUS_CONFLICT,
    STATUS_NO_CONTENT, STATUS_NOT_FOUND,
};
use user_service::model::{CreateUserRequest, UpdateUserRequest, UserStore};

fn req(name: &str, email: &str, password: &str) -> CreateUserRequest {
    CreateUserRequest {
        name: name.to_string(),
        email: email.to_string(),
        password: password.to_string(),
    }
}

#[test]
fn crud_scenario_over_the_handlers() {
    let mut store = UserStore::new();

    // create Ann: succeeds, an id is assigned
    let ann = create_user(&mut store, &req("Ann", "ann@x.com", "p1")).unwrap();
    assert_eq!(ann.name, "Ann");

    // create Bob under Ann's email: conflict
    let bob = create_user(&mut store, &req("Bob", "ann@x.com", "p2"));
    let (status, message) = bob.unwrap_err();
    assert_eq!(status, STATUS_CONFLICT);
    assert_eq!(message, "邮箱已存在");

    // fetch Ann's record by the assigned id
    let fetched = get_user(&store, ann.id).unwrap();
    assert_eq!(fetched.name, "Ann");

    // delete it: no content comes back
    let deleted = delete_user(&mut store, ann.id).unwrap();
    assert_eq!(deleted, STATUS_NO_CONTENT);

    // the id is gone now
    let gone = get_user(&store, ann.id);
    let (status, message) = gone.unwrap_err();
    assert_eq!(status, STATUS_NOT_FOUND);
    assert_eq!(message, "用户不存在");
}

#[test]
fn get_all_users_lists_newest_first() {
    let mut store = UserStore::new();
    create_user(&mut store, &req("A", "a@x.com", "p")).unwrap();
    create_user(&mut store, &req("B", "b@x.com", "p")).unwrap();
    let all = get_all_users(&store).unwrap();
    assert_eq!(all.len(), 2);
    assert_eq!(all[0].name, "B");
    assert_eq!(all[1].name, "A");
}

#[test]
fn update_handler_maps_each_outcome() {
    let mut store = UserStore::new();
    let ann = create_user(&mut store, &req("Ann", "ann@x.com", "p1")).unwrap();
    create_user(&mut store, &req("Bob", "bob@x.com", "p2")).unwrap();

    let missing = update_user(
        &mut store,
        9999,
        &UpdateUserRequest { name: None, email: None, password: None },
    );
    assert_eq!(missing.unwrap_err().0, STATUS_NOT_FOUND);

    let conflict = update_user(
        &mut store,
        ann.id,
        &UpdateUserRequest {
            name: None,
            email: Some("bob@x.com".to_string()),
            password: None,
        },
    );
    assert_eq!(conflict.unwrap_err().0, STATUS_CONFLICT);

    let renamed = update_user(
        &mut store,
        ann.id,
        &UpdateUserRequest {
            name: Some("Anna".to_string()),
            email: None,
            password: None,
        },
    )
    .unwrap();
    assert_eq!(renamed.name, "Anna");
    assert_eq!(renamed.email, "ann@x.com");
}

#[test]
fn delete_handler_maps_missing_id_to_not_found() {
    let mut store = UserStore::new();
    let r = delete_user(&mut store, 1);
    assert_eq!(r.unwrap_err().0, STATUS_NOT_FOUND);
}
