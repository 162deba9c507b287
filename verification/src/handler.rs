//! Request handlers: one thin adapter per CRUD operation, translating each
//! store outcome into a wire status code and body. This is the only layer
//! that interprets `UserError`.
use crate::model::{
    has_id, user_of_id, CreateUserRequest, UpdateUserRequest, User, UserError, UserStore,
};
use vstd::prelude::*;

verus! {

/// Status of a successful request carrying a body.
pub const STATUS_OK: u16 = 200;

/// Status of a successful request without a body.
pub const STATUS_NO_CONTENT: u16 = 204;

/// Status reported when no row carries the requested id.
pub const STATUS_NOT_FOUND: u16 = 404;

/// Status reported when an email is already taken.
pub const STATUS_CONFLICT: u16 = 409;

/// Status reported for any other store failure.
pub const STATUS_INTERNAL_ERROR: u16 = 500;

/// Creates a user: an already-taken email maps to a conflict response, any
/// other store failure to a generic server error, success to the created row.
pub fn create_user(store: &mut UserStore, user_data: &CreateUserRequest) -> (r: Result<
    User,
    (u16, String),
>)
    requires
        old(store)@.wf(),
        old(store)@.clock < u64::MAX,
        old(store)@.next_id < u64::MAX,
    ensures
        final(store)@.wf(),
        old(store)@.create_ok(user_data.email@) ==> {
            &&& r matches Ok(u) && u@ == old(store)@.created_user(
                user_data.name@,
                user_data.email@,
                user_data.password@,
            )
            &&& final(store)@ == old(store)@.create_post(
                user_data.name@,
                user_data.email@,
                user_data.password@,
            )
        },
        !old(store)@.create_ok(user_data.email@) ==> {
            &&& r matches Err(e) && e.0 == STATUS_CONFLICT && e.1@ == "邮箱已存在"@
            &&& final(store)@ == old(store)@
        },
{
    match store.create(user_data) {
        Ok(user) => Ok(user),
        Err(UserError::EmailExists) => Err((STATUS_CONFLICT, "邮箱已存在".to_owned())),
        Err(_) => Err((STATUS_INTERNAL_ERROR, "服务器内部错误".to_owned())),
    }
}

/// Lists every user, newest creation first; never fails.
pub fn get_all_users(store: &UserStore) -> (r: Result<Vec<User>, (u16, String)>)
    ensures
        r matches Ok(users) && users.deep_view().len() == store@.users.len() && (forall|i: int|
            0 <= i < users.deep_view().len() ==> users.deep_view()[i] == store@.users[store@.users.len() - 1
                - i]),
{
    Ok(store.find_all())
}

/// Fetches one user by id: absence maps to a not-found response.
pub fn get_user(store: &UserStore, user_id: u64) -> (r: Result<User, (u16, String)>)
    requires
        store@.wf(),
    ensures
        has_id(store@.users, user_id) ==> (r matches Ok(u) && u@ == user_of_id(
            store@.users,
            user_id,
        )),
        !has_id(store@.users, user_id) ==> (r matches Err(e) && e.0 == STATUS_NOT_FOUND && e.1@
            == "用户不存在"@),
{
    match store.find_by_id(user_id) {
        Some(user) => Ok(user),
        None => Err((STATUS_NOT_FOUND, "用户不存在".to_owned())),
    }
}

/// Updates one user from a partial request: absent id maps to not-found, a
/// taken email to a conflict, success to the fully resolved row.
pub fn update_user(store: &mut UserStore, user_id: u64, update_data: &UpdateUserRequest) -> (r:
    Result<User, (u16, String)>)
    requires
        old(store)@.wf(),
        old(store)@.clock < u64::MAX,
    ensures
        final(store)@.wf(),
        !has_id(old(store)@.users, user_id) ==> {
            &&& r matches Err(e) && e.0 == STATUS_NOT_FOUND && e.1@ == "用户不存在"@
            &&& final(store)@ == old(store)@
        },
        has_id(old(store)@.users, user_id) ==> {
            let cur = user_of_id(old(store)@.users, user_id);
            let nm = update_data.resolved_name(cur.name);
            let em = update_data.resolved_email(cur.email);
            let pw = update_data.resolved_password(cur.password);
            &&& old(store)@.update_email_conflict(user_id, em) ==> {
                &&& r matches Err(e) && e.0 == STATUS_CONFLICT && e.1@ == "邮箱已存在"@
                &&& final(store)@ == old(store)@
            }
            &&& !old(store)@.update_email_conflict(user_id, em) ==> {
                &&& r matches Ok(u) && u@ == old(store)@.updated_user(user_id, nm, em, pw)
                &&& final(store)@ == old(store)@.update_post(user_id, nm, em, pw)
            }
        },
{
    match store.update(user_id, update_data) {
        Ok(user) => Ok(user),
        Err(UserError::NotFound) => Err((STATUS_NOT_FOUND, "用户不存在".to_owned())),
        Err(UserError::EmailExists) => Err((STATUS_CONFLICT, "邮箱已存在".to_owned())),
        Err(_) => Err((STATUS_INTERNAL_ERROR, "服务器内部错误".to_owned())),
    }
}

/// Deletes one user by id: success carries no content, an absent id maps to
/// a not-found response.
pub fn delete_user(store: &mut UserStore, user_id: u64) -> (r: Result<u16, (u16, String)>)
    requires
        old(store)@.wf(),
    ensures
        final(store)@.wf(),
        !has_id(old(store)@.users, user_id) ==> {
            &&& r matches Err(e) && e.0 == STATUS_NOT_FOUND && e.1@ == "用户不存在"@
            &&& final(store)@ == old(store)@
        },
        has_id(old(store)@.users, user_id) ==> {
            &&& r matches Ok(code) && code == STATUS_NO_CONTENT
            &&& final(store)@ == old(store)@.delete_post(user_id)
        },
{
    match store.delete(user_id) {
        Ok(_) => Ok(STATUS_NO_CONTENT),
        Err(UserError::NotFound) => Err((STATUS_NOT_FOUND, "用户不存在".to_owned())),
        Err(_) => Err((STATUS_INTERNAL_ERROR, "服务器内部错误".to_owned())),
    }
}

} // verus!
