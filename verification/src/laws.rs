//! Store-level laws: properties of the abstract store transitions that tie
//! the operations of `UserStore` together, proved once and for all states.
use crate::model::{has_email, has_id, user_of_id, StoreModel, UserModel};
use vstd::prelude::*;

verus! {

/// How many rows carry `email`, counted from the newest row down.
pub open spec fn email_count(users: Seq<UserModel>, email: Seq<char>) -> nat
    decreases users.len(),
{
    if users.len() == 0 {
        0
    } else {
        (if users.last().email == email {
            1nat
        } else {
            0nat
        }) + email_count(users.drop_last(), email)
    }
}

/// A table without the email holds zero rows carrying it.
proof fn lemma_email_count_zero(users: Seq<UserModel>, email: Seq<char>)
    requires
        !has_email(users, email),
    ensures
        email_count(users, email) == 0,
    decreases users.len(),
{
    if users.len() > 0 {
        assert(forall|i: int| 0 <= i < users.len() ==> users[i].email != email);
        assert(users.last().email != email);
        assert(forall|i: int|
            0 <= i < users.drop_last().len() ==> users.drop_last()[i] == users[i]);
        lemma_email_count_zero(users.drop_last(), email);
    }
}

/// In a table with pairwise-distinct emails, a present email is carried by
/// exactly one row.
proof fn lemma_email_count_unique(users: Seq<UserModel>, email: Seq<char>)
    requires
        forall|i: int, j: int| 0 <= i < j < users.len() ==> users[i].email != users[j].email,
        has_email(users, email),
    ensures
        email_count(users, email) == 1,
    decreases users.len(),
{
    let n = users.len();
    let w = choose|i: int| 0 <= i < n && users[i].email == email;
    assert(forall|i: int| 0 <= i < users.drop_last().len() ==> users.drop_last()[i] == users[i]);
    if users.last().email == email {
        assert(forall|i: int|
            0 <= i < n - 1 ==> (#[trigger] users[i].email) != users[n - 1].email);
        assert(!has_email(users.drop_last(), email));
        lemma_email_count_zero(users.drop_last(), email);
    } else {
        assert(w < n - 1);
        assert(has_email(users.drop_last(), email));
        lemma_email_count_unique(users.drop_last(), email);
    }
}

/// After a successful creation, looking the assigned id up finds exactly the
/// row the creation returned.
pub proof fn lemma_create_then_find(
    s: StoreModel,
    name: Seq<char>,
    email: Seq<char>,
    password: Seq<char>,
)
    requires
        s.wf(),
        s.clock < u64::MAX,
        s.next_id < u64::MAX,
        s.create_ok(email),
    ensures
        ({
            let u = s.created_user(name, email, password);
            let post = s.create_post(name, email, password);
            &&& post.users.len() == s.users.len() + 1
            &&& has_id(post.users, u.id)
            &&& user_of_id(post.users, u.id) == u
        }),
{
    let u = s.created_user(name, email, password);
    let post = s.create_post(name, email, password);
    let n = s.users.len() as int;
    assert(post.users[n] == u);
    assert(has_id(post.users, u.id));
    assert forall|p: int, q: int| 0 <= p < q < post.users.len() implies post.users[p].id
        != post.users[q].id by {
        if q == n {
            assert(s.users[p].id < s.next_id);
        }
    }
    crate::model::lemma_idx_of_id_unique(post.users, u.id, n);
}

/// A second creation under an email the table already carries is rejected,
/// and the table holds exactly one row for that email.
pub proof fn lemma_duplicate_email_rejected(s: StoreModel, email: Seq<char>)
    requires
        s.wf(),
        has_email(s.users, email),
    ensures
        !s.create_ok(email),
        email_count(s.users, email) == 1,
{
    lemma_email_count_unique(s.users, email);
}

/// An update that sets no field resolves to the stored values: it cannot hit
/// the email-uniqueness check, keeps name, email, password and the creation
/// time, and refreshes `updated_at` to a value at least the prior one.
pub proof fn lemma_empty_update_refreshes_only_timestamp(s: StoreModel, id: u64)
    requires
        s.wf(),
        s.clock < u64::MAX,
        has_id(s.users, id),
    ensures
        ({
            let cur = user_of_id(s.users, id);
            let u = s.updated_user(id, cur.name, cur.email, cur.password);
            &&& !s.update_email_conflict(id, cur.email)
            &&& u.id == cur.id
            &&& u.name == cur.name
            &&& u.email == cur.email
            &&& u.password == cur.password
            &&& u.created_at == cur.created_at
            &&& u.updated_at >= cur.updated_at
        }),
{
    let w = choose|i: int| 0 <= i < s.users.len() && s.users[i].id == id;
    crate::model::lemma_idx_of_id_unique(s.users, id, w);
    assert(user_of_id(s.users, id).updated_at <= s.clock);
}

/// After a successful delete, looking the same id up finds nothing.
pub proof fn lemma_delete_then_find(s: StoreModel, id: u64)
    requires
        s.wf(),
        has_id(s.users, id),
    ensures
        !has_id(s.delete_post(id).users, id),
{
    let w = choose|i: int| 0 <= i < s.users.len() && s.users[i].id == id;
    crate::model::lemma_idx_of_id_unique(s.users, id, w);
    let post = s.delete_post(id).users;
    assert forall|j: int| 0 <= j < post.len() implies post[j].id != id by {
        if j < w {
            assert(post[j] == s.users[j]);
        } else {
            assert(post[j] == s.users[j + 1]);
        }
    }
}

/// The listing order is strict: in a well-formed store, reading the table
/// newest-first yields strictly decreasing creation times.
pub proof fn lemma_find_all_newest_first(s: StoreModel)
    requires
        s.wf(),
    ensures
        s.users.reverse().len() == s.users.len(),
        forall|i: int, j: int|
            0 <= i < j < s.users.len() ==> s.users.reverse()[i].created_at
                > s.users.reverse()[j].created_at,
{
    assert forall|i: int, j: int| 0 <= i < j < s.users.len() implies s.users.reverse()[i].created_at
        > s.users.reverse()[j].created_at by {
        let n = s.users.len() as int;
        assert(s.users.reverse()[i] == s.users[n - 1 - i]);
        assert(s.users.reverse()[j] == s.users[n - 1 - j]);
        assert(s.users[n - 1 - j].created_at < s.users[n - 1 - i].created_at);
    }
}

} // verus!
