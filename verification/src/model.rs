//! The user store: a single table of user records with a unique-email
//! constraint, server-assigned identifiers and trigger-style timestamps.
use vstd::prelude::*;
use vstd::string::StringExecFns;

verus! {

/// Abstract value of one user row.
#[verifier::ext_equal]
pub ghost struct UserModel {
    pub id: u64,
    pub name: Seq<char>,
    pub email: Seq<char>,
    pub password: Seq<char>,
    pub created_at: u64,
    pub updated_at: u64,
}

/// One user row as callers see it.
#[derive(Debug)]
pub struct User {
    pub id: u64,
    pub name: String,
    pub email: String,
    pub password: String,
    pub created_at: u64,
    pub updated_at: u64,
}

impl View for User {
    type V = UserModel;

    open spec fn view(&self) -> UserModel {
        UserModel {
            id: self.id,
            name: self.name@,
            email: self.email@,
            password: self.password@,
            created_at: self.created_at,
            updated_at: self.updated_at,
        }
    }
}

impl DeepView for User {
    type V = UserModel;

    open spec fn deep_view(&self) -> UserModel {
        self.view()
    }
}

impl Clone for User {
    fn clone(&self) -> (res: Self)
        ensures
            res@ == self@,
    {
        User {
            id: self.id,
            name: self.name.clone(),
            email: self.email.clone(),
            password: self.password.clone(),
            created_at: self.created_at,
            updated_at: self.updated_at,
        }
    }
}

/// Outcomes a store operation can fail with.
#[derive(Debug)]
pub enum UserError {
    /// No row carries the requested id.
    NotFound,
    /// The requested email is already taken by some row.
    EmailExists,
    /// An opaque backend failure, carrying its message.
    Database(String),
}

impl UserError {
    /// The message this error surfaces to a caller.
    pub fn message(&self) -> (r: String)
        ensures
            self is NotFound ==> r@ == "用户不存在"@,
            self is EmailExists ==> r@ == "邮箱已存在"@,
            self matches UserError::Database(m) ==> r@ == "数据库错误: "@ + m@,
    {
        match self {
            UserError::NotFound => "用户不存在".to_owned(),
            UserError::EmailExists => "邮箱已存在".to_owned(),
            UserError::Database(m) => {
                let mut s: String = "数据库错误: ".to_owned();
                s.append(m.as_str());
                s
            },
        }
    }
}

/// Fields of a creation request; every field is required.
pub struct CreateUserRequest {
    pub name: String,
    pub email: String,
    pub password: String,
}

/// A partial update: an unset field keeps the stored value.
pub struct UpdateUserRequest {
    pub name: Option<String>,
    pub email: Option<String>,
    pub password: Option<String>,
}

impl UpdateUserRequest {
    /// The name an update resolves to when the stored name is `cur`.
    pub open spec fn resolved_name(&self, cur: Seq<char>) -> Seq<char> {
        match self.name {
            Some(n) => n@,
            None => cur,
        }
    }

    /// The email an update resolves to when the stored email is `cur`.
    pub open spec fn resolved_email(&self, cur: Seq<char>) -> Seq<char> {
        match self.email {
            Some(e) => e@,
            None => cur,
        }
    }

    /// The password an update resolves to when the stored password is `cur`.
    pub open spec fn resolved_password(&self, cur: Seq<char>) -> Seq<char> {
        match self.password {
            Some(p) => p@,
            None => cur,
        }
    }
}

/// Abstract state of the whole store.
#[verifier::ext_equal]
pub ghost struct StoreModel {
    /// Rows in creation order (oldest first).
    pub users: Seq<UserModel>,
    /// Next identifier handed out on creation.
    pub next_id: u64,
    /// Logical time of the latest write; timestamps are drawn from it.
    pub clock: u64,
}

/// Some row carries this id.
pub open spec fn has_id(users: Seq<UserModel>, id: u64) -> bool {
    exists|i: int| 0 <= i < users.len() && users[i].id == id
}

/// Index of the row carrying this id (meaningful when ids are unique).
pub open spec fn idx_of_id(users: Seq<UserModel>, id: u64) -> int {
    choose|i: int| 0 <= i < users.len() && users[i].id == id
}

/// The row carrying this id.
pub open spec fn user_of_id(users: Seq<UserModel>, id: u64) -> UserModel {
    users[idx_of_id(users, id)]
}

/// Some row carries this email.
pub open spec fn has_email(users: Seq<UserModel>, email: Seq<char>) -> bool {
    exists|i: int| 0 <= i < users.len() && users[i].email == email
}

/// Index of the row carrying this email (meaningful when emails are unique).
pub open spec fn idx_of_email(users: Seq<UserModel>, email: Seq<char>) -> int {
    choose|i: int| 0 <= i < users.len() && users[i].email == email
}

/// The row carrying this email.
pub open spec fn user_of_email(users: Seq<UserModel>, email: Seq<char>) -> UserModel {
    users[idx_of_email(users, email)]
}

impl StoreModel {
    /// The store's invariant: one row per id, emails unique across the table,
    /// rows ordered by strictly increasing creation time, every timestamp
    /// drawn from the logical clock, and `updated_at >= created_at` on every row.
    pub open spec fn wf(self) -> bool {
        &&& forall|i: int, j: int|
            0 <= i < j < self.users.len() ==> self.users[i].id != self.users[j].id
        &&& forall|i: int, j: int|
            0 <= i < j < self.users.len() ==> self.users[i].email != self.users[j].email
        &&& forall|i: int, j: int|
            0 <= i < j < self.users.len()
                ==> self.users[i].created_at < self.users[j].created_at
        &&& forall|i: int|
            0 <= i < self.users.len() ==> #[trigger] self.users[i].id < self.next_id
        &&& forall|i: int|
            0 <= i < self.users.len()
                ==> (#[trigger] self.users[i].created_at) <= self.users[i].updated_at
                    <= self.clock
    }

    /// Creation succeeds exactly when no row already carries the email.
    pub open spec fn create_ok(self, email: Seq<char>) -> bool {
        !has_email(self.users, email)
    }

    /// The row a successful creation materializes: a fresh id and both
    /// timestamps drawn from the advanced clock.
    pub open spec fn created_user(
        self,
        name: Seq<char>,
        email: Seq<char>,
        password: Seq<char>,
    ) -> UserModel {
        UserModel {
            id: self.next_id,
            name,
            email,
            password,
            created_at: (self.clock + 1) as u64,
            updated_at: (self.clock + 1) as u64,
        }
    }

    /// The store after a successful creation: the new row appended, the id
    /// counter and the clock advanced.
    pub open spec fn create_post(
        self,
        name: Seq<char>,
        email: Seq<char>,
        password: Seq<char>,
    ) -> StoreModel {
        StoreModel {
            users: self.users.push(self.created_user(name, email, password)),
            next_id: (self.next_id + 1) as u64,
            clock: (self.clock + 1) as u64,
        }
    }

    /// Whether updating row `id` to the resolved email `email` trips the
    /// uniqueness check: the email changes and some row already carries it.
    pub open spec fn update_email_conflict(self, id: u64, email: Seq<char>) -> bool {
        email != user_of_id(self.users, id).email && has_email(self.users, email)
    }

    /// The row a successful update of `id` leaves behind: resolved fields,
    /// the creation time kept, `updated_at` drawn from the advanced clock.
    pub open spec fn updated_user(
        self,
        id: u64,
        name: Seq<char>,
        email: Seq<char>,
        password: Seq<char>,
    ) -> UserModel {
        UserModel {
            id,
            name,
            email,
            password,
            created_at: user_of_id(self.users, id).created_at,
            updated_at: (self.clock + 1) as u64,
        }
    }

    /// The store after a successful update: the row replaced in place, the
    /// clock advanced, the id counter untouched.
    pub open spec fn update_post(
        self,
        id: u64,
        name: Seq<char>,
        email: Seq<char>,
        password: Seq<char>,
    ) -> StoreModel {
        StoreModel {
            users: self.users.update(
                idx_of_id(self.users, id),
                self.updated_user(id, name, email, password),
            ),
            next_id: self.next_id,
            clock: (self.clock + 1) as u64,
        }
    }

    /// The store after a successful delete: the row removed, counters and
    /// clock untouched.
    pub open spec fn delete_post(self, id: u64) -> StoreModel {
        StoreModel {
            users: self.users.remove(idx_of_id(self.users, id)),
            next_id: self.next_id,
            clock: self.clock,
        }
    }
}

/// An in-memory user table with the semantics of the backing `users` table:
/// ids and timestamps are assigned by the store itself.
pub struct UserStore {
    users: Vec<User>,
    next_id: u64,
    clock: u64,
}

impl View for UserStore {
    type V = StoreModel;

    closed spec fn view(&self) -> StoreModel {
        StoreModel { users: self.users.deep_view(), next_id: self.next_id, clock: self.clock }
    }
}

impl UserStore {
    /// A fresh store with no rows.
    pub fn new() -> (store: UserStore)
        ensures
            store@.wf(),
            store@.users.len() == 0,
            store@.next_id == 1,
            store@.clock == 0,
    {
        UserStore { users: Vec::new(), next_id: 1, clock: 0 }
    }

    /// The logical clock's current value; timestamps never exceed it.
    pub fn clock(&self) -> (r: u64)
        ensures
            r == self@.clock,
    {
        self.clock
    }

    /// The id the next successful creation will assign.
    pub fn next_id(&self) -> (r: u64)
        ensures
            r == self@.next_id,
    {
        self.next_id
    }

    /// Index of the row carrying `user_id`, scanning in creation order.
    fn index_of_id(&self, user_id: u64) -> (r: Option<usize>)
        ensures
            match r {
                Some(i) => i < self@.users.len() && self@.users[i as int].id == user_id,
                None => !has_id(self@.users, user_id),
            },
    {
        let n = self.users.len();
        let mut i: usize = 0;
        while i < n
            invariant
                n == self@.users.len(),
                i <= n,
                forall|j: int| 0 <= j < i ==> self@.users[j].id != user_id,
            decreases n - i,
        {
            if self.users[i].id == user_id {
                return Some(i);
            }
            i += 1;
        }
        None
    }

    /// The row carrying `user_id`, or absence; never an error.
    pub fn find_by_id(&self, user_id: u64) -> (r: Option<User>)
        requires
            self@.wf(),
        ensures
            match r {
                Some(u) => has_id(self@.users, user_id) && u@ == user_of_id(
                    self@.users,
                    user_id,
                ),
                None => !has_id(self@.users, user_id),
            },
    {
        match self.index_of_id(user_id) {
            Some(i) => {
                proof {
                    lemma_idx_of_id_unique(self@.users, user_id, i as int);
                }
                Some(self.users[i].clone())
            },
            None => None,
        }
    }

    /// Creates a new user: fails with `EmailExists` when some row already
    /// carries the requested email, and otherwise appends a row whose id and
    /// timestamps the store assigns, returning that row.
    pub fn create(&mut self, user_data: &CreateUserRequest) -> (r: Result<User, UserError>)
        requires
            old(self)@.wf(),
            old(self)@.clock < u64::MAX,
            old(self)@.next_id < u64::MAX,
        ensures
            final(self)@.wf(),
            old(self)@.create_ok(user_data.email@) ==> {
                &&& r matches Ok(u) && u@ == old(self)@.created_user(
                    user_data.name@,
                    user_data.email@,
                    user_data.password@,
                )
                &&& final(self)@ == old(self)@.create_post(
                    user_data.name@,
                    user_data.email@,
                    user_data.password@,
                )
            },
            !old(self)@.create_ok(user_data.email@) ==> {
                &&& r matches Err(e) && e is EmailExists
                &&& final(self)@ == old(self)@
            },
    {
        if self.find_by_email(&user_data.email).is_some() {
            return Err(UserError::EmailExists);
        }
        self.clock = self.clock + 1;
        let user = User {
            id: self.next_id,
            name: user_data.name.clone(),
            email: user_data.email.clone(),
            password: user_data.password.clone(),
            created_at: self.clock,
            updated_at: self.clock,
        };
        self.next_id = self.next_id + 1;
        let row = user.clone();
        self.users.push(row);
        proof {
            let pre = old(self)@;
            let post = pre.create_post(user_data.name@, user_data.email@, user_data.password@);
            assert(self@.users =~= post.users);
            assert(self@ =~= post);
            assert forall|i: int, j: int| 0 <= i < j < post.users.len() implies post.users[i].email
                != post.users[j].email by {
                if j == post.users.len() - 1 {
                    assert(!has_email(pre.users, user_data.email@));
                    assert(pre.users[i].email != user_data.email@);
                }
            }
            assert(post.wf());
        }
        Ok(user)
    }

    /// Index of the row carrying `email`, scanning in creation order.
    fn index_of_email(&self, email: &String) -> (r: Option<usize>)
        ensures
            match r {
                Some(i) => i < self@.users.len() && self@.users[i as int].email == email@,
                None => !has_email(self@.users, email@),
            },
    {
        let n = self.users.len();
        let mut i: usize = 0;
        while i < n
            invariant
                n == self@.users.len(),
                i <= n,
                forall|j: int| 0 <= j < i ==> self@.users[j].email != email@,
            decreases n - i,
        {
            if self.users[i].email == *email {
                return Some(i);
            }
            i += 1;
        }
        None
    }

    /// The row carrying `email`, or absence; the primitive behind the
    /// uniqueness checks of `create` and `update`.
    pub fn find_by_email(&self, email: &String) -> (r: Option<User>)
        requires
            self@.wf(),
        ensures
            match r {
                Some(u) => has_email(self@.users, email@) && u@ == user_of_email(
                    self@.users,
                    email@,
                ),
                None => !has_email(self@.users, email@),
            },
    {
        match self.index_of_email(email) {
            Some(i) => {
                proof {
                    lemma_idx_of_email_unique(self@.users, email@, i as int);
                }
                Some(self.users[i].clone())
            },
            None => None,
        }
    }

    /// Every row, newest creation first.
    pub fn find_all(&self) -> (r: Vec<User>)
        ensures
            r.deep_view().len() == self@.users.len(),
            forall|i: int|
                0 <= i < r.deep_view().len() ==> r.deep_view()[i] == self@.users[self@.users.len()
                    - 1 - i],
    {
        let mut out: Vec<User> = Vec::new();
        let mut i: usize = self.users.len();
        while i > 0
            invariant
                i <= self@.users.len(),
                out.deep_view().len() == self@.users.len() - i,
                forall|j: int|
                    0 <= j < out.deep_view().len() ==> out.deep_view()[j] == self@.users[self@.users.len() - 1 - j],
            decreases i,
        {
            i -= 1;
            let ghost prev = out.deep_view();
            out.push(self.users[i].clone());
            proof {
                assert(out.deep_view() =~= prev.push(self@.users[i as int]));
            }
        }
        out
    }

    /// Updates row `user_id` from a partial request: fails with `NotFound`
    /// when the id is absent, resolves each unset field to the stored value,
    /// fails with `EmailExists` when the resolved email changes to one some
    /// row already carries, and otherwise replaces the row, refreshing its
    /// `updated_at`, and returns it.
    pub fn update(&mut self, user_id: u64, update_data: &UpdateUserRequest) -> (r: Result<
        User,
        UserError,
    >)
        requires
            old(self)@.wf(),
            old(self)@.clock < u64::MAX,
        ensures
            final(self)@.wf(),
            !has_id(old(self)@.users, user_id) ==> {
                &&& r matches Err(e) && e is NotFound
                &&& final(self)@ == old(self)@
            },
            has_id(old(self)@.users, user_id) ==> {
                let cur = user_of_id(old(self)@.users, user_id);
                let nm = update_data.resolved_name(cur.name);
                let em = update_data.resolved_email(cur.email);
                let pw = update_data.resolved_password(cur.password);
                &&& old(self)@.update_email_conflict(user_id, em) ==> {
                    &&& r matches Err(e) && e is EmailExists
                    &&& final(self)@ == old(self)@
                }
                &&& !old(self)@.update_email_conflict(user_id, em) ==> {
                    &&& r matches Ok(u) && u@ == old(self)@.updated_user(user_id, nm, em, pw)
                    &&& final(self)@ == old(self)@.update_post(user_id, nm, em, pw)
                }
            },
    {
        let idx = match self.index_of_id(user_id) {
            Some(i) => i,
            None => { return Err(UserError::NotFound) },
        };
        proof {
            lemma_idx_of_id_unique(self@.users, user_id, idx as int);
        }
        let name = match &update_data.name {
            Some(n) => n.clone(),
            None => self.users[idx].name.clone(),
        };
        let email = match &update_data.email {
            Some(e) => e.clone(),
            None => self.users[idx].email.clone(),
        };
        let password = match &update_data.password {
            Some(p) => p.clone(),
            None => self.users[idx].password.clone(),
        };
        if !(email == self.users[idx].email) {
            if self.find_by_email(&email).is_some() {
                return Err(UserError::EmailExists);
            }
        }
        self.clock = self.clock + 1;
        let user = User {
            id: user_id,
            name,
            email,
            password,
            created_at: self.users[idx].created_at,
            updated_at: self.clock,
        };
        let row = user.clone();
        self.users.set(idx, row);
        proof {
            let pre = old(self)@;
            let cur = user_of_id(pre.users, user_id);
            let nm = update_data.resolved_name(cur.name);
            let em = update_data.resolved_email(cur.email);
            let pw = update_data.resolved_password(cur.password);
            let post = pre.update_post(user_id, nm, em, pw);
            assert(self@.users =~= post.users);
            assert(self@ =~= post);
            assert forall|i: int, j: int| 0 <= i < j < post.users.len() implies post.users[i].email
                != post.users[j].email by {
                if em != cur.email {
                    assert(!has_email(pre.users, em));
                    if i != idx && j != idx {
                        assert(pre.users[i].email != pre.users[j].email);
                    } else if i == idx {
                        assert(pre.users[j].email != em);
                    } else {
                        assert(pre.users[i].email != em);
                    }
                } else {
                    assert(pre.users[i].email != pre.users[j].email);
                }
            }
            assert(post.wf());
        }
        Ok(user)
    }

    /// Deletes row `user_id`: fails with `NotFound` when the id is absent,
    /// and otherwise removes exactly that row.
    pub fn delete(&mut self, user_id: u64) -> (r: Result<(), UserError>)
        requires
            old(self)@.wf(),
        ensures
            final(self)@.wf(),
            !has_id(old(self)@.users, user_id) ==> {
                &&& r matches Err(e) && e is NotFound
                &&& final(self)@ == old(self)@
            },
            has_id(old(self)@.users, user_id) ==> {
                &&& r is Ok
                &&& final(self)@ == old(self)@.delete_post(user_id)
            },
    {
        let idx = match self.index_of_id(user_id) {
            Some(i) => i,
            None => { return Err(UserError::NotFound) },
        };
        proof {
            lemma_idx_of_id_unique(self@.users, user_id, idx as int);
        }
        self.users.remove(idx);
        proof {
            let pre = old(self)@;
            let post = pre.delete_post(user_id);
            assert(self@.users =~= post.users);
            assert(self@ =~= post);
            assert(post.wf());
        }
        Ok(())
    }
}

/// When ids are pairwise distinct, the index chosen for an id is the only
/// position that carries it.
pub proof fn lemma_idx_of_id_unique(users: Seq<UserModel>, id: u64, i: int)
    requires
        forall|p: int, q: int| 0 <= p < q < users.len() ==> users[p].id != users[q].id,
        0 <= i < users.len(),
        users[i].id == id,
    ensures
        idx_of_id(users, id) == i,
{
    assert(has_id(users, id));
    let k = idx_of_id(users, id);
    assert(0 <= k < users.len() && users[k].id == id);
    if k < i {
        assert(users[k].id != users[i].id);
    } else if i < k {
        assert(users[i].id != users[k].id);
    }
}

/// When emails are pairwise distinct, the index chosen for an email is the
/// only position that carries it.
pub proof fn lemma_idx_of_email_unique(users: Seq<UserModel>, email: Seq<char>, i: int)
    requires
        forall|p: int, q: int| 0 <= p < q < users.len() ==> users[p].email != users[q].email,
        0 <= i < users.len(),
        users[i].email == email,
    ensures
        idx_of_email(users, email) == i,
{
    assert(has_email(users, email));
    let k = idx_of_email(users, email);
    assert(0 <= k < users.len() && users[k].email == email);
    if k < i {
        assert(users[k].email != users[i].email);
    } else if i < k {
        assert(users[i].email != users[k].email);
    }
}

} // verus!
