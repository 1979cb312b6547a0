//! The user store: the repository the orchestrator runs against. It is keyed
//! by unique username, email and id, and its insert is atomic — the single
//! serialization point that uniqueness rests on.

use vstd::prelude::*;

use crate::domain::{CreateUser, User};

verus! {

/// The repository's own error kinds.
#[derive(Clone, Copy, PartialEq, Eq, Structural, Debug)]
pub enum StoreError {
    /// The username or the email is already taken by an existing row.
    UniqueViolation,
    /// The generated id collides with an existing row's id.
    IdConflict,
}

/// A store of user rows with unique usernames, emails and ids.
pub struct UserStore {
    users: Vec<User>,
}

impl View for UserStore {
    type V = Seq<User>;

    closed spec fn view(&self) -> Seq<User> {
        self.users@
    }
}

/// How many of the rows in `s` use `username` or `email`.
pub open spec fn count_matches(s: Seq<User>, username: Seq<char>, email: Seq<char>) -> nat
    decreases s.len(),
{
    if s.len() == 0 {
        0
    } else {
        count_matches(s.drop_last(), username, email) + if s.last().username@ == username
            || s.last().email@ == email {
            1nat
        } else {
            0nat
        }
    }
}

impl UserStore {
    /// No two rows share a username, an email or an id.
    pub open spec fn wf(&self) -> bool {
        forall|i: int, j: int|
            0 <= i < j < self@.len() ==> (#[trigger] self@[i]).username@ != (
            #[trigger] self@[j]).username@ && self@[i].email@ != self@[j].email@ && self@[i].id@
                != self@[j].id@
    }

    /// Some row uses this username.
    pub open spec fn contains_username(&self, username: Seq<char>) -> bool {
        exists|i: int| 0 <= i < self@.len() && (#[trigger] self@[i]).username@ == username
    }

    /// Some row uses this email.
    pub open spec fn contains_email(&self, email: Seq<char>) -> bool {
        exists|i: int| 0 <= i < self@.len() && (#[trigger] self@[i]).email@ == email
    }

    /// Some row uses this id.
    pub open spec fn contains_id(&self, id: Seq<char>) -> bool {
        exists|i: int| 0 <= i < self@.len() && (#[trigger] self@[i]).id@ == id
    }

    /// The username or the email is already in use.
    pub open spec fn taken(&self, username: Seq<char>, email: Seq<char>) -> bool {
        self.contains_username(username) || self.contains_email(email)
    }

    /// The row using this username, if any.
    pub open spec fn spec_find(&self, username: Seq<char>) -> Option<User> {
        if self.contains_username(username) {
            Some(
                self@[choose|i: int|
                    0 <= i < self@.len() && (#[trigger] self@[i]).username@ == username],
            )
        } else {
            None
        }
    }

    /// An empty store.
    pub fn new() -> (r: UserStore)
        ensures
            r@ == Seq::<User>::empty(),
            r.wf(),
    {
        UserStore { users: Vec::new() }
    }

    /// How many rows are stored.
    pub fn len(&self) -> (r: usize)
        ensures
            r == self@.len(),
    {
        self.users.len()
    }

    /// How many rows use `username` or `email`; the existence pre-check of
    /// registration.
    #[verifier::loop_isolation(false)]
    pub fn user_exists_by_username_or_email(&self, username: &str, email: &str) -> (r: usize)
        ensures
            r == count_matches(self@, username@, email@),
            r == 0 <==> !self.taken(username@, email@),
    {
        let username_key = username.to_owned();
        let email_key = email.to_owned();
        let mut count: usize = 0;
        let mut i: usize = 0;
        while i < self.users.len()
            invariant
                i <= self@.len(),
                count == count_matches(self@.take(i as int), username@, email@),
                count <= i,
            decreases self@.len() - i,
        {
            if self.users[i].username == username_key || self.users[i].email == email_key {
                count = count + 1;
            }
            proof {
                assert(self@.take(i + 1).drop_last() =~= self@.take(i as int));
                assert(self@.take(i + 1).last() == self@[i as int]);
            }
            i = i + 1;
        }
        proof {
            assert(self@.take(self@.len() as int) =~= self@);
            lemma_count_zero(self@, username@, email@);
        }
        count
    }

    /// Looks a row up by username.
    #[verifier::loop_isolation(false)]
    pub fn find_user_by_username(&self, username: &str) -> (r: Option<User>)
        requires
            self.wf(),
        ensures
            r == self.spec_find(username@),
            r is Some <==> self.contains_username(username@),
    {
        let username_key = username.to_owned();
        let mut i: usize = 0;
        while i < self.users.len()
            invariant
                i <= self@.len(),
                forall|k: int| 0 <= k < i ==> (#[trigger] self@[k]).username@ != username@,
            decreases self@.len() - i,
        {
            if self.users[i].username == username_key {
                let found = self.users[i].duplicate();
                proof {
                    let w = choose|k: int|
                        0 <= k < self@.len() && (#[trigger] self@[k]).username@ == username@;
                    assert(self@[i as int].username@ == username@);
                    if w != i as int {
                        assert(self@[w].username@ != self@[i as int].username@);
                    }
                }
                return Some(found);
            }
            i = i + 1;
        }
        None
    }

    /// Inserts a row with the given id, or reports which uniqueness constraint
    /// the insert would break. The check and the insert are one atomic step.
    #[verifier::loop_isolation(false)]
    pub fn insert_user(&mut self, user_input: CreateUser, id: String, now: i64) -> (r: Result<
        User,
        StoreError,
    >)
        requires
            old(self).wf(),
        ensures
            final(self).wf(),
            match r {
                Ok(u) => !old(self).taken(user_input.username@, user_input.email@) && !old(
                    self,
                ).contains_id(id@) && u == (User {
                    id,
                    username: user_input.username,
                    email: user_input.email,
                    password_hash: user_input.password,
                    created_at: now,
                    updated_at: now,
                }) && final(self)@ == old(self)@.push(u),
                Err(StoreError::UniqueViolation) => old(self).taken(
                    user_input.username@,
                    user_input.email@,
                ) && final(self)@ == old(self)@,
                Err(StoreError::IdConflict) => !old(self).taken(
                    user_input.username@,
                    user_input.email@,
                ) && old(self).contains_id(id@) && final(self)@ == old(self)@,
            },
    {
        let mut name_taken = false;
        let mut id_taken = false;
        let mut i: usize = 0;
        while i < self.users.len()
            invariant
                i <= self@.len(),
                name_taken <==> exists|k: int|
                    0 <= k < i && ((#[trigger] self@[k]).username@ == user_input.username@
                        || self@[k].email@ == user_input.email@),
                id_taken <==> exists|k: int| 0 <= k < i && (#[trigger] self@[k]).id@ == id@,
            decreases self@.len() - i,
        {
            if self.users[i].username == user_input.username || self.users[i].email
                == user_input.email {
                name_taken = true;
            }
            if self.users[i].id == id {
                id_taken = true;
            }
            i = i + 1;
        }
        if name_taken {
            return Err(StoreError::UniqueViolation);
        }
        if id_taken {
            return Err(StoreError::IdConflict);
        }
        let user = User {
            id,
            username: user_input.username,
            email: user_input.email,
            password_hash: user_input.password,
            created_at: now,
            updated_at: now,
        };
        let result = user.duplicate();
        proof {
            let pre = self@;
            assert forall|a: int, b: int| 0 <= a < b < pre.push(user).len() implies (
            #[trigger] pre.push(user)[a]).username@ != (#[trigger] pre.push(user)[b]).username@
                && pre.push(user)[a].email@ != pre.push(user)[b].email@ && pre.push(user)[a].id@
                != pre.push(user)[b].id@ by {
                if b < pre.len() {
                    assert(pre.push(user)[a] == pre[a] && pre.push(user)[b] == pre[b]);
                } else {
                    assert(pre.push(user)[b] == user);
                    assert(pre.push(user)[a] == pre[a]);
                }
            }
        }
        self.users.push(user);
        Ok(result)
    }

    /// Generates a fresh id and inserts the row; the repository `create`
    /// operation of registration.
    pub fn create_user(&mut self, user_input: CreateUser, now: i64) -> (r: Result<
        User,
        StoreError,
    >)
        requires
            old(self).wf(),
        ensures
            final(self).wf(),
            match r {
                Ok(u) => !old(self).taken(user_input.username@, user_input.email@) && final(self)@
                    == old(self)@.push(u) && u.username == user_input.username && u.email == user_input.email
                    && u.password_hash == user_input.password && u.created_at == now
                    && u.updated_at == now && !old(self).contains_id(u.id@) && u.id@.len() == 36,
                Err(StoreError::UniqueViolation) => old(self).taken(
                    user_input.username@,
                    user_input.email@,
                ) && final(self)@ == old(self)@,
                Err(StoreError::IdConflict) => !old(self).taken(
                    user_input.username@,
                    user_input.email@,
                ) && final(self)@ == old(self)@,
            },
            old(self).taken(user_input.username@, user_input.email@) <==> r == Result::<
                User,
                StoreError,
            >::Err(StoreError::UniqueViolation),
    {
        let id = new_v4_string();
        self.insert_user(user_input, id, now)
    }
}

/// No row matches exactly when the match count is zero.
proof fn lemma_count_zero(s: Seq<User>, username: Seq<char>, email: Seq<char>)
    ensures
        count_matches(s, username, email) == 0 <==> !(exists|i: int|
            0 <= i < s.len() && ((#[trigger] s[i]).username@ == username || s[i].email@ == email)),
    decreases s.len(),
{
    if s.len() > 0 {
        lemma_count_zero(s.drop_last(), username, email);
        if count_matches(s, username, email) == 0 {
            assert forall|i: int|
                0 <= i < s.len() implies !((#[trigger] s[i]).username@ == username || s[i].email@
                == email) by {
                if i < s.len() - 1 {
                    assert(s.drop_last()[i] == s[i]);
                } else {
                    assert(s.last() == s[i]);
                }
            }
        } else {
            if count_matches(s.drop_last(), username, email) > 0 {
                let i = choose|i: int|
                    0 <= i < s.drop_last().len() && ((#[trigger] s.drop_last()[i]).username@
                        == username || s.drop_last()[i].email@ == email);
                assert(s[i] == s.drop_last()[i]);
            } else {
                assert(s.last() == s[s.len() - 1]);
            }
        }
    }
}

/// Relies on `uuid`'s `Uuid::new_v4` and its `Display` impl: a fresh random
/// version-4 UUID, written in the 36-character hyphenated form.
#[verifier::external_body]
fn new_v4_string() -> (r: String)
    ensures
        r@.len() == 36,
{
    uuid::Uuid::new_v4().to_string()
}

} // verus!
