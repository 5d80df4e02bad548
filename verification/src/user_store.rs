//! The user store: an in-memory record set with the contracts the rest of
//! the system relies on — server-generated unique ids, one account per
//! email, and idempotent deletion.

use vstd::prelude::*;

use crate::errors::ApiError;
use crate::models::User;

verus! {

/// No two records share an id.
pub open spec fn user_ids_unique(users: Seq<User>) -> bool {
    forall|i: int, j: int| 0 <= i < j < users.len() ==> users[i].id != users[j].id
}

/// No two records share an email.
pub open spec fn user_emails_unique(users: Seq<User>) -> bool {
    forall|i: int, j: int| 0 <= i < j < users.len() ==> users[i].email@ != users[j].email@
}

/// Some record carries this email.
pub open spec fn has_email(users: Seq<User>, email: Seq<char>) -> bool {
    exists|i: int| 0 <= i < users.len() && users[i].email@ == email
}

/// Some record carries this id.
pub open spec fn has_user_id(users: Seq<User>, id: u64) -> bool {
    exists|i: int| 0 <= i < users.len() && users[i].id == id
}

/// The record carrying `email`, meaningful when `has_email` holds and emails
/// are unique.
pub open spec fn user_with_email(users: Seq<User>, email: Seq<char>) -> User {
    users[choose|i: int| 0 <= i < users.len() && users[i].email@ == email]
}

/// The record carrying `id`, meaningful when `has_user_id` holds and ids are
/// unique.
pub open spec fn user_with_id(users: Seq<User>, id: u64) -> User {
    users[choose|i: int| 0 <= i < users.len() && users[i].id == id]
}

pub struct UserStore {
    users: Vec<User>,
    next_id: u64,
}

impl View for UserStore {
    type V = Seq<User>;

    closed spec fn view(&self) -> Seq<User> {
        self.users@
    }
}

impl UserStore {
    /// The id the next created record will get.
    pub closed spec fn spec_next_id(&self) -> u64 {
        self.next_id
    }

    /// The store's invariant: ids unique and below the generator, emails
    /// unique.
    pub open spec fn wf(&self) -> bool {
        &&& user_ids_unique(self@)
        &&& user_emails_unique(self@)
        &&& forall|i: int| 0 <= i < self@.len() ==> self@[i].id < self.spec_next_id()
    }

    pub fn new() -> (s: Self)
        ensures
            s@ == Seq::<User>::empty(),
            s.wf(),
            s.spec_next_id() == 1,
    {
        UserStore { users: Vec::new(), next_id: 1 }
    }

    /// The index of the record carrying `email`, if any.
    fn index_of_email(&self, email: &String) -> (r: Option<usize>)
        ensures
            r matches Some(i) ==> i < self@.len() && self@[i as int].email@ == email@,
            r is None ==> !has_email(self@, email@),
    {
        let mut i: usize = 0;
        while i < self.users.len()
            invariant
                i <= self@.len(),
                forall|j: int| 0 <= j < i ==> self@[j].email@ != email@,
            decreases self@.len() - i,
        {
            if self.users[i].email == *email {
                return Some(i);
            }
            i = i + 1;
        }
        None
    }

    /// The index of the record carrying `id`, if any.
    fn index_of_id(&self, user_id: u64) -> (r: Option<usize>)
        ensures
            r matches Some(i) ==> i < self@.len() && self@[i as int].id == user_id,
            r is None ==> !has_user_id(self@, user_id),
    {
        let mut i: usize = 0;
        while i < self.users.len()
            invariant
                i <= self@.len(),
                forall|j: int| 0 <= j < i ==> self@[j].id != user_id,
            decreases self@.len() - i,
        {
            if self.users[i].id == user_id {
                return Some(i);
            }
            i = i + 1;
        }
        None
    }

    /// Stores a new record with a fresh id and both timestamps set to `now`.
    /// Fails with `Conflict` exactly when the email is already taken, and
    /// with `Internal` only when the id space is exhausted.
    pub fn create(
        &mut self,
        username: String,
        email: String,
        password_hash: String,
        role: String,
        now: u64,
    ) -> (r: Result<User, ApiError>)
        requires
            old(self).wf(),
        ensures
            final(self).wf(),
            has_email(old(self)@, email@) ==> r == Err::<User, ApiError>(ApiError::Conflict),
            !has_email(old(self)@, email@) && old(self).spec_next_id() < u64::MAX ==> r is Ok,
            r matches Ok(u) ==> ({
                &&& u.id == old(self).spec_next_id()
                &&& u.username == username
                &&& u.email == email
                &&& u.password_hash == password_hash
                &&& u.role == role
                &&& u.created_at == now
                &&& u.updated_at == now
                &&& final(self)@ == old(self)@.push(u)
                &&& final(self).spec_next_id() == old(self).spec_next_id() + 1
            }),
            r matches Err(e) ==> final(self)@ == old(self)@
                && final(self).spec_next_id() == old(self).spec_next_id()
                && (e == ApiError::Conflict <==> has_email(old(self)@, email@))
                && (e == ApiError::Conflict || e == ApiError::Internal),
    {
        if self.index_of_email(&email).is_some() {
            return Err(ApiError::Conflict);
        }
        if self.next_id == u64::MAX {
            return Err(ApiError::Internal);
        }
        let u = User {
            id: self.next_id,
            username,
            email,
            password_hash,
            role,
            created_at: now,
            updated_at: now,
        };
        let stored = u.clone();
        self.users.push(u);
        self.next_id = self.next_id + 1;
        Ok(stored)
    }

    /// Looks a record up by email; fails with `NotFound` exactly when no
    /// record carries it.
    pub fn find_by_email(&self, email: &String) -> (r: Result<User, ApiError>)
        requires
            self.wf(),
        ensures
            r is Ok <==> has_email(self@, email@),
            r matches Ok(u) ==> self@.contains(u) && u.email@ == email@
                && u == user_with_email(self@, email@),
            r matches Err(e) ==> e == ApiError::NotFound,
    {
        match self.index_of_email(email) {
            Some(i) => {
                let u = self.users[i].clone();
                proof {
                    assert(self@.contains(u)) by {
                        assert(self@[i as int] == u);
                    }
                    let k = choose|k: int| 0 <= k < self@.len() && self@[k].email@ == email@;
                    assert(self@[k] == self@[i as int]) by {
                        if k != i as int {
                            assert(self@[k].email@ != self@[i as int].email@);
                        }
                    }
                }
                Ok(u)
            },
            None => Err(ApiError::NotFound),
        }
    }

    /// Looks a record up by id; fails with `NotFound` exactly when no record
    /// carries it.
    pub fn find_by_id(&self, user_id: u64) -> (r: Result<User, ApiError>)
        requires
            self.wf(),
        ensures
            r is Ok <==> has_user_id(self@, user_id),
            r matches Ok(u) ==> self@.contains(u) && u.id == user_id
                && u == user_with_id(self@, user_id),
            r matches Err(e) ==> e == ApiError::NotFound,
    {
        match self.index_of_id(user_id) {
            Some(i) => {
                let u = self.users[i].clone();
                proof {
                    assert(self@.contains(u)) by {
                        assert(self@[i as int] == u);
                    }
                    let k = choose|k: int| 0 <= k < self@.len() && self@[k].id == user_id;
                    assert(self@[k] == self@[i as int]) by {
                        if k != i as int {
                            assert(self@[k].id != self@[i as int].id);
                        }
                    }
                }
                Ok(u)
            },
            None => Err(ApiError::NotFound),
        }
    }

    /// Removes the record carrying `user_id` if there is one; removing a
    /// missing id is a successful no-op, so deletion is idempotent.
    pub fn delete(&mut self, user_id: u64)
        requires
            old(self).wf(),
        ensures
            final(self).wf(),
            final(self).spec_next_id() == old(self).spec_next_id(),
            !has_user_id(old(self)@, user_id) ==> final(self)@ == old(self)@,
            has_user_id(old(self)@, user_id) ==> exists|i: int|
                0 <= i < old(self)@.len() && old(self)@[i].id == user_id
                    && final(self)@ == old(self)@.remove(i),
            !has_user_id(final(self)@, user_id),
    {
        match self.index_of_id(user_id) {
            Some(i) => {
                self.users.remove(i);
                proof {
                    assert forall|j: int| 0 <= j < self@.len() implies self@[j].id != user_id by {
                        if j < i {
                            assert(self@[j] == old(self)@[j]);
                        } else {
                            assert(self@[j] == old(self)@[j + 1]);
                        }
                    }
                }
            },
            None => {},
        }
    }
}

} // verus!
