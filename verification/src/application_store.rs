//! The application store: in-memory records of job applications. The
//! message and the status are mutable through two independent operations;
//! id, job, applicant and creation time never change after creation.

use vstd::prelude::*;

use crate::errors::ApiError;
use crate::models::Application;

verus! {

/// The status every application starts with.
pub open spec fn spec_default_status() -> Seq<char> {
    "pending"@
}

/// No two records share an id.
pub open spec fn application_ids_unique(apps: Seq<Application>) -> bool {
    forall|i: int, j: int| 0 <= i < j < apps.len() ==> apps[i].id != apps[j].id
}

/// Some record carries this id.
pub open spec fn has_application_id(apps: Seq<Application>, id: u64) -> bool {
    exists|i: int| 0 <= i < apps.len() && apps[i].id == id
}

/// The record carrying `id`, meaningful when `has_application_id` holds and
/// ids are unique.
pub open spec fn application_with_id(apps: Seq<Application>, id: u64) -> Application {
    apps[choose|i: int| 0 <= i < apps.len() && apps[i].id == id]
}

/// All records whose applicant is `user_id`, in stored order.
pub open spec fn applications_of_user(apps: Seq<Application>, user_id: u64) -> Seq<Application> {
    apps.filter(|a: Application| a.user_id == user_id)
}

pub struct ApplicationStore {
    apps: Vec<Application>,
    next_id: u64,
}

impl View for ApplicationStore {
    type V = Seq<Application>;

    closed spec fn view(&self) -> Seq<Application> {
        self.apps@
    }
}

impl ApplicationStore {
    /// The id the next created record will get.
    pub closed spec fn spec_next_id(&self) -> u64 {
        self.next_id
    }

    /// The store's invariant: ids unique and below the generator.
    pub open spec fn wf(&self) -> bool {
        &&& application_ids_unique(self@)
        &&& forall|i: int| 0 <= i < self@.len() ==> self@[i].id < self.spec_next_id()
    }

    pub fn new() -> (s: Self)
        ensures
            s@ == Seq::<Application>::empty(),
            s.wf(),
            s.spec_next_id() == 1,
    {
        ApplicationStore { apps: Vec::new(), next_id: 1 }
    }

    /// The index of the record carrying `id`, if any.
    fn index_of_id(&self, application_id: u64) -> (r: Option<usize>)
        ensures
            r matches Some(i) ==> i < self@.len() && self@[i as int].id == application_id,
            r is None ==> !has_application_id(self@, application_id),
    {
        let mut i: usize = 0;
        while i < self.apps.len()
            invariant
                i <= self@.len(),
                forall|j: int| 0 <= j < i ==> self@[j].id != application_id,
            decreases self@.len() - i,
        {
            if self.apps[i].id == application_id {
                return Some(i);
            }
            i = i + 1;
        }
        None
    }

    /// Stores a new application by `user_id` to `job_id`, with a fresh id,
    /// the default status and both timestamps set to `now`. Fails with
    /// `Internal` only when the id space is exhausted.
    pub fn create(
        &mut self,
        user_id: u64,
        job_id: u64,
        message: String,
        now: u64,
    ) -> (r: Result<Application, ApiError>)
        requires
            old(self).wf(),
        ensures
            final(self).wf(),
            old(self).spec_next_id() < u64::MAX ==> r is Ok,
            r matches Ok(a) ==> ({
                &&& a.id == old(self).spec_next_id()
                &&& a.job_id == job_id
                &&& a.user_id == user_id
                &&& a.message == message
                &&& a.status@ == spec_default_status()
                &&& a.created_at == now
                &&& a.updated_at == now
                &&& final(self)@ == old(self)@.push(a)
                &&& final(self).spec_next_id() == old(self).spec_next_id() + 1
            }),
            r is Err ==> final(self)@ == old(self)@
                && final(self).spec_next_id() == old(self).spec_next_id()
                && r == Err::<Application, ApiError>(ApiError::Internal),
    {
        if self.next_id == u64::MAX {
            return Err(ApiError::Internal);
        }
        let status = new_default_status();
        let a = Application {
            id: self.next_id,
            job_id,
            user_id,
            message,
            status,
            created_at: now,
            updated_at: now,
        };
        let stored = a.clone();
        self.apps.push(a);
        self.next_id = self.next_id + 1;
        Ok(stored)
    }

    /// Looks a record up by id; fails with `NotFound` exactly when no record
    /// carries it.
    pub fn find_by_id(&self, application_id: u64) -> (r: Result<Application, ApiError>)
        requires
            self.wf(),
        ensures
            r is Ok <==> has_application_id(self@, application_id),
            r matches Ok(a) ==> self@.contains(a) && a.id == application_id
                && a == application_with_id(self@, application_id),
            r matches Err(e) ==> e == ApiError::NotFound,
    {
        match self.index_of_id(application_id) {
            Some(i) => {
                let a = self.apps[i].clone();
                proof {
                    assert(self@.contains(a)) by {
                        assert(self@[i as int] == a);
                    }
                    let k = choose|k: int| 0 <= k < self@.len() && self@[k].id == application_id;
                    assert(self@[k] == self@[i as int]) by {
                        if k != i as int {
                            assert(self@[k].id != self@[i as int].id);
                        }
                    }
                }
                Ok(a)
            },
            None => Err(ApiError::NotFound),
        }
    }

    /// Every record whose applicant is `user_id`, in stored order.
    pub fn find_by_user_id(&self, user_id: u64) -> (r: Vec<Application>)
        ensures
            r@ == applications_of_user(self@, user_id),
    {
        let mut found: Vec<Application> = Vec::new();
        let mut i: usize = 0;
        proof {
            assert(self@.take(0int) =~= Seq::<Application>::empty());
        }
        while i < self.apps.len()
            invariant
                i <= self@.len(),
                found@ == applications_of_user(self@.take(i as int), user_id),
            decreases self@.len() - i,
        {
            proof {
                broadcast use vstd::seq::Seq::lemma_filter_push;

                assert(self@.take(i + 1int) =~= self@.take(i as int).push(self@[i as int]));
            }
            if self.apps[i].user_id == user_id {
                found.push(self.apps[i].clone());
            }
            i = i + 1;
        }
        proof {
            assert(self@.take(self@.len() as int) =~= self@);
        }
        found
    }

    /// A copy of every record, in stored order.
    pub fn find_all(&self) -> (r: Vec<Application>)
        ensures
            r@ == self@,
    {
        let mut found: Vec<Application> = Vec::new();
        let mut i: usize = 0;
        while i < self.apps.len()
            invariant
                i <= self@.len(),
                found@ == self@.take(i as int),
            decreases self@.len() - i,
        {
            found.push(self.apps[i].clone());
            proof {
                assert(self@.take(i + 1int) =~= self@.take(i as int).push(self@[i as int]));
            }
            i = i + 1;
        }
        proof {
            assert(self@.take(self@.len() as int) =~= self@);
        }
        found
    }

    /// Replaces the message of the record carrying `application_id` and sets
    /// its `updated_at` to `now`; everything else is kept. Fails with
    /// `NotFound` exactly when no record carries the id.
    pub fn update(
        &mut self,
        application_id: u64,
        message: String,
        now: u64,
    ) -> (r: Result<Application, ApiError>)
        requires
            old(self).wf(),
        ensures
            final(self).wf(),
            final(self).spec_next_id() == old(self).spec_next_id(),
            r is Ok <==> has_application_id(old(self)@, application_id),
            r matches Err(e) ==> e == ApiError::NotFound && final(self)@ == old(self)@,
            r matches Ok(a) ==> ({
                &&& a.id == application_id
                &&& a.message == message
                &&& a.job_id == application_with_id(old(self)@, application_id).job_id
                &&& a.user_id == application_with_id(old(self)@, application_id).user_id
                &&& a.status == application_with_id(old(self)@, application_id).status
                &&& a.created_at == application_with_id(old(self)@, application_id).created_at
                &&& a.updated_at == now
                &&& exists|i: int|
                    0 <= i < old(self)@.len() && old(self)@[i].id == application_id
                        && final(self)@ == old(self)@.update(i, a)
            }),
    {
        match self.index_of_id(application_id) {
            Some(i) => {
                proof {
                    let k = choose|k: int| 0 <= k < self@.len() && self@[k].id == application_id;
                    assert(self@[k] == self@[i as int]) by {
                        if k != i as int {
                            assert(self@[k].id != self@[i as int].id);
                        }
                    }
                }
                let a = Application {
                    id: self.apps[i].id,
                    job_id: self.apps[i].job_id,
                    user_id: self.apps[i].user_id,
                    message,
                    status: self.apps[i].status.clone(),
                    created_at: self.apps[i].created_at,
                    updated_at: now,
                };
                let stored = a.clone();
                self.apps[i] = a;
                Ok(stored)
            },
            None => Err(ApiError::NotFound),
        }
    }

    /// Replaces the status of the record carrying `application_id` and sets
    /// its `updated_at` to `now`; everything else, the message included, is
    /// kept. Fails with `NotFound` exactly when no record carries the id.
    pub fn update_status(
        &mut self,
        application_id: u64,
        status: String,
        now: u64,
    ) -> (r: Result<Application, ApiError>)
        requires
            old(self).wf(),
        ensures
            final(self).wf(),
            final(self).spec_next_id() == old(self).spec_next_id(),
            r is Ok <==> has_application_id(old(self)@, application_id),
            r matches Err(e) ==> e == ApiError::NotFound && final(self)@ == old(self)@,
            r matches Ok(a) ==> ({
                &&& a.id == application_id
                &&& a.status == status
                &&& a.job_id == application_with_id(old(self)@, application_id).job_id
                &&& a.user_id == application_with_id(old(self)@, application_id).user_id
                &&& a.message == application_with_id(old(self)@, application_id).message
                &&& a.created_at == application_with_id(old(self)@, application_id).created_at
                &&& a.updated_at == now
                &&& exists|i: int|
                    0 <= i < old(self)@.len() && old(self)@[i].id == application_id
                        && final(self)@ == old(self)@.update(i, a)
            }),
    {
        match self.index_of_id(application_id) {
            Some(i) => {
                proof {
                    let k = choose|k: int| 0 <= k < self@.len() && self@[k].id == application_id;
                    assert(self@[k] == self@[i as int]) by {
                        if k != i as int {
                            assert(self@[k].id != self@[i as int].id);
                        }
                    }
                }
                let a = Application {
                    id: self.apps[i].id,
                    job_id: self.apps[i].job_id,
                    user_id: self.apps[i].user_id,
                    message: self.apps[i].message.clone(),
                    status,
                    created_at: self.apps[i].created_at,
                    updated_at: now,
                };
                let stored = a.clone();
                self.apps[i] = a;
                Ok(stored)
            },
            None => Err(ApiError::NotFound),
        }
    }

    /// Removes the record carrying `application_id` if there is one;
    /// removing a missing id is a successful no-op, so deletion is
    /// idempotent.
    pub fn delete(&mut self, application_id: u64)
        requires
            old(self).wf(),
        ensures
            final(self).wf(),
            final(self).spec_next_id() == old(self).spec_next_id(),
            !has_application_id(old(self)@, application_id) ==> final(self)@ == old(self)@,
            has_application_id(old(self)@, application_id) ==> exists|i: int|
                0 <= i < old(self)@.len() && old(self)@[i].id == application_id
                    && final(self)@ == old(self)@.remove(i),
            !has_application_id(final(self)@, application_id),
    {
        match self.index_of_id(application_id) {
            Some(i) => {
                self.apps.remove(i);
                proof {
                    assert forall|j: int| 0 <= j < self@.len() implies self@[j].id != application_id by {
                        if j < i {
                            assert(self@[j] == old(self)@[j]);
                        } else {
                            assert(self@[j] == old(self)@[j + 1]);
                        }
                    }
                }
            },
            None => {},
        }
    }
}

/// The default status as a fresh string.
fn new_default_status() -> (s: String)
    ensures
        s@ == spec_default_status(),
{
    let s = String::from_str("pending");
    proof {
        reveal_strlit("pending");
    }
    s
}

} // verus!
