//! The job store: in-memory records of job postings. Updates replace every
//! mutable field and bump `updated_at`; id, creator and creation time never
//! change after creation.

use vstd::prelude::*;

use crate::errors::ApiError;
use crate::models::Job;

verus! {

/// No two records share an id.
pub open spec fn job_ids_unique(jobs: Seq<Job>) -> bool {
    forall|i: int, j: int| 0 <= i < j < jobs.len() ==> jobs[i].id != jobs[j].id
}

/// Some record carries this id.
pub open spec fn has_job_id(jobs: Seq<Job>, id: u64) -> bool {
    exists|i: int| 0 <= i < jobs.len() && jobs[i].id == id
}

/// The record carrying `id`, meaningful when `has_job_id` holds and ids are
/// unique.
pub open spec fn job_with_id(jobs: Seq<Job>, id: u64) -> Job {
    jobs[choose|i: int| 0 <= i < jobs.len() && jobs[i].id == id]
}

/// All records whose `employer_id` is `user_id`, in stored order.
pub open spec fn jobs_of_employer(jobs: Seq<Job>, user_id: u64) -> Seq<Job> {
    jobs.filter(|j: Job| j.employer_id == user_id)
}

pub struct JobStore {
    jobs: Vec<Job>,
    next_id: u64,
}

impl View for JobStore {
    type V = Seq<Job>;

    closed spec fn view(&self) -> Seq<Job> {
        self.jobs@
    }
}

impl JobStore {
    /// The id the next created record will get.
    pub closed spec fn spec_next_id(&self) -> u64 {
        self.next_id
    }

    /// The store's invariant: ids unique and below the generator.
    pub open spec fn wf(&self) -> bool {
        &&& job_ids_unique(self@)
        &&& forall|i: int| 0 <= i < self@.len() ==> self@[i].id < self.spec_next_id()
    }

    pub fn new() -> (s: Self)
        ensures
            s@ == Seq::<Job>::empty(),
            s.wf(),
            s.spec_next_id() == 1,
    {
        JobStore { jobs: Vec::new(), next_id: 1 }
    }

    /// The index of the record carrying `id`, if any.
    fn index_of_id(&self, job_id: u64) -> (r: Option<usize>)
        ensures
            r matches Some(i) ==> i < self@.len() && self@[i as int].id == job_id,
            r is None ==> !has_job_id(self@, job_id),
    {
        let mut i: usize = 0;
        while i < self.jobs.len()
            invariant
                i <= self@.len(),
                forall|j: int| 0 <= j < i ==> self@[j].id != job_id,
            decreases self@.len() - i,
        {
            if self.jobs[i].id == job_id {
                return Some(i);
            }
            i = i + 1;
        }
        None
    }

    /// Stores a new posting created by `employer_id`, with a fresh id and
    /// both timestamps set to `now`. Fails with `Internal` only when the id
    /// space is exhausted.
    pub fn create(
        &mut self,
        employer_id: u64,
        title: String,
        description: String,
        location: String,
        salary: u64,
        category: String,
        now: u64,
    ) -> (r: Result<Job, ApiError>)
        requires
            old(self).wf(),
        ensures
            final(self).wf(),
            old(self).spec_next_id() < u64::MAX ==> r is Ok,
            r matches Ok(j) ==> ({
                &&& j.id == old(self).spec_next_id()
                &&& j.title == title
                &&& j.description == description
                &&& j.location == location
                &&& j.salary == salary
                &&& j.category == category
                &&& j.employer_id == employer_id
                &&& j.created_at == now
                &&& j.updated_at == now
                &&& final(self)@ == old(self)@.push(j)
                &&& final(self).spec_next_id() == old(self).spec_next_id() + 1
            }),
            r is Err ==> final(self)@ == old(self)@
                && final(self).spec_next_id() == old(self).spec_next_id()
                && r == Err::<Job, ApiError>(ApiError::Internal),
    {
        if self.next_id == u64::MAX {
            return Err(ApiError::Internal);
        }
        let j = Job {
            id: self.next_id,
            title,
            description,
            salary,
            location,
            category,
            employer_id,
            created_at: now,
            updated_at: now,
        };
        let stored = j.clone();
        self.jobs.push(j);
        self.next_id = self.next_id + 1;
        Ok(stored)
    }

    /// Looks a record up by id; fails with `NotFound` exactly when no record
    /// carries it.
    pub fn find_by_id(&self, job_id: u64) -> (r: Result<Job, ApiError>)
        requires
            self.wf(),
        ensures
            r is Ok <==> has_job_id(self@, job_id),
            r matches Ok(j) ==> self@.contains(j) && j.id == job_id
                && j == job_with_id(self@, job_id),
            r matches Err(e) ==> e == ApiError::NotFound,
    {
        match self.index_of_id(job_id) {
            Some(i) => {
                let j = self.jobs[i].clone();
                proof {
                    assert(self@.contains(j)) by {
                        assert(self@[i as int] == j);
                    }
                    let k = choose|k: int| 0 <= k < self@.len() && self@[k].id == job_id;
                    assert(self@[k] == self@[i as int]) by {
                        if k != i as int {
                            assert(self@[k].id != self@[i as int].id);
                        }
                    }
                }
                Ok(j)
            },
            None => Err(ApiError::NotFound),
        }
    }

    /// Every record whose creator is `user_id`, in stored order.
    pub fn find_by_user_id(&self, user_id: u64) -> (r: Vec<Job>)
        ensures
            r@ == jobs_of_employer(self@, user_id),
    {
        let mut found: Vec<Job> = Vec::new();
        let mut i: usize = 0;
        proof {
            assert(self@.take(0int) =~= Seq::<Job>::empty());
        }
        while i < self.jobs.len()
            invariant
                i <= self@.len(),
                found@ == jobs_of_employer(self@.take(i as int), user_id),
            decreases self@.len() - i,
        {
            proof {
                broadcast use vstd::seq::Seq::lemma_filter_push;

                assert(self@.take(i + 1int).drop_last() =~= self@.take(i as int));
                assert(self@.take(i + 1int).last() == self@[i as int]);
                assert(self@.take(i + 1int) =~= self@.take(i as int).push(self@[i as int]));
            }
            if self.jobs[i].employer_id == user_id {
                found.push(self.jobs[i].clone());
            }
            i = i + 1;
        }
        proof {
            assert(self@.take(self@.len() as int) =~= self@);
        }
        found
    }

    /// A copy of every record, in stored order.
    pub fn find_all(&self) -> (r: Vec<Job>)
        ensures
            r@ == self@,
    {
        let mut found: Vec<Job> = Vec::new();
        let mut i: usize = 0;
        while i < self.jobs.len()
            invariant
                i <= self@.len(),
                found@ == self@.take(i as int),
            decreases self@.len() - i,
        {
            found.push(self.jobs[i].clone());
            proof {
                assert(self@.take(i + 1int) =~= self@.take(i as int).push(self@[i as int]));
            }
            i = i + 1;
        }
        proof {
            assert(self@.take(self@.len() as int) =~= self@);
        }
        found
    }

    /// Replaces every mutable field of the record carrying `job_id` and sets
    /// its `updated_at` to `now`; id, creator and creation time are kept.
    /// Fails with `NotFound` exactly when no record carries the id.
    pub fn update(
        &mut self,
        job_id: u64,
        title: String,
        description: String,
        location: String,
        salary: u64,
        category: String,
        now: u64,
    ) -> (r: Result<Job, ApiError>)
        requires
            old(self).wf(),
        ensures
            final(self).wf(),
            final(self).spec_next_id() == old(self).spec_next_id(),
            r is Ok <==> has_job_id(old(self)@, job_id),
            r matches Err(e) ==> e == ApiError::NotFound && final(self)@ == old(self)@,
            r matches Ok(j) ==> ({
                &&& j.id == job_id
                &&& j.title == title
                &&& j.description == description
                &&& j.location == location
                &&& j.salary == salary
                &&& j.category == category
                &&& j.employer_id == job_with_id(old(self)@, job_id).employer_id
                &&& j.created_at == job_with_id(old(self)@, job_id).created_at
                &&& j.updated_at == now
                &&& exists|i: int|
                    0 <= i < old(self)@.len() && old(self)@[i].id == job_id
                        && final(self)@ == old(self)@.update(i, j)
            }),
    {
        match self.index_of_id(job_id) {
            Some(i) => {
                proof {
                    let k = choose|k: int| 0 <= k < self@.len() && self@[k].id == job_id;
                    assert(self@[k] == self@[i as int]) by {
                        if k != i as int {
                            assert(self@[k].id != self@[i as int].id);
                        }
                    }
                }
                let j = Job {
                    id: self.jobs[i].id,
                    title,
                    description,
                    salary,
                    location,
                    category,
                    employer_id: self.jobs[i].employer_id,
                    created_at: self.jobs[i].created_at,
                    updated_at: now,
                };
                let stored = j.clone();
                self.jobs[i] = j;
                Ok(stored)
            },
            None => Err(ApiError::NotFound),
        }
    }

    /// Removes the record carrying `job_id` if there is one; removing a
    /// missing id is a successful no-op, so deletion is idempotent.
    pub fn delete(&mut self, job_id: u64)
        requires
            old(self).wf(),
        ensures
            final(self).wf(),
            final(self).spec_next_id() == old(self).spec_next_id(),
            !has_job_id(old(self)@, job_id) ==> final(self)@ == old(self)@,
            has_job_id(old(self)@, job_id) ==> exists|i: int|
                0 <= i < old(self)@.len() && old(self)@[i].id == job_id
                    && final(self)@ == old(self)@.remove(i),
            !has_job_id(final(self)@, job_id),
    {
        match self.index_of_id(job_id) {
            Some(i) => {
                self.jobs.remove(i);
                proof {
                    assert forall|j: int| 0 <= j < self@.len() implies self@[j].id != job_id by {
                        if j < i {
                            assert(self@[j] == old(self)@[j]);
                        } else {
                            assert(self@[j] == old(self)@[j + 1]);
                        }
                    }
                }
            },
            None => {},
        }
    }
}

} // verus!
