//! The three record types the stores persist. Timestamps are kept as Unix
//! seconds and a salary as an exact count of minor currency units, so every
//! field the logic reads is a plain value.

use vstd::prelude::*;

verus! {

/// An account. `password_hash` is the salted bcrypt hash of the password
/// given at registration; the plaintext is never stored.
#[derive(Debug)]
pub struct User {
    pub id: u64,
    pub username: String,
    pub email: String,
    pub password_hash: String,
    pub role: String,
    pub created_at: u64,
    pub updated_at: u64,
}

impl Clone for User {
    fn clone(&self) -> (r: Self)
        ensures
            r == *self,
    {
        User {
            id: self.id,
            username: self.username.clone(),
            email: self.email.clone(),
            password_hash: self.password_hash.clone(),
            role: self.role.clone(),
            created_at: self.created_at,
            updated_at: self.updated_at,
        }
    }
}

/// A job posting. `employer_id` is the id of the user who created it and the
/// only identity allowed to change or delete it. The salary is an exact
/// amount in minor currency units.
#[derive(Debug)]
pub struct Job {
    pub id: u64,
    pub title: String,
    pub description: String,
    pub salary: u64,
    pub location: String,
    pub category: String,
    pub employer_id: u64,
    pub created_at: u64,
    pub updated_at: u64,
}

impl Clone for Job {
    fn clone(&self) -> (r: Self)
        ensures
            r == *self,
    {
        Job {
            id: self.id,
            title: self.title.clone(),
            description: self.description.clone(),
            salary: self.salary,
            location: self.location.clone(),
            category: self.category.clone(),
            employer_id: self.employer_id,
            created_at: self.created_at,
            updated_at: self.updated_at,
        }
    }
}

/// An application by `user_id` to the job `job_id`. The status starts at the
/// store's default and is changed only through the dedicated status update.
#[derive(Debug)]
pub struct Application {
    pub id: u64,
    pub job_id: u64,
    pub user_id: u64,
    pub message: String,
    pub status: String,
    pub created_at: u64,
    pub updated_at: u64,
}

impl Clone for Application {
    fn clone(&self) -> (r: Self)
        ensures
            r == *self,
    {
        Application {
            id: self.id,
            job_id: self.job_id,
            user_id: self.user_id,
            message: self.message.clone(),
            status: self.status.clone(),
            created_at: self.created_at,
            updated_at: self.updated_at,
        }
    }
}

} // verus!
