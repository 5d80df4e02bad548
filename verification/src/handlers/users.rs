//! User handlers: public, read-only views of accounts and of what an
//! account has posted or applied to. The password hash is projected out
//! before anything leaves this boundary.

use vstd::prelude::*;

use crate::application_store::applications_of_user;
use crate::errors::ApiError;
use crate::job_store::jobs_of_employer;
use crate::models::{Application, Job};
use crate::state::AppState;
use crate::user_store::{has_user_id, user_with_id};

verus! {

/// A user as shown to clients: every stored field except the password hash.
#[derive(Debug)]
pub struct UserResponse {
    pub id: u64,
    pub username: String,
    pub email: String,
    pub role: String,
}

/// Looks an account up by id, without its password hash; open to
/// unauthenticated callers.
pub fn get_user_by_id(state: &AppState, user_id: u64) -> (r: Result<UserResponse, ApiError>)
    requires
        state.wf(),
    ensures
        r is Ok <==> has_user_id(state.users@, user_id),
        r matches Ok(resp) ==> ({
            let u = user_with_id(state.users@, user_id);
            &&& resp.id == u.id
            &&& resp.username == u.username
            &&& resp.email == u.email
            &&& resp.role == u.role
        }),
        r matches Err(e) ==> e == ApiError::NotFound,
{
    match state.users.find_by_id(user_id) {
        Ok(u) => Ok(
            UserResponse { id: u.id, username: u.username, email: u.email, role: u.role },
        ),
        Err(e) => Err(e),
    }
}

/// Every posting created by this account, in stored order; open to
/// unauthenticated callers.
pub fn get_jobs_of_user(state: &AppState, user_id: u64) -> (r: Vec<Job>)
    ensures
        r@ == jobs_of_employer(state.jobs@, user_id),
{
    state.jobs.find_by_user_id(user_id)
}

/// Every application made by this account, in stored order; open to
/// unauthenticated callers.
pub fn get_applications_of_user(state: &AppState, user_id: u64) -> (r: Vec<Application>)
    ensures
        r@ == applications_of_user(state.applications@, user_id),
{
    state.applications.find_by_user_id(user_id)
}

} // verus!
