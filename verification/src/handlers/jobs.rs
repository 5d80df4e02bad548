//! Job handlers. Reading is open; creating requires a valid token; changing
//! and deleting additionally require that the acting user is the posting's
//! creator.

use vstd::prelude::*;

use crate::errors::ApiError;
use crate::handlers::auth::{auth_ok, auth_subject, get_user_from_token};
use crate::job_store::{has_job_id, job_with_id};
use crate::models::Job;
use crate::state::{AppState, same_but_jobs};
use crate::token::token_of;
use crate::user_store::{has_email, user_with_email};

verus! {

#[derive(Debug)]
pub struct CreateJobRequest {
    pub title: String,
    pub description: String,
    pub location: String,
    pub salary: u64,
    pub category: String,
}

#[derive(Debug)]
pub struct UpdateJobRequest {
    pub title: String,
    pub description: String,
    pub location: String,
    pub salary: u64,
    pub category: String,
}

/// Creates a posting owned by the authenticated user. Fails with
/// `Unauthenticated` exactly when the token does not resolve to a stored
/// user; `Internal` covers only an exhausted id space.
pub fn create_job(state: &mut AppState, form: CreateJobRequest, token: &String, now: u64) -> (r:
    Result<Job, ApiError>)
    requires
        old(state).wf(),
    ensures
        final(state).wf(),
        forall|sub: Seq<char>, exp: u64|
            token@ == #[trigger] token_of(old(state).spec_secret(), sub, exp) && exp > now
                ==> auth_subject(old(state).spec_secret(), token@, now) == Some(sub),
        same_but_jobs(*old(state), *final(state)),
        !auth_ok(old(state).users@, old(state).spec_secret(), token@, now) ==> r == Err::<
            Job,
            ApiError,
        >(ApiError::Unauthenticated),
        auth_ok(old(state).users@, old(state).spec_secret(), token@, now) && old(
            state,
        ).jobs.spec_next_id() < u64::MAX ==> r is Ok,
        r matches Err(e) ==> final(state).jobs@ == old(state).jobs@ && final(state).jobs.spec_next_id() == old(state).jobs.spec_next_id() && (e
            == ApiError::Unauthenticated <==> !auth_ok(
            old(state).users@,
            old(state).spec_secret(),
            token@,
            now,
        )),
        r matches Ok(j) ==> (auth_subject(old(state).spec_secret(), token@, now) matches Some(sub)
            && ({
            &&& has_email(old(state).users@, sub)
            &&& j.employer_id == user_with_email(old(state).users@, sub).id
            &&& j.id == old(state).jobs.spec_next_id()
            &&& j.title == form.title
            &&& j.description == form.description
            &&& j.location == form.location
            &&& j.salary == form.salary
            &&& j.category == form.category
            &&& j.created_at == now
            &&& j.updated_at == now
            &&& final(state).jobs@ == old(state).jobs@.push(j)
            &&& final(state).jobs.spec_next_id() == old(state).jobs.spec_next_id() + 1
        })),
{
    let user = match get_user_from_token(state, token, now) {
        Ok(u) => u,
        Err(_) => {
            return Err(ApiError::Unauthenticated);
        },
    };
    state.jobs.create(
        user.id,
        form.title,
        form.description,
        form.location,
        form.salary,
        form.category,
        now,
    )
}

/// Looks a posting up by id; open to unauthenticated callers.
pub fn get_job_by_id(state: &AppState, job_id: u64) -> (r: Result<Job, ApiError>)
    requires
        state.wf(),
    ensures
        r is Ok <==> has_job_id(state.jobs@, job_id),
        r matches Ok(j) ==> j == job_with_id(state.jobs@, job_id),
        r matches Err(e) ==> e == ApiError::NotFound,
{
    state.jobs.find_by_id(job_id)
}

/// Every stored posting, in stored order; open to unauthenticated callers.
pub fn get_jobs(state: &AppState) -> (r: Vec<Job>)
    ensures
        r@ == state.jobs@,
{
    state.jobs.find_all()
}

/// Replaces the mutable fields of a posting. Requires a token that resolves
/// to a stored user; fails with `NotFound` when no posting carries the id,
/// and with `Forbidden` exactly when the acting user is not the posting's
/// creator. On success every requested field is replaced, the creator and
/// creation time are kept, and `updated_at` becomes `now`.
pub fn update_job(
    state: &mut AppState,
    job_id: u64,
    form: UpdateJobRequest,
    token: &String,
    now: u64,
) -> (r: Result<Job, ApiError>)
    requires
        old(state).wf(),
    ensures
        final(state).wf(),
        forall|sub: Seq<char>, exp: u64|
            token@ == #[trigger] token_of(old(state).spec_secret(), sub, exp) && exp > now
                ==> auth_subject(old(state).spec_secret(), token@, now) == Some(sub),
        same_but_jobs(*old(state), *final(state)),
        final(state).jobs.spec_next_id() == old(state).jobs.spec_next_id(),
        r is Err ==> final(state).jobs@ == old(state).jobs@,
        !auth_ok(old(state).users@, old(state).spec_secret(), token@, now) ==> r == Err::<
            Job,
            ApiError,
        >(ApiError::Unauthenticated),
        auth_ok(old(state).users@, old(state).spec_secret(), token@, now) && !has_job_id(
            old(state).jobs@,
            job_id,
        ) ==> r == Err::<Job, ApiError>(ApiError::NotFound),
        auth_subject(old(state).spec_secret(), token@, now) matches Some(sub) ==> ((has_email(
            old(state).users@,
            sub,
        ) && has_job_id(old(state).jobs@, job_id)) ==> if user_with_email(old(state).users@, sub).id
            != job_with_id(old(state).jobs@, job_id).employer_id {
            r == Err::<Job, ApiError>(ApiError::Forbidden)
        } else {
            r is Ok
        }),
        r matches Ok(j) ==> (auth_subject(old(state).spec_secret(), token@, now) matches Some(sub)
            && ({
            &&& has_email(old(state).users@, sub)
            &&& user_with_email(old(state).users@, sub).id == job_with_id(
                old(state).jobs@,
                job_id,
            ).employer_id
            &&& j.id == job_id
            &&& j.title == form.title
            &&& j.description == form.description
            &&& j.location == form.location
            &&& j.salary == form.salary
            &&& j.category == form.category
            &&& j.employer_id == job_with_id(old(state).jobs@, job_id).employer_id
            &&& j.created_at == job_with_id(old(state).jobs@, job_id).created_at
            &&& j.updated_at == now
            &&& exists|i: int|
                0 <= i < old(state).jobs@.len() && old(state).jobs@[i].id == job_id && final(state).jobs@ == old(state).jobs@.update(i, j)
        })),
{
    let user = match get_user_from_token(state, token, now) {
        Ok(u) => u,
        Err(_) => {
            return Err(ApiError::Unauthenticated);
        },
    };
    let job = match state.jobs.find_by_id(job_id) {
        Ok(j) => j,
        Err(_) => {
            return Err(ApiError::NotFound);
        },
    };
    if user.id != job.employer_id {
        return Err(ApiError::Forbidden);
    }
    state.jobs.update(
        job_id,
        form.title,
        form.description,
        form.location,
        form.salary,
        form.category,
        now,
    )
}

/// Deletes a posting. Requires a token that resolves to a stored user;
/// fails with `NotFound` when no posting carries the id, and with
/// `Forbidden` exactly when the acting user is not the posting's creator.
pub fn delete_job(state: &mut AppState, job_id: u64, token: &String, now: u64) -> (r: Result<
    (),
    ApiError,
>)
    requires
        old(state).wf(),
    ensures
        final(state).wf(),
        forall|sub: Seq<char>, exp: u64|
            token@ == #[trigger] token_of(old(state).spec_secret(), sub, exp) && exp > now
                ==> auth_subject(old(state).spec_secret(), token@, now) == Some(sub),
        same_but_jobs(*old(state), *final(state)),
        final(state).jobs.spec_next_id() == old(state).jobs.spec_next_id(),
        r is Err ==> final(state).jobs@ == old(state).jobs@,
        !auth_ok(old(state).users@, old(state).spec_secret(), token@, now) ==> r == Err::<
            (),
            ApiError,
        >(ApiError::Unauthenticated),
        auth_ok(old(state).users@, old(state).spec_secret(), token@, now) && !has_job_id(
            old(state).jobs@,
            job_id,
        ) ==> r == Err::<(), ApiError>(ApiError::NotFound),
        auth_subject(old(state).spec_secret(), token@, now) matches Some(sub) ==> ((has_email(
            old(state).users@,
            sub,
        ) && has_job_id(old(state).jobs@, job_id)) ==> if user_with_email(old(state).users@, sub).id
            != job_with_id(old(state).jobs@, job_id).employer_id {
            r == Err::<(), ApiError>(ApiError::Forbidden)
        } else {
            r is Ok
        }),
        r is Ok ==> !has_job_id(final(state).jobs@, job_id) && exists|i: int|
            0 <= i < old(state).jobs@.len() && old(state).jobs@[i].id == job_id && final(state).jobs@ == old(state).jobs@.remove(i),
{
    let user = match get_user_from_token(state, token, now) {
        Ok(u) => u,
        Err(_) => {
            return Err(ApiError::Unauthenticated);
        },
    };
    let job = match state.jobs.find_by_id(job_id) {
        Ok(j) => j,
        Err(_) => {
            return Err(ApiError::NotFound);
        },
    };
    if user.id != job.employer_id {
        return Err(ApiError::Forbidden);
    }
    state.jobs.delete(job_id);
    Ok(())
}

} // verus!
