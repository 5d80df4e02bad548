//! Application handlers. Reading is open; creating requires a valid token
//! and an existing job. Changing and deleting require a valid token but no
//! ownership: any authenticated user may change or delete any application
//! by id. That asymmetry with job postings is the system's stated policy,
//! kept here deliberately and worth weighing before reuse.

use vstd::prelude::*;

use crate::application_store::{application_with_id, has_application_id, spec_default_status};
use crate::errors::ApiError;
use crate::handlers::auth::{auth_ok, auth_subject, get_user_from_token};
use crate::job_store::has_job_id;
use crate::models::Application;
use crate::state::{AppState, same_but_applications};
use crate::token::token_of;
use crate::user_store::{has_email, user_with_email};

verus! {

#[derive(Debug)]
pub struct CreateApplicationRequest {
    pub job_id: u64,
    pub message: String,
}

#[derive(Debug)]
pub struct UpdateApplicationRequest {
    pub message: String,
}

/// Creates an application by the authenticated user to an existing job.
/// Fails with `Unauthenticated` exactly when the token does not resolve to
/// a stored user, and with `Internal` when the referenced job does not
/// exist — the constraint violation a store reports without detail — or
/// when the id space is exhausted. Repeated applications by one user to one
/// job are allowed.
pub fn create_application(
    state: &mut AppState,
    form: CreateApplicationRequest,
    token: &String,
    now: u64,
) -> (r: Result<Application, ApiError>)
    requires
        old(state).wf(),
    ensures
        final(state).wf(),
        forall|sub: Seq<char>, exp: u64|
            token@ == #[trigger] token_of(old(state).spec_secret(), sub, exp) && exp > now
                ==> auth_subject(old(state).spec_secret(), token@, now) == Some(sub),
        same_but_applications(*old(state), *final(state)),
        r is Err ==> final(state).applications@ == old(state).applications@ && final(state).applications.spec_next_id() == old(state).applications.spec_next_id(),
        !auth_ok(old(state).users@, old(state).spec_secret(), token@, now) ==> r == Err::<
            Application,
            ApiError,
        >(ApiError::Unauthenticated),
        auth_ok(old(state).users@, old(state).spec_secret(), token@, now) && !has_job_id(
            old(state).jobs@,
            form.job_id,
        ) ==> r == Err::<Application, ApiError>(ApiError::Internal),
        auth_ok(old(state).users@, old(state).spec_secret(), token@, now) && has_job_id(
            old(state).jobs@,
            form.job_id,
        ) && old(state).applications.spec_next_id() < u64::MAX ==> r is Ok,
        r matches Ok(a) ==> (auth_subject(old(state).spec_secret(), token@, now) matches Some(sub)
            && ({
            &&& has_email(old(state).users@, sub)
            &&& a.user_id == user_with_email(old(state).users@, sub).id
            &&& has_job_id(old(state).jobs@, form.job_id)
            &&& a.job_id == form.job_id
            &&& a.message == form.message
            &&& a.status@ == spec_default_status()
            &&& a.id == old(state).applications.spec_next_id()
            &&& a.created_at == now
            &&& a.updated_at == now
            &&& final(state).applications@ == old(state).applications@.push(a)
            &&& final(state).applications.spec_next_id() == old(state).applications.spec_next_id()
                + 1
        })),
{
    let user = match get_user_from_token(state, token, now) {
        Ok(u) => u,
        Err(_) => {
            return Err(ApiError::Unauthenticated);
        },
    };
    match state.jobs.find_by_id(form.job_id) {
        Ok(_) => {},
        Err(_) => {
            return Err(ApiError::Internal);
        },
    };
    state.applications.create(user.id, form.job_id, form.message, now)
}

/// Looks an application up by id; open to unauthenticated callers.
pub fn get_application_by_id(state: &AppState, application_id: u64) -> (r: Result<
    Application,
    ApiError,
>)
    requires
        state.wf(),
    ensures
        r is Ok <==> has_application_id(state.applications@, application_id),
        r matches Ok(a) ==> a == application_with_id(state.applications@, application_id),
        r matches Err(e) ==> e == ApiError::NotFound,
{
    state.applications.find_by_id(application_id)
}

/// Every stored application, in stored order; open to unauthenticated
/// callers.
pub fn get_applications(state: &AppState) -> (r: Vec<Application>)
    ensures
        r@ == state.applications@,
{
    state.applications.find_all()
}

/// Replaces the message of an application. Requires a token that resolves
/// to a stored user but checks no ownership (see the module note); fails
/// with `NotFound` when no application carries the id. On success only the
/// message and `updated_at` change.
pub fn update_application(
    state: &mut AppState,
    application_id: u64,
    form: UpdateApplicationRequest,
    token: &String,
    now: u64,
) -> (r: Result<Application, ApiError>)
    requires
        old(state).wf(),
    ensures
        final(state).wf(),
        forall|sub: Seq<char>, exp: u64|
            token@ == #[trigger] token_of(old(state).spec_secret(), sub, exp) && exp > now
                ==> auth_subject(old(state).spec_secret(), token@, now) == Some(sub),
        same_but_applications(*old(state), *final(state)),
        final(state).applications.spec_next_id() == old(state).applications.spec_next_id(),
        r is Err ==> final(state).applications@ == old(state).applications@,
        !auth_ok(old(state).users@, old(state).spec_secret(), token@, now) ==> r == Err::<
            Application,
            ApiError,
        >(ApiError::Unauthenticated),
        auth_ok(old(state).users@, old(state).spec_secret(), token@, now) ==> (r is Ok
            <==> has_application_id(old(state).applications@, application_id)),
        auth_ok(old(state).users@, old(state).spec_secret(), token@, now) && !has_application_id(
            old(state).applications@,
            application_id,
        ) ==> r == Err::<Application, ApiError>(ApiError::NotFound),
        r matches Ok(a) ==> ({
            let before = application_with_id(old(state).applications@, application_id);
            &&& a.id == application_id
            &&& a.message == form.message
            &&& a.job_id == before.job_id
            &&& a.user_id == before.user_id
            &&& a.status == before.status
            &&& a.created_at == before.created_at
            &&& a.updated_at == now
            &&& exists|i: int|
                0 <= i < old(state).applications@.len() && old(state).applications@[i].id
                    == application_id && final(state).applications@ == old(
                    state,
                ).applications@.update(i, a)
        }),
{
    match get_user_from_token(state, token, now) {
        Ok(_) => {},
        Err(_) => {
            return Err(ApiError::Unauthenticated);
        },
    };
    state.applications.update(application_id, form.message, now)
}

/// Deletes an application. Requires a token that resolves to a stored user
/// but checks no ownership (see the module note); deleting a missing id is
/// a successful no-op.
pub fn delete_application(
    state: &mut AppState,
    application_id: u64,
    token: &String,
    now: u64,
) -> (r: Result<(), ApiError>)
    requires
        old(state).wf(),
    ensures
        final(state).wf(),
        forall|sub: Seq<char>, exp: u64|
            token@ == #[trigger] token_of(old(state).spec_secret(), sub, exp) && exp > now
                ==> auth_subject(old(state).spec_secret(), token@, now) == Some(sub),
        same_but_applications(*old(state), *final(state)),
        final(state).applications.spec_next_id() == old(state).applications.spec_next_id(),
        r is Err ==> final(state).applications@ == old(state).applications@,
        r is Ok <==> auth_ok(old(state).users@, old(state).spec_secret(), token@, now),
        r matches Err(e) ==> e == ApiError::Unauthenticated,
        r is Ok ==> !has_application_id(final(state).applications@, application_id),
        r is Ok && !has_application_id(old(state).applications@, application_id) ==> final(state).applications@ == old(state).applications@,
        r is Ok && has_application_id(old(state).applications@, application_id) ==> exists|i: int|
            0 <= i < old(state).applications@.len() && old(state).applications@[i].id
                == application_id && final(state).applications@ == old(state).applications@.remove(
                i,
            ),
{
    match get_user_from_token(state, token, now) {
        Ok(_) => {},
        Err(_) => {
            return Err(ApiError::Unauthenticated);
        },
    };
    state.applications.delete(application_id);
    Ok(())
}

} // verus!
