//! Job and application handlers: ownership rules, exact update semantics,
//! idempotent deletion and the public read endpoints.

use job_board::errors::ApiError;
use job_board::handlers::applications::{
    CreateApplicationRequest, UpdateApplicationRequest, create_application, delete_application,
    get_application_by_id, get_applications, update_application,
};
use job_board::handlers::auth::{RegisterRequest, register};
use job_board::handlers::jobs::{
    CreateJobRequest, UpdateJobRequest, create_job, delete_job, get_job_by_id, get_jobs, update_job,
};
use job_board::handlers::users::{get_applications_of_user, get_jobs_of_user, get_user_by_id};
use job_board::state::AppState;

const NOW: u64 = 1_700_000_000;

fn state_with_two_users() -> (AppState, String, String) {
    let mut st = AppState::new(b"test-secret".to_vec());
    let alice = register(
        &mut st,
        RegisterRequest {
            username: "alice".to_string(),
            email: "a@x.com".to_string(),
            password: "pw".to_string(),
            role: "employer".to_string(),
        },
        NOW,
    )
    .unwrap();
    let bob = register(
        &mut st,
        RegisterRequest {
            username: "bob".to_string(),
            email: "b@x.com".to_string(),
            password: "pw2".to_string(),
            role: "applicant".to_string(),
        },
        NOW,
    )
    .unwrap();
    (st, alice.token, bob.token)
}

fn job_form(title: &str, salary: u64) -> CreateJobRequest {
    CreateJobRequest {
        title: title.to_string(),
        description: "d".to_string(),
        location: "Remote".to_string(),
        salary,
        category: "tech".to_string(),
    }
}

#[test]
fn end_to_end_scenario() {
    let (mut st, alice_token, bob_token) = state_with_two_users();
    let job = create_job(&mut st, job_form("Engineer", 100000), &alice_token, NOW).unwrap();
    assert_eq!(job.employer_id, 1);
    assert_eq!(job.title, "Engineer");
    assert_eq!(job.salary, 100000);

    let by_bob = update_job(
        &mut st,
        job.id,
        UpdateJobRequest {
            title: "Taken over".to_string(),
            description: "d".to_string(),
            location: "Remote".to_string(),
            salary: 1,
            category: "tech".to_string(),
        },
        &bob_token,
        NOW + 5,
    );
    let err = by_bob.unwrap_err();
    assert_eq!(err, ApiError::Forbidden);
    assert_eq!(err.status_code(), 403);
    // The record is untouched after the refused update.
    let unchanged = get_job_by_id(&st, job.id).unwrap();
    assert_eq!(unchanged.title, "Engineer");
    assert_eq!(unchanged.salary, 100000);
}

#[test]
fn owner_update_replaces_fields_and_bumps_timestamp() {
    let (mut st, alice_token, _) = state_with_two_users();
    let job = create_job(&mut st, job_form("Engineer", 100000), &alice_token, NOW).unwrap();
    let updated = update_job(
        &mut st,
        job.id,
        UpdateJobRequest {
            title: "Engineer II".to_string(),
            description: "d2".to_string(),
            location: "Berlin".to_string(),
            salary: 120000,
            category: "engineering".to_string(),
        },
        &alice_token,
        NOW + 60,
    )
    .unwrap();
    assert_eq!(updated.id, job.id);
    assert_eq!(updated.title, "Engineer II");
    assert_eq!(updated.description, "d2");
    assert_eq!(updated.location, "Berlin");
    assert_eq!(updated.salary, 120000);
    assert_eq!(updated.category, "engineering");
    // Creator and creation time survive an update; updated_at strictly
    // increases when the clock has moved on.
    assert_eq!(updated.employer_id, job.employer_id);
    assert_eq!(updated.created_at, job.created_at);
    assert!(updated.updated_at > job.updated_at);
}

#[test]
fn update_requires_authentication_and_existing_job() {
    let (mut st, alice_token, _) = state_with_two_users();
    let job = create_job(&mut st, job_form("Engineer", 100000), &alice_token, NOW).unwrap();

    let no_auth = update_job(
        &mut st,
        job.id,
        UpdateJobRequest {
            title: "x".to_string(),
            description: "x".to_string(),
            location: "x".to_string(),
            salary: 1,
            category: "x".to_string(),
        },
        &"bogus".to_string(),
        NOW,
    );
    assert_eq!(no_auth.unwrap_err(), ApiError::Unauthenticated);

    let missing = update_job(
        &mut st,
        999,
        UpdateJobRequest {
            title: "x".to_string(),
            description: "x".to_string(),
            location: "x".to_string(),
            salary: 1,
            category: "x".to_string(),
        },
        &alice_token,
        NOW,
    );
    assert_eq!(missing.unwrap_err(), ApiError::NotFound);
}

#[test]
fn delete_job_ownership_and_idempotent_store_delete() {
    let (mut st, alice_token, bob_token) = state_with_two_users();
    let job = create_job(&mut st, job_form("Engineer", 100000), &alice_token, NOW).unwrap();

    let by_bob = delete_job(&mut st, job.id, &bob_token, NOW);
    assert_eq!(by_bob.unwrap_err(), ApiError::Forbidden);

    delete_job(&mut st, job.id, &alice_token, NOW).unwrap();
    let found = get_job_by_id(&st, job.id);
    assert_eq!(found.unwrap_err(), ApiError::NotFound);

    // The store-level delete is an idempotent no-op on a missing id.
    st.jobs.delete(job.id);
    st.jobs.delete(job.id);
    assert!(get_jobs(&st).is_empty());
}

#[test]
fn application_lifecycle_without_ownership_check() {
    let (mut st, alice_token, bob_token) = state_with_two_users();
    let job = create_job(&mut st, job_form("Engineer", 100000), &alice_token, NOW).unwrap();

    let app = create_application(
        &mut st,
        CreateApplicationRequest { job_id: job.id, message: "hire me".to_string() },
        &bob_token,
        NOW,
    )
    .unwrap();
    assert_eq!(app.user_id, 2);
    assert_eq!(app.job_id, job.id);
    assert_eq!(app.status, "pending");
    assert_eq!(app.message, "hire me");

    // Any authenticated user may change any application: the asymmetry with
    // jobs is the system's stated policy.
    let edited = update_application(
        &mut st,
        app.id,
        UpdateApplicationRequest { message: "changed by alice".to_string() },
        &alice_token,
        NOW + 1,
    )
    .unwrap();
    assert_eq!(edited.message, "changed by alice");
    assert_eq!(edited.status, "pending");
    assert_eq!(edited.user_id, 2);

    let status_changed = st
        .applications
        .update_status(app.id, "accepted".to_string(), NOW + 2)
        .unwrap();
    assert_eq!(status_changed.status, "accepted");
    assert_eq!(status_changed.message, "changed by alice");

    delete_application(&mut st, app.id, &alice_token, NOW + 3).unwrap();
    let gone = get_application_by_id(&st, app.id);
    assert_eq!(gone.unwrap_err(), ApiError::NotFound);
    // Deleting again errors neither at the handler nor at the store.
    delete_application(&mut st, app.id, &alice_token, NOW + 4).unwrap();
    assert!(get_applications(&st).is_empty());
}

#[test]
fn application_to_missing_job_is_a_constraint_violation() {
    let (mut st, _, bob_token) = state_with_two_users();
    let r = create_application(
        &mut st,
        CreateApplicationRequest { job_id: 42, message: "hi".to_string() },
        &bob_token,
        NOW,
    );
    let err = r.unwrap_err();
    assert_eq!(err, ApiError::Internal);
    assert_eq!(err.status_code(), 500);
}

#[test]
fn repeated_applications_are_allowed() {
    let (mut st, alice_token, bob_token) = state_with_two_users();
    let job = create_job(&mut st, job_form("Engineer", 100000), &alice_token, NOW).unwrap();
    let first = create_application(
        &mut st,
        CreateApplicationRequest { job_id: job.id, message: "one".to_string() },
        &bob_token,
        NOW,
    )
    .unwrap();
    let second = create_application(
        &mut st,
        CreateApplicationRequest { job_id: job.id, message: "two".to_string() },
        &bob_token,
        NOW,
    )
    .unwrap();
    assert_ne!(first.id, second.id);
    assert_eq!(get_applications(&st).len(), 2);
}

#[test]
fn public_reads_and_projections() {
    let (mut st, alice_token, bob_token) = state_with_two_users();
    let j1 = create_job(&mut st, job_form("Engineer", 100000), &alice_token, NOW).unwrap();
    let _j2 = create_job(&mut st, job_form("Designer", 90000), &bob_token, NOW).unwrap();
    create_application(
        &mut st,
        CreateApplicationRequest { job_id: j1.id, message: "m".to_string() },
        &bob_token,
        NOW,
    )
    .unwrap();

    let all_jobs = get_jobs(&st);
    assert_eq!(all_jobs.len(), 2);
    assert_eq!(all_jobs[0].title, "Engineer");
    assert_eq!(all_jobs[1].title, "Designer");

    let alice_jobs = get_jobs_of_user(&st, 1);
    assert_eq!(alice_jobs.len(), 1);
    assert_eq!(alice_jobs[0].title, "Engineer");

    let bob_apps = get_applications_of_user(&st, 2);
    assert_eq!(bob_apps.len(), 1);
    assert_eq!(bob_apps[0].job_id, j1.id);
    assert!(get_applications_of_user(&st, 1).is_empty());

    let shown = get_user_by_id(&st, 1).unwrap();
    assert_eq!(shown.id, 1);
    assert_eq!(shown.username, "alice");
    assert_eq!(shown.email, "a@x.com");
    assert_eq!(shown.role, "employer");

    let missing_user = get_user_by_id(&st, 99);
    assert_eq!(missing_user.unwrap_err(), ApiError::NotFound);
}

#[test]
fn user_store_delete_is_idempotent() {
    let (mut st, _, _) = state_with_two_users();
    st.users.delete(2);
    assert_eq!(st.users.find_by_id(2).unwrap_err(), ApiError::NotFound);
    st.users.delete(2);
    assert!(st.users.find_by_id(1).is_ok());
}
