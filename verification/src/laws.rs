//! The laws that tie several operations together, stated over the spec
//! functions the operations' own contracts use. Each one closes the gap
//! between what one contract ensures and what the next one requires, so
//! that the end-to-end guarantees follow from the contracts alone.

use vstd::prelude::*;

use crate::application_store::has_application_id;
use crate::handlers::auth::credentials_match;
use crate::job_store::{has_job_id, job_ids_unique, job_with_id};
use crate::models::{Application, Job, User};
use crate::password::bcrypt_accepts;
use crate::user_store::{has_email, user_emails_unique, user_with_email};

verus! {

/// Registration round-trips into login: a stored user whose hash verifies
/// the password — exactly what `register` ensures of the record it appends —
/// makes `credentials_match` hold for that email and password, whatever
/// else is stored. `login` then succeeds by its contract and signs a token
/// for the email, and `validate_token` resolves that token's subject back
/// to the email by its own contract.
pub proof fn lemma_registered_credentials_match(users: Seq<User>, u: User, password: Seq<char>)
    requires
        bcrypt_accepts(password, u.password_hash@),
    ensures
        credentials_match(users.push(u), u.email@, password),
{
    assert(users.push(u)[users.len() as int] == u);
}

/// The guard resolves a subject to the one stored user carrying it: with
/// unique emails, any stored user whose email equals the subject is the
/// record `user_with_email` names, so the identity every handler compares
/// ownership against is that user's id.
pub proof fn lemma_subject_resolves_uniquely(users: Seq<User>, i: int, sub: Seq<char>)
    requires
        user_emails_unique(users),
        0 <= i < users.len(),
        users[i].email@ == sub,
    ensures
        has_email(users, sub),
        user_with_email(users, sub) == users[i],
{
    let k = choose|k: int| 0 <= k < users.len() && users[k].email@ == sub;
    if k != i {
        assert(users[k].email@ != users[i].email@);
    }
}

/// A job just created is owned by its creator: looking the fresh id up in
/// the extended store yields the created record itself. Together with the
/// update and delete handlers' contracts — which refuse with `Forbidden`
/// exactly when the acting user's id differs from the looked-up record's
/// `employer_id` — any authenticated user other than the creator is
/// refused, and the creator is not.
pub proof fn lemma_created_job_owned_by_creator(jobs: Seq<Job>, j: Job)
    requires
        !has_job_id(jobs, j.id),
    ensures
        has_job_id(jobs.push(j), j.id),
        job_with_id(jobs.push(j), j.id) == j,
{
    let ext = jobs.push(j);
    assert(ext[jobs.len() as int] == j);
    let k = choose|k: int| 0 <= k < ext.len() && ext[k].id == j.id;
    if k < jobs.len() {
        assert(jobs[k].id != j.id);
    }
}

/// Deletion erases the id: removing the record at `i` from a store with
/// unique ids leaves no record carrying that id. By the stores' contracts a
/// lookup of the id then fails with `NotFound`, and a repeated delete finds
/// nothing to remove and leaves the store unchanged — deletion is
/// idempotent and never an error.
pub proof fn lemma_removed_job_id_gone(jobs: Seq<Job>, i: int)
    requires
        job_ids_unique(jobs),
        0 <= i < jobs.len(),
    ensures
        !has_job_id(jobs.remove(i), jobs[i].id),
{
    let cut = jobs.remove(i);
    assert forall|j: int| 0 <= j < cut.len() implies cut[j].id != jobs[i].id by {
        if j < i {
            assert(cut[j] == jobs[j]);
        } else {
            assert(cut[j] == jobs[j + 1]);
        }
    }
}

/// The same erasure law for applications: removing the record at `i` from a
/// store with unique ids leaves no record carrying that id, so a lookup
/// fails with `NotFound` and a repeated delete is a no-op.
pub proof fn lemma_removed_application_id_gone(apps: Seq<Application>, i: int)
    requires
        crate::application_store::application_ids_unique(apps),
        0 <= i < apps.len(),
    ensures
        !has_application_id(apps.remove(i), apps[i].id),
{
    let cut = apps.remove(i);
    assert forall|j: int| 0 <= j < cut.len() implies cut[j].id != apps[i].id by {
        if j < i {
            assert(cut[j] == apps[j]);
        } else {
            assert(cut[j] == apps[j + 1]);
        }
    }
}

} // verus!
