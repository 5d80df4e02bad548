//! The whole backend state handlers operate on: the three stores and the
//! server-held token-signing secret, passed in at construction so that no
//! ambient configuration is read.

use vstd::prelude::*;

use crate::application_store::ApplicationStore;
use crate::job_store::JobStore;
use crate::user_store::UserStore;

verus! {

pub struct AppState {
    pub users: UserStore,
    pub jobs: JobStore,
    pub applications: ApplicationStore,
    pub secret: Vec<u8>,
}

impl AppState {
    /// The token-signing secret.
    pub open spec fn spec_secret(&self) -> Seq<u8> {
        self.secret@
    }

    /// All three stores satisfy their invariants.
    pub open spec fn wf(&self) -> bool {
        &&& self.users.wf()
        &&& self.jobs.wf()
        &&& self.applications.wf()
    }

    pub fn new(secret: Vec<u8>) -> (s: Self)
        ensures
            s.wf(),
            s.spec_secret() == secret@,
            s.users@ == Seq::<crate::models::User>::empty(),
            s.jobs@ == Seq::<crate::models::Job>::empty(),
            s.applications@ == Seq::<crate::models::Application>::empty(),
            s.users.spec_next_id() == 1,
            s.jobs.spec_next_id() == 1,
            s.applications.spec_next_id() == 1,
    {
        AppState {
            users: UserStore::new(),
            jobs: JobStore::new(),
            applications: ApplicationStore::new(),
            secret,
        }
    }

    /// The secret as bytes, for the token service.
    pub fn secret_bytes(&self) -> (r: &[u8])
        ensures
            r@ == self.spec_secret(),
    {
        self.secret.as_slice()
    }
}

/// Everything except the user store — the secret, the job store and the
/// application store, id generators included — is the same in `post` as in
/// `pre`.
pub open spec fn same_but_users(pre: AppState, post: AppState) -> bool {
    &&& post.spec_secret() == pre.spec_secret()
    &&& post.jobs@ == pre.jobs@
    &&& post.jobs.spec_next_id() == pre.jobs.spec_next_id()
    &&& post.applications@ == pre.applications@
    &&& post.applications.spec_next_id() == pre.applications.spec_next_id()
}

/// Everything except the job store is the same in `post` as in `pre`.
pub open spec fn same_but_jobs(pre: AppState, post: AppState) -> bool {
    &&& post.spec_secret() == pre.spec_secret()
    &&& post.users@ == pre.users@
    &&& post.users.spec_next_id() == pre.users.spec_next_id()
    &&& post.applications@ == pre.applications@
    &&& post.applications.spec_next_id() == pre.applications.spec_next_id()
}

/// Everything except the application store is the same in `post` as in
/// `pre`.
pub open spec fn same_but_applications(pre: AppState, post: AppState) -> bool {
    &&& post.spec_secret() == pre.spec_secret()
    &&& post.users@ == pre.users@
    &&& post.users.spec_next_id() == pre.users.spec_next_id()
    &&& post.jobs@ == pre.jobs@
    &&& post.jobs.spec_next_id() == pre.jobs.spec_next_id()
}

} // verus!
