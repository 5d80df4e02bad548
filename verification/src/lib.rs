//! A job-board backend core: credential hashing, signed bearer tokens,
//! an authentication guard, and in-memory stores for users, jobs and
//! applications with the ownership rules the request handlers enforce.

pub mod application_store;
pub mod clock;
pub mod errors;
pub mod handlers;
pub mod job_store;
pub mod laws;
pub mod models;
pub mod password;
pub mod state;
pub mod token;
pub mod user_store;

pub use errors::ApiError;
pub use models::{Application, Job, User};
