//! The request handlers: each one authenticates where the operation mutates
//! state, applies the ownership rule where one exists, and drives the
//! matching store operation. Transport concerns (HTTP, JSON, headers) stay
//! outside; handlers take and return plain values.

pub mod applications;
pub mod auth;
pub mod jobs;
pub mod users;
