//! What the admin server answers.

pub mod auth;
