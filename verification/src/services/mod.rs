//! The decisions of the query/read operations over the test-mode database.
//!
//! Each operation runs its query against a diesel connection outside this
//! crate and hands what came back to the function of the same name here,
//! which decides what the operation returns.

pub mod messages;
pub mod profiles;
