//! The rows of the test-mode database, as plain values.

use vstd::prelude::*;

verus! {

/// A row of the `test_profile` table: a named collection of scheduled CAN frames.
#[derive(Debug, Clone, PartialEq, Eq)]
pub struct TestProfile {
    pub id: i32,
    pub name: String,
}

/// Column values for inserting a new [`TestProfile`]. The `id` is assigned by
/// the database.
#[derive(Debug, Clone, Copy, PartialEq, Eq)]
pub struct NewTestProfile<'a> {
    pub name: &'a str,
}

/// A row of the `can_message` table: one CAN frame scheduled in a profile.
#[derive(Debug, Clone, PartialEq, Eq)]
pub struct TestCanMessageEntry {
    pub id: i32,
    pub profile_id: i32,
    pub can_id: i32,
    pub is_extended: i32,
    pub data: Vec<u8>,
    pub mode: String,
    pub offset_ms: i32,
    pub period_ms: Option<i32>,
}

/// Fields a caller supplies to add a CAN message to a profile. Excludes `id`
/// (assigned by the database) and `profile_id` (resolved from the target
/// profile's name), so it can be deserialized directly from a request body.
#[derive(Debug, Clone, PartialEq, Eq)]
pub struct NewCanMessageInput {
    pub can_id: i32,
    pub is_extended: i32,
    pub data: Vec<u8>,
    pub mode: String,
    pub offset_ms: i32,
    pub period_ms: Option<i32>,
}

/// Column values for inserting a new CAN message row, including the resolved
/// `profile_id`.
#[derive(Debug, Clone, PartialEq, Eq)]
pub struct NewCanMessage {
    pub profile_id: i32,
    pub can_id: i32,
    pub is_extended: i32,
    pub data: Vec<u8>,
    pub mode: String,
    pub offset_ms: i32,
    pub period_ms: Option<i32>,
}

} // verus!
