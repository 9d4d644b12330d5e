//! Test-mode database access for Pythia.
//!
//! The SQLite database stores test profiles and their scheduled CAN messages.
//! This crate holds the rows as plain values, the rules that turn database
//! outcomes into this crate's errors, and the rules that turn those errors into
//! HTTP statuses. The queries themselves run outside it, against a diesel
//! connection, and hand their results to the functions here.

pub mod db;
pub mod error;
pub mod http;
pub mod laws;
pub mod migrations;
pub mod models;
pub mod services;
