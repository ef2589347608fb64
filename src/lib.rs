//! A leaderboard client for a hosted document store and the decisions of a
//! startup update check.
//!
//! The library holds the logic: turning untrusted backend documents into
//! ranked entries, building the backend query, validating configuration and
//! stepping the update lifecycle. Network access, the updater service and the
//! application shell are driven by the caller, which hands the outcomes back
//! as plain values.

pub mod config;
pub mod leaderboard;
pub mod query;
pub mod updater;
