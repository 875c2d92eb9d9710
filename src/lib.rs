//! Mirrors repositories from a Gitea account to a GitHub account.
//!
//! The library holds the decisions of a migration: how transport failures
//! become domain errors, which endpoints and credentials each call uses, and
//! the per-repository mirroring state machine whose actions a driver performs.
pub mod errors;
pub mod urls;
pub mod mirror;
pub mod laws;
pub mod hosts;
pub mod run;
pub mod models;
