//! Reconciles two branches by commit message and drives a guarded replay of
//! the commits that only the source branch holds.

pub mod error;
pub mod text;
pub mod commit_index;
pub mod reconcile;
pub mod git;
pub mod replay;
pub mod config;
pub mod profile;
pub mod ticket;
pub mod cli;
