//! A small update-distribution library: a server-side package registry that
//! turns on-disk package manifests into servable artifact sets, the version
//! query protocol that decides whether a client is owed an update, and the
//! client-side install state machine that drives per-artifact fetches and
//! keeps a durable recovery marker across process restarts.
//!
//! All network and filesystem work is left to the surrounding host process;
//! this crate holds the decisions and data shapes, with their contracts.

pub mod manifest;
pub mod install;
pub mod paths;
pub mod protocol;
pub mod query;
pub mod registry;
pub mod version;
