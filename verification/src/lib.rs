//! Session validation and caching for an identity provider.
//!
//! The crate holds the decisions of a login service: which session
//! identifiers are admitted, when a cached session counts as valid, how the
//! cache of sessions is kept bounded, and which error a failed login or
//! registration yields. Storage and transport stay with the caller, who
//! hands their results in as plain values.

pub mod cache;
pub mod config;
pub mod domain;
pub mod error;
pub mod extensions;
pub mod guard;
pub mod idp;
pub mod ids;
pub mod password;
pub mod session;
pub mod text;
pub mod time;
