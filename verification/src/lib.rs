//! A small task/project tracker: users own projects, projects own tasks.
//!
//! The crate holds the application's logic: the entity model, an in-memory
//! store with the persistence gateway's single-statement semantics, the
//! ownership authorization rules, the decision core of each HTTP endpoint,
//! the login-flow state machine, and the client-side state reconciler.
//! Transport, storage drivers and the GUI toolkit live outside and hand
//! these functions plain values.

pub mod api;
pub mod auth;
pub mod auth_middleware;
pub mod config;
pub mod lookup;
pub mod models;
pub mod reconciler;
pub mod store;
