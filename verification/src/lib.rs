//! Domain core for a small user/task management service.
//!
//! The crate models two aggregates, `User` and `Task`, together with the
//! value objects they are built from, a closed taxonomy of domain errors,
//! repository ports for persisting the aggregates, an in-memory store
//! implementing those ports, the use cases that orchestrate one aggregate
//! operation each over a port, and the deterministic rules that translate
//! storage errors and domain errors for callers.

pub mod api;
pub mod db_error;
pub mod entity;
pub mod error;
pub mod repository;
pub mod store;
pub mod task;
pub mod task_usecases;
pub mod user;
pub mod user_usecases;
pub mod value_objects;
