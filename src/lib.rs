//! A small CRUD service over two related resources, activities and the todo
//! items that belong to them.
//!
//! - `field`: title validation and the `{status, message[, data]}` envelopes.
//! - `store`: the two tables and their well-formedness.
//! - `activity`, `todo`: the service operations on each table, with the
//!   laws that relate them.
//! - `routes`: what each request gets back, status code and body.

pub mod activity;
pub mod field;
pub mod routes;
pub mod store;
pub mod todo;
