//! A verified core for a small todo-list service backed by an embedded
//! relational store.
//!
//! The store keeps task records (a store-assigned id, a name, a completion
//! flag) in a single table. This crate holds the data types, the SQL text
//! selection, the row mapping, and a verified model of the repository
//! semantics: schema lazy-initialization, list-by-filter, create with
//! auto-increment identity, get-by-id, and update-by-id.

pub mod db;
pub mod laws;
pub mod model;
pub mod store;
pub mod views;
