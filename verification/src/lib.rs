//! A verified core for a small CRUD service over a single resource
//! collection, instantiated twice: a `User` collection held in process
//! memory, and a `Todo` collection kept in a relational backend reached
//! through a bounded connection pool.
//!
//! The library owns the data model, the in-memory store, the request
//! validation and error mapping, and the per-call statement lifecycle of
//! the pooled store. The HTTP surface, the lock around the in-memory
//! store, and the actual backend round trips live outside the library
//! and drive it with plain values.

pub mod greeting;
pub mod models;
pub mod memstore;
pub mod relational;
pub mod service;
