//! Harvests labelled issues and pull requests of a contribution campaign:
//! plans bounded search queries, pages through results, flattens them into
//! records and prepares idempotent writes for a relational store.
pub mod dates;
pub mod fetch;
pub mod planner;
pub mod normalize;
pub mod persist;
pub mod records;
pub mod schema;
