//! Configuration.

pub mod database;
