//! Domain models.

pub mod cart;
pub mod cart_laws;
pub mod error;
pub mod identifier;
pub mod item;
pub mod quantities;
pub mod timestamp;
pub mod user;
