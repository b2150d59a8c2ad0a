//! Domain core of a small shop backend: the shopping-cart aggregate, the
//! catalogue and customer models, and the failures of each layer with the
//! rules by which a failure of one layer becomes a failure of the next.

pub mod config;
pub mod domain;
pub mod errors;
