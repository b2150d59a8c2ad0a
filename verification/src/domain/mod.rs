//! The domain layer: models and the rules that govern them.

pub mod model;
