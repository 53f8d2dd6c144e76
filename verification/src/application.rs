//! The use cases of the engine and the repositories that they work through.

pub mod repositories;
pub mod use_cases;
