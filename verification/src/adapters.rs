//! Controllers, gateways and presenters around the use cases.

pub mod controllers;
pub mod gateways;
pub mod presenters;
