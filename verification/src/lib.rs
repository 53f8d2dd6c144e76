//! A dependency-aware table migration engine.
//!
//! The library copies the contents of a relational table from a source
//! database to a structurally similar target database. It decides what to
//! read, which statements to issue and how to react to each outcome; the
//! database traffic itself is left to implementations of the repository
//! traits.

pub mod adapters;
pub mod application;
pub mod calendar;
pub mod codec;
pub mod collect;
pub mod compare;
pub mod dependency;
pub mod domain;
pub mod engine;
pub mod laws;
pub mod queries;
pub mod repair;
pub mod state;
pub mod statements;
pub mod text;
