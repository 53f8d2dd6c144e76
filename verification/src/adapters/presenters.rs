//! Presenters: entities made ready for display.

pub mod knowledge_presenter;
pub mod table_presenter;
