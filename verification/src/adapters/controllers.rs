//! Controllers: the entry points that hand requests on to a repository.

pub mod knowledge_controller;
pub mod table_controller;
