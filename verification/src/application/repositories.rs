//! What the use cases ask of the world outside: the databases and the
//! knowledge store.

pub mod knowledge_repository;
pub mod table_repository;
