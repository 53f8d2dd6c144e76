//! Gateways: repositories that answer from memory.

pub mod postgres_table_gateway;
pub mod sqlite_knowledge_gateway;
