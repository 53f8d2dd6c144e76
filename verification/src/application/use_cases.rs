//! The use cases.

pub mod fix_numeric_data;
pub mod move_table_data;
pub mod update_empty_tables_knowledge;
